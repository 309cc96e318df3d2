//! State of the emulated devices. The exit handlers hold the emulation.

pub mod apic;
pub mod ioapic;
pub mod laws;
pub mod mtrr;
pub mod random;
pub mod rdrand;
pub mod rtc;
pub mod serial;
