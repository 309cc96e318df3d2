//! VM exit handling.

pub mod alike;
pub mod capture_laws;
pub mod chunks;
pub mod cpuid;
pub mod cr;
pub mod ept;
pub mod exit_laws;
pub mod handler;
pub mod helpers;
pub mod hypercall_laws;
pub mod interrupts;
pub mod io;
pub mod laws;
pub mod linear;
pub mod pebs;
pub mod pebs_laws;
pub mod qualifications;
pub mod rdrand;
pub mod reasons;
pub mod replay;
pub mod targets;
pub mod time;
pub mod vmcall;
