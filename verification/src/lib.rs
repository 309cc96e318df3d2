//! Deterministic x86-64 virtual machine core.

pub mod bytes;
pub mod compat;
pub mod device;
pub mod devices;
pub mod ept;
pub mod events;
pub mod exit_record;
pub mod exits;
pub mod feedback;
pub mod fields;
pub mod hash;
pub mod host;
pub mod hypercalls;
pub mod instruction_counter;
pub mod io_channel;
pub mod logging;
pub mod memory;
pub mod msr;
pub mod page;
pub mod registers;
pub mod sorted_map;
pub mod stats;
pub mod traits;
pub mod vm;
pub mod vm_file;
pub mod vm_pages;
pub mod vm_state;
pub mod vmcs;
pub mod workload_monitor;
