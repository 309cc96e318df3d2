//! Interfaces and shared state types.

pub mod device_state;
pub mod errors;
pub mod instruction_counter;
pub mod run_laws;
pub mod vm_context;
pub mod vm_run;
