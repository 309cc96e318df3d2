//! The interface of a VM file descriptor.

pub mod handlers;
pub mod structs;
