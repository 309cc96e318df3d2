//! Root and forked VMs.

pub mod forked;
pub mod laws;
pub mod root;
