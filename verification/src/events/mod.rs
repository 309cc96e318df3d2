//! The unified event stream.

pub mod laws;
pub mod stamps;
pub mod stream;
pub mod types;
pub mod wire_laws;
