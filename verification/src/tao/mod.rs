//! The windowing side of the bindings.

pub mod enums;
pub mod functions;
pub mod structs;
pub mod types;
