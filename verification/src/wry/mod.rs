//! The webview side of the bindings.

pub mod enums;
pub mod functions;
pub mod structs;
pub mod traits;
pub mod types;
