//! Type aliases of the windowing side.

use vstd::prelude::*;
use crate::error::JsError;

verus! {

/// Outcome of a windowing operation.
pub type Result<T> = core::result::Result<T, JsError>;

/// Identifies a window.
pub type WindowId = u32;

/// Identifies an input device.
pub type DeviceId = u32;

/// Identifies an axis of a scroll event.
pub type AxisId = u32;

/// Identifies a mouse button.
pub type ButtonId = u32;

/// A colour as red, green, blue and alpha.
pub type RGBA = [u8; 4];

} // verus!
