//! Type aliases of the webview side.

use vstd::prelude::*;
use crate::error::JsError;

verus! {

/// A colour as red, green, blue and alpha.
pub type RGBA = [u8; 4];

/// Outcome of a webview operation.
pub type Result<T> = core::result::Result<T, JsError>;

/// Identifies a webview.
pub type WebViewId = u64;

} // verus!
