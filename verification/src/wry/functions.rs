//! Free functions of the webview side.

use vstd::prelude::*;
use crate::wry::types::Result;

verus! {

/// Version of the webview library the bindings are written against, as
/// major, minor and patch number.
pub open spec fn spec_webview_version() -> (u32, u32, u32) {
    (0, 53, 5)
}

/// Reports the version of the webview library: always `Ok` of 0.53.5.
pub fn webview_version() -> (r: Result<(u32, u32, u32)>)
    ensures
        r == Ok::<(u32, u32, u32), crate::error::JsError>(spec_webview_version()),
{
    Ok((0, 53, 5))
}

} // verus!
