//! What a webview offers on some platforms only.

use vstd::prelude::*;
use crate::error::{fails_with, JsError};
use crate::wry::structs::WebView;
use crate::wry::types::Result;

verus! {

impl WebView {
    /// The address of the widget that shows the webview, which only the
    /// family of Unix platforms has. `unix` tells whether the platform is
    /// one of them; `widget` is what the native webview answered, `None`
    /// without one. Elsewhere this fails with
    /// `Unix-specific method not available on this platform`, and without a
    /// native webview with `WebView not initialized`.
    pub fn gtk_widget(unix: bool, widget: Option<u64>) -> (r: Result<u64>)
        ensures
            !unix ==> fails_with(r, "Unix-specific method not available on this platform"@),
            unix ==> match widget {
                Some(address) => r == Ok::<u64, JsError>(address),
                None => fails_with(r, "WebView not initialized"@),
            },
    {
        if !unix {
            return Err(JsError::generic("Unix-specific method not available on this platform"));
        }
        match widget {
            Some(address) => Ok(address),
            None => Err(JsError::generic("WebView not initialized")),
        }
    }
}

} // verus!
