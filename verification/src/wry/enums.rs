//! Plain enumerations of the webview side of the bindings.

use vstd::prelude::*;
use crate::error::JsError;

verus! {

/// What happens to timers of a page that is in the background.
#[derive(Debug, Clone, Copy, PartialEq, Eq, Structural)]
pub enum BackgroundThrottlingPolicy {
    Suspend,
    Unsuspend,
    UnsuspendWhenFirstVisible,
}

/// Stages of dragging something over a webview.
#[derive(Debug, Clone, Copy, PartialEq, Eq, Structural)]
pub enum DragDropEvent {
    Entered,
    Hovered,
    Left,
    Dropped,
}

/// Failures of a webview operation.
#[derive(Debug, Clone, Copy, PartialEq, Eq, Structural)]
pub enum Error {
    Uninitialized,
    AlreadyDestroyed,
    ScriptCallFailed,
    Ipc,
    InvalidWebview,
    InvalidUrl,
    Unsupported,
    InvalidIcon,
}

/// Answers to a page that asks to open a new window.
#[derive(Debug, Clone, Copy, PartialEq, Eq, Structural)]
pub enum NewWindowResponse {
    Deny,
    Allow,
    AllowAndNavigate,
}

/// Stages of loading a page.
#[derive(Debug, Clone, Copy, PartialEq, Eq, Structural)]
pub enum PageLoadEvent {
    Started,
    Completed,
}

/// Proxy through which a webview reaches the network.
#[derive(Debug, Clone, PartialEq, Eq)]
pub enum ProxyConfig {
    Direct,
    Http(String),
    Https(String),
    Socks5(String),
}

/// Colour scheme of a webview.
#[derive(Debug, Clone, Copy, PartialEq, Eq, Structural)]
pub enum WryTheme {
    Light,
    Dark,
    Auto,
}

impl Error {
    /// The sentence that describes this failure to the host.
    pub open spec fn message(self) -> Seq<char> {
        match self {
            Error::Uninitialized => "The webview was not initialized"@,
            Error::AlreadyDestroyed => "The webview has already been destroyed"@,
            Error::ScriptCallFailed => "The script call failed"@,
            Error::Ipc => "An IPC error occurred"@,
            Error::InvalidWebview => "The webview is invalid"@,
            Error::InvalidUrl => "The URL is invalid"@,
            Error::Unsupported => "The operation is not supported on this platform"@,
            Error::InvalidIcon => "The icon is invalid"@,
        }
    }

    /// Turns the failure into the value handed to the host: a generic failure
    /// whose reason is the sentence for this variant.
    pub fn to_js_error(&self) -> (e: JsError)
        ensures
            e.is_generic(self.message()),
    {
        match self {
            Error::Uninitialized => JsError::generic("The webview was not initialized"),
            Error::AlreadyDestroyed => JsError::generic("The webview has already been destroyed"),
            Error::ScriptCallFailed => JsError::generic("The script call failed"),
            Error::Ipc => JsError::generic("An IPC error occurred"),
            Error::InvalidWebview => JsError::generic("The webview is invalid"),
            Error::InvalidUrl => JsError::generic("The URL is invalid"),
            Error::Unsupported => JsError::generic(
                "The operation is not supported on this platform",
            ),
            Error::InvalidIcon => JsError::generic("The icon is invalid"),
        }
    }
}

} // verus!
