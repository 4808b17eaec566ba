//! A webview that is made at once, on a window that exists.
//!
//! The native webview stays with the embedding. This module plans it from
//! the options, and turns what the native side reports into what the host is
//! told. Lengths and coordinates are of a type `N` that the embedding
//! chooses.

use vstd::prelude::*;
use crate::error::{fails_with, JsError};
use crate::wry::enums::WryTheme;

verus! {

/// Colour scheme of a window.
#[derive(Debug, Clone, Copy, PartialEq, Eq, Structural)]
pub enum Theme {
    Light,
    Dark,
    System,
}

/// What a caller asks of a new webview.
#[derive(Debug, Clone, PartialEq)]
pub struct WebviewOptions<N> {
    pub url: Option<String>,
    pub html: Option<String>,
    pub width: Option<N>,
    pub height: Option<N>,
    pub x: Option<N>,
    pub y: Option<N>,
    pub enable_devtools: Option<bool>,
    pub incognito: Option<bool>,
    pub user_agent: Option<String>,
    pub child: Option<bool>,
    pub preload: Option<String>,
    pub transparent: Option<bool>,
    pub theme: Option<Theme>,
    pub hotkeys_zoom: Option<bool>,
    pub clipboard: Option<bool>,
    pub autoplay: Option<bool>,
    pub back_forward_navigation_gestures: Option<bool>,
}

impl<N> WebviewOptions<N> {
    /// The options of a webview nothing particular is asked of: developer
    /// tools, zooming, clipboard, autoplay and swiping are on; private
    /// browsing and transparency are off; it is no child; its user agent is
    /// `WebviewJS`; all else is left out.
    pub open spec fn is_default(&self) -> bool {
        &&& self.url is None
        &&& self.html is None
        &&& self.width is None
        &&& self.height is None
        &&& self.x is None
        &&& self.y is None
        &&& self.enable_devtools == Some(true)
        &&& self.incognito == Some(false)
        &&& self.user_agent matches Some(agent) && agent@ == "WebviewJS"@
        &&& self.child == Some(false)
        &&& self.preload is None
        &&& self.transparent == Some(false)
        &&& self.theme is None
        &&& self.hotkeys_zoom == Some(true)
        &&& self.clipboard == Some(true)
        &&& self.autoplay == Some(true)
        &&& self.back_forward_navigation_gestures == Some(true)
    }
}

impl<N> Default for WebviewOptions<N> {
    fn default() -> (options: Self)
        ensures
            options.is_default(),
    {
        WebviewOptions {
            url: None,
            html: None,
            width: None,
            height: None,
            x: None,
            y: None,
            enable_devtools: Some(true),
            incognito: Some(false),
            user_agent: Some("WebviewJS".to_owned()),
            child: Some(false),
            preload: None,
            transparent: Some(false),
            theme: None,
            hotkeys_zoom: Some(true),
            clipboard: Some(true),
            autoplay: Some(true),
            back_forward_navigation_gestures: Some(true),
        }
    }
}

/// Where a webview lies within its window.
#[derive(Debug, Clone, Copy, PartialEq)]
pub struct Bounds<N> {
    pub x: N,
    pub y: N,
    pub width: N,
    pub height: N,
}

/// The bounds that `x`, `y`, `width` and `height` ask for, each taken from
/// `fallback` where it is left out.
pub open spec fn spec_bounds<N>(
    x: Option<N>,
    y: Option<N>,
    width: Option<N>,
    height: Option<N>,
    fallback: Bounds<N>,
) -> Bounds<N> {
    Bounds {
        x: match x {
            Some(v) => v,
            None => fallback.x,
        },
        y: match y {
            Some(v) => v,
            None => fallback.y,
        },
        width: match width {
            Some(v) => v,
            None => fallback.width,
        },
        height: match height {
            Some(v) => v,
            None => fallback.height,
        },
    }
}

/// Computes [`spec_bounds`].
pub fn bounds_of<N: Copy>(
    x: Option<N>,
    y: Option<N>,
    width: Option<N>,
    height: Option<N>,
    fallback: Bounds<N>,
) -> (b: Bounds<N>)
    ensures
        b == spec_bounds(x, y, width, height, fallback),
{
    Bounds {
        x: x.unwrap_or(fallback.x),
        y: y.unwrap_or(fallback.y),
        width: width.unwrap_or(fallback.width),
        height: height.unwrap_or(fallback.height),
    }
}

/// The native colour scheme for `theme`: light and dark as they are, and
/// for anything else the platform's own choice.
pub open spec fn spec_native_theme(theme: Theme) -> WryTheme {
    match theme {
        Theme::Light => WryTheme::Light,
        Theme::Dark => WryTheme::Dark,
        Theme::System => WryTheme::Auto,
    }
}

/// Computes [`spec_native_theme`].
pub fn native_theme(theme: Theme) -> (t: WryTheme)
    ensures
        t == spec_native_theme(theme),
{
    match theme {
        Theme::Light => WryTheme::Light,
        Theme::Dark => WryTheme::Dark,
        _ => WryTheme::Auto,
    }
}

/// Everything the embedding needs to make the native webview. What is `None`
/// is not told to the native builder, which then keeps its own default.
#[derive(Debug, Clone, PartialEq)]
pub struct WebviewSetup<N> {
    /// Whether the webview is made as a child of the window.
    pub child: bool,
    pub devtools: Option<bool>,
    pub bounds: Bounds<N>,
    pub incognito: Option<bool>,
    /// A script to run before the page's own.
    pub preload: Option<String>,
    pub transparent: Option<bool>,
    pub autoplay: Option<bool>,
    pub clipboard: Option<bool>,
    pub back_forward_navigation_gestures: Option<bool>,
    pub hotkeys_zoom: Option<bool>,
    /// Told only where the platform lets a webview have a theme of its own.
    pub theme: Option<WryTheme>,
    pub user_agent: Option<String>,
    /// Told before `url`.
    pub html: Option<String>,
    pub url: Option<String>,
}

impl<N> WebviewOptions<N> {
    /// Whether `setup` is the webview these options ask for, with the bounds
    /// taken from `fallback` where they are left out. Every other option is
    /// told as it is given, the theme as its native counterpart.
    pub open spec fn asks_for(&self, setup: WebviewSetup<N>, fallback: Bounds<N>) -> bool {
        &&& setup.child == self.child.unwrap_or(false)
        &&& setup.devtools == self.enable_devtools
        &&& setup.bounds == spec_bounds(self.x, self.y, self.width, self.height, fallback)
        &&& setup.incognito == self.incognito
        &&& setup.preload == self.preload
        &&& setup.transparent == self.transparent
        &&& setup.autoplay == self.autoplay
        &&& setup.clipboard == self.clipboard
        &&& setup.back_forward_navigation_gestures == self.back_forward_navigation_gestures
        &&& setup.hotkeys_zoom == self.hotkeys_zoom
        &&& setup.theme == (match self.theme {
            Some(t) => Some(spec_native_theme(t)),
            None => None,
        })
        &&& setup.user_agent == self.user_agent
        &&& setup.html == self.html
        &&& setup.url == self.url
    }
}

/// Stands for a webview that exists.
#[derive(Debug, Clone, Copy, PartialEq, Eq)]
pub struct JsWebview {}

/// What the host is told where the native side complains: nothing where it
/// does not, else a generic failure that reads `context` followed by the
/// complaint.
pub open spec fn spec_reported(
    native: Result<(), String>,
    context: Seq<char>,
    r: Result<(), JsError>,
) -> bool {
    match native {
        Ok(_) => r is Ok,
        Err(complaint) => fails_with(r, context + complaint@),
    }
}

/// Computes a result that meets [`spec_reported`].
pub fn report(native: Result<(), String>, context: &str) -> (r: Result<(), JsError>)
    ensures
        spec_reported(native, context@, r),
{
    match native {
        Ok(_) => Ok(()),
        Err(complaint) => Err(JsError::with_detail(context, complaint.as_str())),
    }
}

impl JsWebview {
    /// Plans the webview that `options` ask for: see
    /// [`WebviewOptions::asks_for`]. The embedding makes it and reports to
    /// [`JsWebview::created`].
    pub fn create<N: Copy>(options: WebviewOptions<N>, fallback: Bounds<N>) -> (setup:
        WebviewSetup<N>)
        ensures
            options.asks_for(setup, fallback),
    {
        let theme = match options.theme {
            Some(t) => Some(native_theme(t)),
            None => None,
        };
        WebviewSetup {
            child: options.child.unwrap_or(false),
            devtools: options.enable_devtools,
            bounds: bounds_of(options.x, options.y, options.width, options.height, fallback),
            incognito: options.incognito,
            preload: options.preload,
            transparent: options.transparent,
            autoplay: options.autoplay,
            clipboard: options.clipboard,
            back_forward_navigation_gestures: options.back_forward_navigation_gestures,
            hotkeys_zoom: options.hotkeys_zoom,
            theme,
            user_agent: options.user_agent,
            html: options.html,
            url: options.url,
        }
    }

    /// What becomes of a setup once carried out: the webview on success, and
    /// on failure `Failed to create webview: ` followed by the complaint.
    pub fn created(native: Result<(), String>) -> (r: Result<JsWebview, JsError>)
        ensures
            match native {
                Ok(_) => r is Ok,
                Err(complaint) => fails_with(r, "Failed to create webview: "@ + complaint@),
            },
    {
        match native {
            Ok(_) => Ok(JsWebview {  }),
            Err(complaint) => Err(
                JsError::with_detail("Failed to create webview: ", complaint.as_str()),
            ),
        }
    }

    /// A webview cannot be made out of nothing: always the failure
    /// `Webview constructor is not directly supported`.
    pub fn new() -> (r: Result<JsWebview, JsError>)
        ensures
            fails_with(r, "Webview constructor is not directly supported"@),
    {
        Err(JsError::generic("Webview constructor is not directly supported"))
    }

    /// Outcome of printing: a complaint reads `Failed to print: ` and then
    /// the complaint.
    pub fn print(native: Result<(), String>) -> (r: Result<(), JsError>)
        ensures
            spec_reported(native, "Failed to print: "@, r),
    {
        report(native, "Failed to print: ")
    }

    /// Outcome of zooming: a complaint reads `Failed to zoom: ` and then the
    /// complaint.
    pub fn zoom(native: Result<(), String>) -> (r: Result<(), JsError>)
        ensures
            spec_reported(native, "Failed to zoom: "@, r),
    {
        report(native, "Failed to zoom: ")
    }

    /// Outcome of showing or hiding the webview: a complaint reads
    /// `Failed to set webview visibility: ` and then the complaint.
    pub fn set_webview_visibility(native: Result<(), String>) -> (r: Result<(), JsError>)
        ensures
            spec_reported(native, "Failed to set webview visibility: "@, r),
    {
        report(native, "Failed to set webview visibility: ")
    }

    /// Outcome of loading an address: a complaint reads
    /// `Failed to load URL: ` and then the complaint.
    pub fn load_url(native: Result<(), String>) -> (r: Result<(), JsError>)
        ensures
            spec_reported(native, "Failed to load URL: "@, r),
    {
        report(native, "Failed to load URL: ")
    }

    /// Outcome of loading markup: a complaint reads `Failed to load HTML: `
    /// and then the complaint.
    pub fn load_html(native: Result<(), String>) -> (r: Result<(), JsError>)
        ensures
            spec_reported(native, "Failed to load HTML: "@, r),
    {
        report(native, "Failed to load HTML: ")
    }

    /// Outcome of running a script: a complaint is passed on as it is.
    pub fn evaluate_script(native: Result<(), String>) -> (r: Result<(), JsError>)
        ensures
            spec_reported(native, Seq::<char>::empty(), r),
    {
        let r = report(native, "");
        proof {
            reveal_strlit("");
            assert(""@ =~= Seq::<char>::empty());
        }
        r
    }

    /// Outcome of running a script whose result goes to a callback: a
    /// complaint is passed on as it is.
    pub fn evaluate_script_with_callback(native: Result<(), String>) -> (r: Result<(), JsError>)
        ensures
            spec_reported(native, Seq::<char>::empty(), r),
    {
        Self::evaluate_script(native)
    }

    /// Outcome of loading the page again: a complaint reads
    /// `Failed to reload: ` and then the complaint.
    pub fn reload(native: Result<(), String>) -> (r: Result<(), JsError>)
        ensures
            spec_reported(native, "Failed to reload: "@, r),
    {
        report(native, "Failed to reload: ")
    }
}

} // verus!
