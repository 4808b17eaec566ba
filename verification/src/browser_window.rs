//! A browser window that is made at once: a native window with one webview
//! filling it.
//!
//! Window and webview stay with the embedding. This module plans them from
//! the options, maps between what the host says and what the native
//! side understands, and turns what the native side reports into what the
//! host is told. Lengths and coordinates that are only carried along are of
//! a type `N` that the embedding chooses.

use vstd::prelude::*;
use vstd::string::StringExecFns;
use crate::error::{fails_with, JsError};
use crate::tao::enums::{ProgressState, TaoTheme};
use crate::webview::{bounds_of, report, spec_bounds, spec_reported, Bounds, WebviewSetup};
use crate::wry::enums::WryTheme;

verus! {

/// The two ways a window can fill a screen.
#[derive(Debug, Clone, Copy, PartialEq, Eq, Structural)]
pub enum FullscreenType {
    Exclusive,
    Borderless,
}

/// Width and height in physical pixels.
#[derive(Debug, Clone, Copy, PartialEq, Eq, Structural)]
pub struct Dimensions {
    pub width: u32,
    pub height: u32,
}

/// A point in physical pixels.
#[derive(Debug, Clone, Copy, PartialEq, Eq, Structural)]
pub struct Position {
    pub x: i32,
    pub y: i32,
}

/// A display mode of a monitor.
#[derive(Debug, Clone, Copy, PartialEq, Eq, Structural)]
pub struct JsVideoMode {
    pub size: Dimensions,
    pub bit_depth: u16,
    pub refresh_rate: u16,
}

/// A monitor as the host sees it.
#[derive(Debug, Clone, PartialEq)]
pub struct Monitor<N> {
    pub name: Option<String>,
    pub scale_factor: N,
    pub size: Dimensions,
    pub position: Position,
    pub video_modes: Vec<JsVideoMode>,
}

/// State of the progress indicator as the host names it.
#[derive(Debug, Clone, Copy, PartialEq, Eq, Structural)]
pub enum JsProgressBarState {
    Hidden,
    Normal,
    Indeterminate,
    Paused,
    Error,
}

/// Progress as the host gives it.
#[derive(Debug, Clone, Copy, PartialEq, Eq, Structural)]
pub struct JsProgressBar {
    pub state: Option<JsProgressBarState>,
    pub progress: Option<u32>,
}

/// Colour scheme as the host names it.
#[derive(Debug, Clone, Copy, PartialEq, Eq, Structural)]
pub enum JsTheme {
    Light,
    Dark,
    System,
}

/// What a caller asks of a new browser window.
#[derive(Debug, Clone, PartialEq)]
pub struct BrowserWindowOptions<N> {
    pub url: Option<String>,
    pub html: Option<String>,
    pub width: Option<N>,
    pub height: Option<N>,
    pub x: Option<N>,
    pub y: Option<N>,
    pub enable_devtools: Option<bool>,
    pub resizable: Option<bool>,
    pub incognito: Option<bool>,
    pub transparent: Option<bool>,
    pub title: Option<String>,
    pub user_agent: Option<String>,
    pub theme: Option<JsTheme>,
    pub preload: Option<String>,
    pub hotkeys_zoom: Option<bool>,
    pub clipboard: Option<bool>,
    pub autoplay: Option<bool>,
    pub back_forward_navigation_gestures: Option<bool>,
}

/// The native window to make. A title that is `None` is not told to the
/// native builder.
#[derive(Debug, Clone, PartialEq, Eq)]
pub struct WindowSetup {
    pub resizable: bool,
    pub title: Option<String>,
}

/// The native colour scheme of a webview for `theme`: light and dark as they
/// are, and for anything else the platform's own choice.
pub open spec fn spec_webview_theme(theme: JsTheme) -> WryTheme {
    match theme {
        JsTheme::Light => WryTheme::Light,
        JsTheme::Dark => WryTheme::Dark,
        JsTheme::System => WryTheme::Auto,
    }
}

/// Computes [`spec_webview_theme`].
pub fn webview_theme(theme: JsTheme) -> (t: WryTheme)
    ensures
        t == spec_webview_theme(theme),
{
    match theme {
        JsTheme::Light => WryTheme::Light,
        JsTheme::Dark => WryTheme::Dark,
        _ => WryTheme::Auto,
    }
}

impl<N> BrowserWindowOptions<N> {
    /// Whether `window` is the native window these options ask for:
    /// resizable unless asked otherwise, with the title as given.
    pub open spec fn asks_for_window(&self, window: WindowSetup) -> bool {
        &&& window.resizable == self.resizable.unwrap_or(true)
        &&& window.title == self.title
    }

    /// Whether `setup` is the webview these options ask for, as a child of
    /// the window or not as `child` says. Developer tools are on and private
    /// browsing is off unless asked otherwise; the bounds are taken from
    /// `fallback` where they are left out; every other option is told as it
    /// is given, the theme as its native counterpart.
    pub open spec fn asks_for_webview(
        &self,
        setup: WebviewSetup<N>,
        child: bool,
        fallback: Bounds<N>,
    ) -> bool {
        &&& setup.child == child
        &&& setup.devtools == Some(self.enable_devtools.unwrap_or(true))
        &&& setup.bounds == spec_bounds(self.x, self.y, self.width, self.height, fallback)
        &&& setup.incognito == Some(self.incognito.unwrap_or(false))
        &&& setup.preload == self.preload
        &&& setup.transparent == self.transparent
        &&& setup.autoplay == self.autoplay
        &&& setup.clipboard == self.clipboard
        &&& setup.back_forward_navigation_gestures == self.back_forward_navigation_gestures
        &&& setup.hotkeys_zoom == self.hotkeys_zoom
        &&& setup.theme == (match self.theme {
            Some(t) => Some(spec_webview_theme(t)),
            None => None,
        })
        &&& setup.user_agent == self.user_agent
        &&& setup.html == self.html
        &&& setup.url == self.url
    }
}

/// Whether `window` and `webview` are what a browser window comes to that
/// is asked for without options: a resizable window titled `WebviewJS`, and
/// in it a webview within `fallback`, a child or not as `child` says, with
/// developer tools and without private browsing, of which nothing else is
/// told.
pub open spec fn spec_plain_browser_window<N>(
    window: WindowSetup,
    webview: WebviewSetup<N>,
    child: bool,
    fallback: Bounds<N>,
) -> bool {
    &&& window.resizable
    &&& window.title matches Some(t) && t@ == "WebviewJS"@
    &&& webview.child == child
    &&& webview.devtools == Some(true)
    &&& webview.bounds == fallback
    &&& webview.incognito == Some(false)
    &&& webview.preload is None
    &&& webview.transparent is None
    &&& webview.autoplay is None
    &&& webview.clipboard is None
    &&& webview.back_forward_navigation_gestures is None
    &&& webview.hotkeys_zoom is None
    &&& webview.theme is None
    &&& webview.user_agent is None
    &&& webview.html is None
    &&& webview.url is None
}

/// A native fullscreen state, as far as the bindings tell states apart.
#[derive(Debug, Clone, Copy, PartialEq, Eq, Structural)]
pub enum NativeFullscreen {
    /// Exclusive use of a monitor in one of its video modes.
    Exclusive,
    /// A borderless window over a monitor; `on_chosen_monitor` tells whether
    /// a particular monitor was named.
    Borderless { on_chosen_monitor: bool },
}

/// What to do about the fullscreen state of a window.
#[derive(Debug, Clone, Copy, PartialEq, Eq, Structural)]
pub enum FullscreenChange {
    /// Nothing.
    Keep,
    /// Leave fullscreen.
    Leave,
    /// Take the current monitor over, in its first video mode.
    EnterExclusive,
    /// Cover the current monitor with a borderless window.
    EnterBorderless,
}

/// What to show as the progress of a window. What is `None` is left as it is.
#[derive(Debug, Clone, Copy, PartialEq, Eq, Structural)]
pub struct ProgressSetup {
    pub progress: Option<u64>,
    pub state: Option<ProgressState>,
}

/// A browser window, with what was planned for it.
#[derive(Debug, Clone, PartialEq)]
pub struct BrowserWindow<N> {
    pub id: u32,
    /// The native window to make.
    pub window: WindowSetup,
    /// The native webview to make in it.
    pub webview: WebviewSetup<N>,
}

impl<N> BrowserWindow<N> {
    /// Whether this is the browser window `id` that `options` ask for, a
    /// child or not as `child` says: with options, see
    /// [`BrowserWindowOptions::asks_for_window`] and
    /// [`BrowserWindowOptions::asks_for_webview`]; without, see
    /// [`spec_plain_browser_window`].
    pub open spec fn carries_out(
        &self,
        options: Option<BrowserWindowOptions<N>>,
        id: u32,
        child: bool,
        fallback: Bounds<N>,
    ) -> bool {
        &&& self.id == id
        &&& match options {
            Some(o) => o.asks_for_window(self.window) && o.asks_for_webview(
                self.webview,
                child,
                fallback,
            ),
            None => spec_plain_browser_window(self.window, self.webview, child, fallback),
        }
    }
}

impl<N: Copy> BrowserWindow<N> {
    /// Plans the browser window `id` from `options`: see
    /// [`BrowserWindow::carries_out`]. The embedding makes the window, then
    /// the webview, and tells a failure through
    /// [`BrowserWindow::window_failed`] or [`BrowserWindow::webview_failed`].
    pub fn new(
        options: Option<BrowserWindowOptions<N>>,
        id: u32,
        child: bool,
        fallback: Bounds<N>,
    ) -> (w: Self)
        ensures
            w.carries_out(options, id, child, fallback),
    {
        let options = match options {
            Some(o) => o,
            None => BrowserWindowOptions {
                url: None,
                html: None,
                width: None,
                height: None,
                x: None,
                y: None,
                enable_devtools: None,
                resizable: None,
                incognito: None,
                transparent: None,
                title: Some(String::from_str("WebviewJS")),
                user_agent: None,
                theme: None,
                preload: None,
                autoplay: None,
                back_forward_navigation_gestures: None,
                clipboard: None,
                hotkeys_zoom: None,
            },
        };
        let window = WindowSetup {
            resizable: options.resizable.unwrap_or(true),
            title: options.title,
        };
        let theme = match options.theme {
            Some(t) => Some(webview_theme(t)),
            None => None,
        };
        let webview = WebviewSetup {
            child,
            devtools: Some(options.enable_devtools.unwrap_or(true)),
            bounds: bounds_of(options.x, options.y, options.width, options.height, fallback),
            incognito: Some(options.incognito.unwrap_or(false)),
            preload: options.preload,
            transparent: options.transparent,
            autoplay: options.autoplay,
            clipboard: options.clipboard,
            back_forward_navigation_gestures: options.back_forward_navigation_gestures,
            hotkeys_zoom: options.hotkeys_zoom,
            theme,
            user_agent: options.user_agent,
            html: options.html,
            url: options.url,
        };
        BrowserWindow { id, window, webview }
    }

    /// What the host is told where the native window cannot be made:
    /// `Failed to create window: ` followed by the complaint.
    pub fn window_failed(complaint: &str) -> (e: JsError)
        ensures
            e.is_generic("Failed to create window: "@ + complaint@),
    {
        JsError::with_detail("Failed to create window: ", complaint)
    }

    /// What the host is told where the native webview cannot be made:
    /// `Failed to create webview: ` followed by the complaint.
    pub fn webview_failed(complaint: &str) -> (e: JsError)
        ensures
            e.is_generic("Failed to create webview: "@ + complaint@),
    {
        JsError::with_detail("Failed to create webview: ", complaint)
    }

    /// The identifier of the window.
    pub fn id(&self) -> (id: u32)
        ensures
            id == self.id,
    {
        self.id
    }

    /// Outcome of printing: a complaint reads `Failed to print: ` and then
    /// the complaint.
    pub fn print(native: Result<(), String>) -> (r: Result<(), JsError>)
        ensures
            spec_reported(native, "Failed to print: "@, r),
    {
        report(native, "Failed to print: ")
    }

    /// Outcome of zooming: a complaint reads `Failed to zoom: ` and then the
    /// complaint.
    pub fn zoom(native: Result<(), String>) -> (r: Result<(), JsError>)
        ensures
            spec_reported(native, "Failed to zoom: "@, r),
    {
        report(native, "Failed to zoom: ")
    }

    /// Outcome of showing or hiding the webview: a complaint reads
    /// `Failed to set webview visibility: ` and then the complaint.
    pub fn set_webview_visibility(native: Result<(), String>) -> (r: Result<(), JsError>)
        ensures
            spec_reported(native, "Failed to set webview visibility: "@, r),
    {
        report(native, "Failed to set webview visibility: ")
    }

    /// Outcome of loading an address: a complaint reads
    /// `Failed to load URL: ` and then the complaint.
    pub fn load_url(native: Result<(), String>) -> (r: Result<(), JsError>)
        ensures
            spec_reported(native, "Failed to load URL: "@, r),
    {
        report(native, "Failed to load URL: ")
    }

    /// Outcome of loading markup: a complaint reads `Failed to load HTML: `
    /// and then the complaint.
    pub fn load_html(native: Result<(), String>) -> (r: Result<(), JsError>)
        ensures
            spec_reported(native, "Failed to load HTML: "@, r),
    {
        report(native, "Failed to load HTML: ")
    }

    /// The colour scheme the host is told for the native one: light and dark
    /// as they are; `None`, which stands for any other, is the system's.
    pub open spec fn spec_get_theme(native: Option<TaoTheme>) -> JsTheme {
        match native {
            Some(TaoTheme::Light) => JsTheme::Light,
            Some(TaoTheme::Dark) => JsTheme::Dark,
            None => JsTheme::System,
        }
    }

    /// Computes [`BrowserWindow::spec_get_theme`].
    pub fn get_theme(native: Option<TaoTheme>) -> (t: JsTheme)
        ensures
            t == Self::spec_get_theme(native),
    {
        match native {
            Some(TaoTheme::Light) => JsTheme::Light,
            Some(TaoTheme::Dark) => JsTheme::Dark,
            None => JsTheme::System,
        }
    }

    /// The colour scheme to set on the native window for `theme`: light and
    /// dark as they are; for anything else `None`, which lets the window
    /// follow the system.
    pub open spec fn spec_set_theme(theme: JsTheme) -> Option<TaoTheme> {
        match theme {
            JsTheme::Light => Some(TaoTheme::Light),
            JsTheme::Dark => Some(TaoTheme::Dark),
            JsTheme::System => None,
        }
    }

    /// Computes [`BrowserWindow::spec_set_theme`].
    pub fn set_theme(theme: JsTheme) -> (t: Option<TaoTheme>)
        ensures
            t == Self::spec_set_theme(theme),
    {
        match theme {
            JsTheme::Light => Some(TaoTheme::Light),
            JsTheme::Dark => Some(TaoTheme::Dark),
            _ => None,
        }
    }

    /// Outcome of running a script: a complaint is passed on as it is.
    pub fn evaluate_script(native: Result<(), String>) -> (r: Result<(), JsError>)
        ensures
            spec_reported(native, Seq::<char>::empty(), r),
    {
        crate::webview::JsWebview::evaluate_script(native)
    }

    /// Outcome of running a script whose result goes to a callback.
    ///
    /// `callback` tells whether the callback could be wrapped for use from
    /// other threads; a complaint there reads
    /// `Failed to create threadsafe function: ` and then the complaint, and
    /// the script is not run. Else `script`, which is `None` only where the
    /// script was not run after all, tells how running it went; a complaint
    /// there is passed on as it is.
    pub fn evaluate_script_with_callback(
        callback: Result<(), String>,
        script: Option<Result<(), String>>,
    ) -> (r: Result<(), JsError>)
        ensures
            match callback {
                Err(complaint) => fails_with(
                    r,
                    "Failed to create threadsafe function: "@ + complaint@,
                ),
                Ok(_) => match script {
                    Some(Err(complaint)) => fails_with(r, complaint@),
                    _ => r is Ok,
                },
            },
    {
        match callback {
            Err(complaint) => Err(
                JsError::with_detail("Failed to create threadsafe function: ", complaint.as_str()),
            ),
            Ok(_) => match script {
                Some(Err(complaint)) => Err(JsError::generic(complaint.as_str())),
                _ => Ok(()),
            },
        }
    }

    /// Outcome of setting the window icon. `native` is `None` where the
    /// platform has no window icons, which succeeds, and else tells whether
    /// an icon could be made; a complaint reads `Failed to set window icon: `
    /// and then the complaint.
    pub fn set_window_icon(native: Option<Result<(), String>>) -> (r: Result<(), JsError>)
        ensures
            match native {
                Some(Err(complaint)) => fails_with(
                    r,
                    "Failed to set window icon: "@ + complaint@,
                ),
                _ => r is Ok,
            },
    {
        match native {
            Some(Err(complaint)) => Err(
                JsError::with_detail("Failed to set window icon: ", complaint.as_str()),
            ),
            _ => Ok(()),
        }
    }

    /// The progress to show for `state`. A state the native side knows is
    /// told as it is; hiding and no state at all leave the native state
    /// alone. The value is told as it is.
    pub open spec fn spec_progress(state: JsProgressBar) -> ProgressSetup {
        ProgressSetup {
            progress: match state.progress {
                Some(value) => Some(value as u64),
                None => None,
            },
            state: match state.state {
                Some(JsProgressBarState::Normal) => Some(ProgressState::Normal),
                Some(JsProgressBarState::Indeterminate) => Some(ProgressState::Indeterminate),
                Some(JsProgressBarState::Paused) => Some(ProgressState::Paused),
                Some(JsProgressBarState::Error) => Some(ProgressState::Error),
                _ => None,
            },
        }
    }

    /// Computes [`BrowserWindow::spec_progress`].
    pub fn set_progress_bar(state: JsProgressBar) -> (setup: ProgressSetup)
        ensures
            setup == Self::spec_progress(state),
    {
        let progress_state = match state.state {
            Some(JsProgressBarState::Normal) => Some(ProgressState::Normal),
            Some(JsProgressBarState::Indeterminate) => Some(ProgressState::Indeterminate),
            Some(JsProgressBarState::Paused) => Some(ProgressState::Paused),
            Some(JsProgressBarState::Error) => Some(ProgressState::Error),
            _ => None,
        };
        let progress_value = match state.progress {
            Some(value) => Some(value as u64),
            None => None,
        };
        ProgressSetup { progress: progress_value, state: progress_state }
    }

    /// The fullscreen state the host is told for the native one. A
    /// borderless window counts as borderless only where no monitor was
    /// named for it; every other fullscreen state counts as exclusive.
    pub open spec fn spec_get_fullscreen(native: Option<NativeFullscreen>) -> Option<
        FullscreenType,
    > {
        match native {
            None => None,
            Some(NativeFullscreen::Borderless { on_chosen_monitor: false }) => Some(
                FullscreenType::Borderless,
            ),
            Some(_) => Some(FullscreenType::Exclusive),
        }
    }

    /// Computes [`BrowserWindow::spec_get_fullscreen`].
    pub fn get_fullscreen(native: Option<NativeFullscreen>) -> (f: Option<FullscreenType>)
        ensures
            f == Self::spec_get_fullscreen(native),
    {
        match native {
            None => None,
            Some(NativeFullscreen::Borderless { on_chosen_monitor: false }) => Some(
                FullscreenType::Borderless,
            ),
            Some(_) => Some(FullscreenType::Exclusive),
        }
    }

    /// What to do where the host asks for `fullscreen_type`. Without a
    /// current monitor, or on one without a video mode, nothing is done,
    /// whatever is asked. Else the window enters the fullscreen asked for, or
    /// leaves fullscreen where none is.
    pub open spec fn spec_set_fullscreen(
        fullscreen_type: Option<FullscreenType>,
        has_monitor: bool,
        has_video_mode: bool,
    ) -> FullscreenChange {
        if !has_monitor || !has_video_mode {
            FullscreenChange::Keep
        } else {
            match fullscreen_type {
                Some(FullscreenType::Exclusive) => FullscreenChange::EnterExclusive,
                Some(FullscreenType::Borderless) => FullscreenChange::EnterBorderless,
                None => FullscreenChange::Leave,
            }
        }
    }

    /// Computes [`BrowserWindow::spec_set_fullscreen`]. `has_monitor` tells
    /// whether the window is on a monitor, `has_video_mode` whether that
    /// monitor has a video mode.
    pub fn set_fullscreen(
        fullscreen_type: Option<FullscreenType>,
        has_monitor: bool,
        has_video_mode: bool,
    ) -> (change: FullscreenChange)
        ensures
            change == Self::spec_set_fullscreen(fullscreen_type, has_monitor, has_video_mode),
    {
        if !has_monitor {
            return FullscreenChange::Keep;
        }
        if !has_video_mode {
            return FullscreenChange::Keep;
        }
        match fullscreen_type {
            Some(FullscreenType::Exclusive) => FullscreenChange::EnterExclusive,
            Some(FullscreenType::Borderless) => FullscreenChange::EnterBorderless,
            None => FullscreenChange::Leave,
        }
    }
}

} // verus!
