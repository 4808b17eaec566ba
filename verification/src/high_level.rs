//! An application whose windows and webviews come into being later.
//!
//! Windows are asked for at any time and made when the event loop next turns;
//! a webview is made with its window. What is asked of a webview before it
//! exists is kept and done, in order, once it does. Lengths and coordinates
//! of a window are of a type `N` that the embedding chooses; so are the
//! tokens `W` and `V` by which it finds its own window and webview again, and
//! the handlers `H` that hear a page.

use vstd::prelude::*;
use vstd::string::StringExecFns;
use crate::error::{fails_with, JsError};
use crate::tao::enums::TaoTheme;
use crate::tao::structs::{
    position_of, spec_position, Icon, Iteration, LoopControl, LoopEvent, MonitorInfo, Position,
    Window, WindowCommand, WindowPlan,
};
use crate::wry::structs::{
    InitializationScript, Rect, WebView, WebViewAttributes, WebViewBuilder, WebviewBuild,
    WebviewContent, WebviewPlan,
};

verus! {

/// Something asked of a webview, kept while the webview does not exist.
#[derive(Debug, Clone, PartialEq, Eq)]
pub enum PendingWebviewAction {
    LoadUrl(String),
    LoadHtml(String),
    EvaluateScript(String),
    OpenDevtools,
    CloseDevtools,
    Reload,
    Print,
}

/// What an application tells its listener.
#[derive(Debug, Clone, Copy, PartialEq, Eq, Structural)]
pub enum WebviewApplicationEvent {
    WindowCloseRequested,
    ApplicationCloseRequested,
}

/// An event as the listener of an application receives it.
#[derive(Debug, Clone, Copy, PartialEq, Eq, Structural)]
pub struct ApplicationEvent {
    pub event: WebviewApplicationEvent,
}

/// What a caller asks of a new application.
#[derive(Debug, Clone, Copy, PartialEq, Eq, Structural)]
pub struct ApplicationOptions {
    pub control_flow: Option<ControlFlow>,
    pub wait_time: Option<u32>,
    pub exit_code: Option<i32>,
}

/// How the event loop proceeds.
#[derive(Debug, Clone, Copy, PartialEq, Eq, Structural)]
pub enum ControlFlow {
    Poll,
    WaitUntil,
    Exit,
    ExitWithCode,
}

/// Width and height.
#[derive(Debug, Clone, Copy, PartialEq)]
pub struct Dimensions<N> {
    pub width: N,
    pub height: N,
}

/// The two ways a window can fill a screen.
#[derive(Debug, Clone, Copy, PartialEq, Eq, Structural)]
pub enum FullscreenType {
    Exclusive,
    Borderless,
}

/// One header of a message from a page.
#[derive(Debug, Clone, PartialEq, Eq)]
pub struct HeaderData {
    pub key: String,
    pub value: Option<String>,
}

/// A message from a page.
#[derive(Debug, Clone, PartialEq, Eq)]
pub struct IpcMessage {
    pub body: Vec<u8>,
    pub method: String,
    pub headers: Vec<HeaderData>,
    pub uri: String,
}

/// State of the progress indicator of a window.
#[derive(Debug, Clone, Copy, PartialEq, Eq, Structural)]
pub enum ProgressBarStatus {
    Hidden,
    Normal,
    Indeterminate,
    Paused,
    Error,
}

/// Progress shown on a window, from 0 to 100.
#[derive(Debug, Clone, Copy, PartialEq)]
pub struct ProgressBarState<N> {
    pub status: ProgressBarStatus,
    pub progress: N,
}

/// Colour scheme of a window.
#[derive(Debug, Clone, Copy, PartialEq, Eq, Structural)]
pub enum Theme {
    Light,
    Dark,
    System,
}

/// A display mode of a monitor.
#[derive(Debug, Clone, Copy, PartialEq)]
pub struct VideoMode<N> {
    pub size: Dimensions<N>,
    pub bit_depth: u32,
    pub refresh_rate: u32,
}

/// A monitor as the host sees it.
#[derive(Debug, Clone, PartialEq)]
pub struct Monitor<N> {
    pub name: Option<String>,
    pub scale_factor: N,
    pub size: Dimensions<N>,
    pub position: Position<N>,
    pub video_modes: Vec<VideoMode<N>>,
}

/// What a caller asks of a new window. A field left out takes its default
/// when the window is planned.
#[derive(Debug, Clone, PartialEq)]
pub struct BrowserWindowOptions<N> {
    pub resizable: Option<bool>,
    pub title: Option<String>,
    pub width: Option<N>,
    pub height: Option<N>,
    pub x: Option<N>,
    pub y: Option<N>,
    pub content_protection: Option<bool>,
    pub always_on_top: Option<bool>,
    pub always_on_bottom: Option<bool>,
    pub visible: Option<bool>,
    pub decorations: Option<bool>,
    pub visible_on_all_workspaces: Option<bool>,
    pub maximized: Option<bool>,
    pub maximizable: Option<bool>,
    pub minimizable: Option<bool>,
    pub focused: Option<bool>,
    pub transparent: Option<bool>,
    pub fullscreen: Option<FullscreenType>,
}

/// What a caller asks of a new webview, in whole logical pixels. A field left
/// out takes the default of the webview builder.
#[derive(Debug, Clone, PartialEq, Eq)]
pub struct WebviewOptions {
    pub url: Option<String>,
    pub html: Option<String>,
    pub width: Option<u32>,
    pub height: Option<u32>,
    pub x: Option<i32>,
    pub y: Option<i32>,
    pub enable_devtools: Option<bool>,
    pub incognito: Option<bool>,
    pub user_agent: Option<String>,
    pub child: Option<bool>,
    pub preload: Option<String>,
    pub transparent: Option<bool>,
    pub theme: Option<Theme>,
    pub hotkeys_zoom: Option<bool>,
    pub clipboard: Option<bool>,
    pub autoplay: Option<bool>,
    pub back_forward_navigation_gestures: Option<bool>,
}

/// A window that was asked for and is not made yet.
#[derive(Debug, Clone, PartialEq)]
pub struct PendingWindow<N, W> {
    pub options: BrowserWindowOptions<N>,
    /// By this the embedding finds its own side of the window.
    pub handle: W,
}

/// A webview that was asked for and is not made yet.
#[derive(Debug, Clone, PartialEq, Eq)]
pub struct PendingWebview<V> {
    pub options: WebviewOptions,
    /// By this the embedding finds its own side of the webview.
    pub handle: V,
}

impl<N> BrowserWindowOptions<N> {
    /// The options of a window that is asked for without any: resizable,
    /// visible and decorated, titled `Webview`, of the size `size`, all else
    /// left out.
    pub open spec fn is_default(&self, size: Dimensions<N>) -> bool {
        &&& self.resizable == Some(true)
        &&& self.title matches Some(t) && t@ == "Webview"@
        &&& self.width == Some(size.width)
        &&& self.height == Some(size.height)
        &&& self.x is None
        &&& self.y is None
        &&& self.content_protection is None
        &&& self.always_on_top is None
        &&& self.always_on_bottom is None
        &&& self.visible == Some(true)
        &&& self.decorations == Some(true)
        &&& self.visible_on_all_workspaces is None
        &&& self.maximized is None
        &&& self.maximizable is None
        &&& self.minimizable is None
        &&& self.focused is None
        &&& self.transparent is None
        &&& self.fullscreen is None
    }

    /// Whether `plan` is the window these options ask for, where a size left
    /// out is that of `fallback`. A title left out is empty; a window is
    /// resizable, decorated, focused and visible unless asked otherwise, and
    /// on top, maximized or transparent only when asked. A transparent window
    /// gets what its platform needs for showing through. It is placed only
    /// where both coordinates are given. The other options take no part.
    pub open spec fn asks_for(&self, plan: WindowPlan<N, N>, fallback: Dimensions<N>) -> bool {
        &&& plan.title@ == (match self.title {
            Some(t) => t@,
            None => Seq::<char>::empty(),
        })
        &&& plan.width == (match self.width {
            Some(w) => w,
            None => fallback.width,
        })
        &&& plan.height == (match self.height {
            Some(h) => h,
            None => fallback.height,
        })
        &&& plan.resizable == self.resizable.unwrap_or(true)
        &&& plan.decorations == self.decorations.unwrap_or(true)
        &&& plan.always_on_top == self.always_on_top.unwrap_or(false)
        &&& plan.visible == self.visible.unwrap_or(true)
        &&& plan.transparent == self.transparent.unwrap_or(false)
        &&& plan.platform_transparency == self.transparent.unwrap_or(false)
        &&& plan.maximized == self.maximized.unwrap_or(false)
        &&& plan.focused == self.focused.unwrap_or(true)
        &&& plan.position == spec_position(self.x, self.y)
    }
}

impl<N: Copy> BrowserWindowOptions<N> {
    /// The plan of the window these options ask for: see
    /// [`BrowserWindowOptions::asks_for`].
    pub fn plan(&self, fallback: Dimensions<N>) -> (plan: WindowPlan<N, N>)
        ensures
            self.asks_for(plan, fallback),
    {
        let title = match &self.title {
            Some(t) => t.clone(),
            None => String::new(),
        };
        WindowPlan {
            title,
            width: self.width.unwrap_or(fallback.width),
            height: self.height.unwrap_or(fallback.height),
            resizable: self.resizable.unwrap_or(true),
            decorations: self.decorations.unwrap_or(true),
            always_on_top: self.always_on_top.unwrap_or(false),
            visible: self.visible.unwrap_or(true),
            transparent: self.transparent.unwrap_or(false),
            platform_transparency: self.transparent.unwrap_or(false),
            maximized: self.maximized.unwrap_or(false),
            focused: self.focused.unwrap_or(true),
            position: position_of(self.x, self.y),
        }
    }
}

impl WebviewOptions {
    /// The options of a webview that is asked for without any: all left out.
    pub open spec fn is_default(&self) -> bool {
        &&& self.url is None
        &&& self.html is None
        &&& self.width is None
        &&& self.height is None
        &&& self.x is None
        &&& self.y is None
        &&& self.enable_devtools is None
        &&& self.incognito is None
        &&& self.user_agent is None
        &&& self.child is None
        &&& self.preload is None
        &&& self.transparent is None
        &&& self.theme is None
        &&& self.hotkeys_zoom is None
        &&& self.clipboard is None
        &&& self.autoplay is None
        &&& self.back_forward_navigation_gestures is None
    }

    /// The scripts a builder gets from these options: the preload script,
    /// to run on every page, where there is one.
    pub open spec fn scripts(&self) -> Seq<InitializationScript> {
        match self.preload {
            Some(js) => seq![InitializationScript { js, once: false }],
            None => Seq::<InitializationScript>::empty(),
        }
    }

    /// Whether `a` are the attributes of a fresh builder that was told each
    /// option that is given here. `child` and `theme` take no part.
    pub open spec fn configures(&self, a: WebViewAttributes) -> bool {
        &&& a.url == self.url
        &&& a.html == self.html
        &&& a.width == self.width.unwrap_or(800)
        &&& a.height == self.height.unwrap_or(600)
        &&& a.x == self.x.unwrap_or(0)
        &&& a.y == self.y.unwrap_or(0)
        &&& a.user_agent == self.user_agent
        &&& a.transparent == self.transparent.unwrap_or(false)
        &&& a.devtools == self.enable_devtools.unwrap_or(true)
        &&& a.incognito == self.incognito.unwrap_or(false)
        &&& a.hotkeys_zoom == self.hotkeys_zoom.unwrap_or(true)
        &&& a.clipboard == self.clipboard.unwrap_or(true)
        &&& a.autoplay == self.autoplay.unwrap_or(true)
        &&& a.back_forward_navigation_gestures == self.back_forward_navigation_gestures.unwrap_or(
            false,
        )
        &&& a.initialization_scripts@ == self.scripts()
        &&& a.resizable
        &&& a.title is None
        &&& a.menubar
        &&& !a.maximized
        &&& !a.minimized
        &&& a.visible
        &&& a.decorations
        &&& !a.always_on_top
        &&& a.focused
        &&& a.icon is None
        &&& a.theme is None
        &&& a.drag_drop
        &&& a.background_color is None
    }

    /// Whether `plan` is the webview these options come to. What is left out
    /// is 800 by 600 at the origin, with developer tools, zooming, clipboard
    /// and autoplay, without private browsing and swiping. It shows the
    /// address where there is one, else the markup where there is some. A
    /// transparent webview is cleared to nothing; any other keeps the
    /// platform's background. The preload script, where there is one, is the
    /// only script that runs before the page's own.
    pub open spec fn comes_to(&self, plan: WebviewPlan) -> bool {
        &&& plan.transparent == self.transparent.unwrap_or(false)
        &&& plan.background_color == (if self.transparent.unwrap_or(false) {
            Some((0u8, 0u8, 0u8, 0u8))
        } else {
            None
        })
        &&& plan.bounds == Rect {
            x: self.x.unwrap_or(0),
            y: self.y.unwrap_or(0),
            width: self.width.unwrap_or(800),
            height: self.height.unwrap_or(600),
        }
        &&& plan.content == (match self.url {
            Some(url) => WebviewContent::Url(url),
            None => match self.html {
                Some(html) => WebviewContent::Html(html),
                None => WebviewContent::Empty,
            },
        })
        &&& plan.devtools == self.enable_devtools.unwrap_or(true)
        &&& plan.hotkeys_zoom == self.hotkeys_zoom.unwrap_or(true)
        &&& plan.incognito == self.incognito.unwrap_or(false)
        &&& plan.autoplay == self.autoplay.unwrap_or(true)
        &&& plan.clipboard == self.clipboard.unwrap_or(true)
        &&& plan.back_forward_navigation_gestures == self.back_forward_navigation_gestures.unwrap_or(
            false,
        )
        &&& plan.initialization_scripts@ == (match self.preload {
            Some(js) => seq![js],
            None => Seq::<String>::empty(),
        })
    }

    /// From options to webview: where a builder has the attributes that the
    /// options configure, the webview it plans is the one the options come
    /// to. So [`WebviewOptions::builder`] followed by
    /// [`WebViewBuilder::build_on_window`] plans what
    /// [`WebviewOptions::comes_to`] describes.
    pub proof fn lemma_options_come_to_plan(self, attributes: WebViewAttributes, plan: WebviewPlan)
        requires
            self.configures(attributes),
            attributes.asks_for(plan),
        ensures
            self.comes_to(plan),
    {
        match self.preload {
            Some(js) => {
                assert(attributes.initialization_scripts@[0].js == js);
                assert(plan.initialization_scripts@ =~= seq![js]);
            },
            None => {
                assert(plan.initialization_scripts@ =~= Seq::<String>::empty());
            },
        }
    }

    /// A webview builder as it is once a fresh one was told each option
    /// given here: always `Ok`, with the attributes that
    /// [`WebviewOptions::configures`] describes and without a handler.
    pub fn builder<H>(self) -> (r: Result<WebViewBuilder<H>, JsError>)
        ensures
            r matches Ok(b) && self.configures(b.attributes) && b.ipc_handler is None
                && b.ipc_handlers@.len() == 0,
    {
        let fresh = match WebViewBuilder::<H>::new() {
            Ok(b) => b,
            Err(e) => {
                return Err(e);
            },
        };
        let mut scripts = fresh.attributes.initialization_scripts;
        assert(scripts@ =~= Seq::<InitializationScript>::empty());
        if let Some(preload) = self.preload {
            scripts.push(InitializationScript { js: preload, once: false });
        }
        assert(scripts@ =~= self.scripts());
        let attributes = WebViewAttributes {
            url: self.url,
            html: self.html,
            width: self.width.unwrap_or(fresh.attributes.width),
            height: self.height.unwrap_or(fresh.attributes.height),
            x: self.x.unwrap_or(fresh.attributes.x),
            y: self.y.unwrap_or(fresh.attributes.y),
            resizable: fresh.attributes.resizable,
            title: fresh.attributes.title,
            menubar: fresh.attributes.menubar,
            maximized: fresh.attributes.maximized,
            minimized: fresh.attributes.minimized,
            visible: fresh.attributes.visible,
            decorations: fresh.attributes.decorations,
            always_on_top: fresh.attributes.always_on_top,
            transparent: self.transparent.unwrap_or(fresh.attributes.transparent),
            focused: fresh.attributes.focused,
            icon: fresh.attributes.icon,
            theme: fresh.attributes.theme,
            user_agent: self.user_agent,
            initialization_scripts: scripts,
            drag_drop: fresh.attributes.drag_drop,
            background_color: fresh.attributes.background_color,
            devtools: self.enable_devtools.unwrap_or(fresh.attributes.devtools),
            incognito: self.incognito.unwrap_or(fresh.attributes.incognito),
            hotkeys_zoom: self.hotkeys_zoom.unwrap_or(fresh.attributes.hotkeys_zoom),
            clipboard: self.clipboard.unwrap_or(fresh.attributes.clipboard),
            autoplay: self.autoplay.unwrap_or(fresh.attributes.autoplay),
            back_forward_navigation_gestures: self.back_forward_navigation_gestures.unwrap_or(
                fresh.attributes.back_forward_navigation_gestures,
            ),
        };
        Ok(
            WebViewBuilder {
                attributes,
                ipc_handler: fresh.ipc_handler,
                ipc_handlers: fresh.ipc_handlers,
            },
        )
    }

    /// Plans the webview these options come to, on `window`, as the
    /// application does for a webview that waited.
    ///
    /// Without a native window this fails with `Window not initialized`.
    /// Else it gives the plan that [`WebviewOptions::comes_to`] describes,
    /// under the label `webview`. Either way `ipc_listeners`, who hear the
    /// page, stay who they are: options bring no handler. The embedding
    /// carries the plan out, reports to [`WebViewBuilder::finish`], and
    /// where that gives a webview tells it through [`Webview::attach`].
    pub fn plan_on<H>(self, window: &Window, ipc_listeners: &mut Vec<H>) -> (r: Result<
        WebviewBuild,
        JsError,
    >)
        ensures
            !window.initialized ==> fails_with(r, "Window not initialized"@),
            window.initialized ==> (r matches Ok(build) && self.comes_to(build.plan)
                && build.label@ == "webview"@),
            final(ipc_listeners)@ == old(ipc_listeners)@,
    {
        let ghost options = self;
        let mut builder = match self.builder::<H>() {
            Ok(b) => b,
            Err(e) => {
                return Err(e);
            },
        };
        let ghost attributes = builder.attributes;
        let r = builder.build_on_window(window, String::from_str("webview"), ipc_listeners);
        proof {
            if window.initialized {
                if r is Ok {
                    options.lemma_options_come_to_plan(attributes, r->Ok_0.plan);
                }
                assert(ipc_listeners@ =~= old(ipc_listeners)@);
            }
        }
        r
    }
}

/// What the event loop is to do with one event of a run.
#[derive(Debug, Clone, Copy, PartialEq, Eq, Structural)]
pub struct RunStep {
    /// What the loop does next.
    pub control: LoopControl,
    /// Whether the windows that wait are to be made now.
    pub process_pending: bool,
    /// What to tell the listener, if anything.
    pub notify: Option<ApplicationEvent>,
}

/// What the event loop is to do with one event of a single pass.
#[derive(Debug, Clone, Copy, PartialEq, Eq, Structural)]
pub struct IterationStep {
    /// Whether the application goes on after this pass.
    pub keep_running: bool,
    /// What the loop does next.
    pub control: LoopControl,
    /// What to tell the listener, if anything.
    pub notify: Option<ApplicationEvent>,
}

/// The application: its event loop, the windows that wait to be made, and
/// whether it was asked to exit.
#[derive(Debug, Clone, PartialEq)]
pub struct Application<N, W> {
    /// Whether the native event loop is still there to be run.
    pub event_loop_available: bool,
    /// The windows asked for since the loop last turned, oldest first.
    pub windows_to_create: Vec<PendingWindow<N, W>>,
    /// Whether [`Application::exit`] was called.
    pub exit_requested: bool,
    /// The size of a window that is asked for without one.
    pub default_size: Dimensions<N>,
}

impl<N, W> Application<N, W> {
    /// What asking for a window comes to: the request joins the end of those
    /// that wait, with `handle` and with `options` or, without any, the
    /// default ones of the application's default size. Nothing else changes.
    pub open spec fn queued(
        before: Self,
        options: Option<BrowserWindowOptions<N>>,
        handle: W,
        after: Self,
    ) -> bool {
        &&& after.windows_to_create@.len() == before.windows_to_create@.len() + 1
        &&& after.windows_to_create@.drop_last() == before.windows_to_create@
        &&& after.windows_to_create@.last().handle == handle
        &&& match options {
            Some(o) => after.windows_to_create@.last().options == o,
            None => after.windows_to_create@.last().options.is_default(before.default_size),
        }
        &&& after.event_loop_available == before.event_loop_available
        &&& after.exit_requested == before.exit_requested
        &&& after.default_size == before.default_size
    }

    /// Whether asking for the windows of `requests`, one after the other,
    /// takes the application from `before` to `after`.
    pub open spec fn queued_all(
        before: Self,
        requests: Seq<(Option<BrowserWindowOptions<N>>, W)>,
        after: Self,
    ) -> bool
        decreases requests.len(),
    {
        if requests.len() == 0 {
            after == before
        } else {
            exists|mid: Self|
                Self::queued_all(before, requests.drop_last(), mid) && #[trigger] Self::queued(
                    mid,
                    requests.last().0,
                    requests.last().1,
                    after,
                )
        }
    }

    /// Windows wait in the order they were asked for: after any number of
    /// requests, those that waited before still come first, and after them
    /// comes one window for each request, with its handle and with its
    /// options or the default ones. That is what
    /// [`Application::process_pending_items`] then hands out.
    pub proof fn lemma_windows_in_order(
        before: Self,
        requests: Seq<(Option<BrowserWindowOptions<N>>, W)>,
        after: Self,
    )
        requires
            Self::queued_all(before, requests, after),
        ensures
            after.windows_to_create@.len() == before.windows_to_create@.len() + requests.len(),
            forall|i: int|
                0 <= i < before.windows_to_create@.len() ==> after.windows_to_create@[i]
                    == before.windows_to_create@[i],
            forall|i: int|
                #![trigger requests[i]]
                0 <= i < requests.len() ==> {
                    let made = after.windows_to_create@[before.windows_to_create@.len() + i];
                    &&& made.handle == requests[i].1
                    &&& match requests[i].0 {
                        Some(o) => made.options == o,
                        None => made.options.is_default(before.default_size),
                    }
                },
            after.event_loop_available == before.event_loop_available,
            after.exit_requested == before.exit_requested,
            after.default_size == before.default_size,
        decreases requests.len(),
    {
        if requests.len() == 0 {
        } else {
            let mid = choose|mid: Self|
                Self::queued_all(before, requests.drop_last(), mid) && #[trigger] Self::queued(
                    mid,
                    requests.last().0,
                    requests.last().1,
                    after,
                );
            Self::lemma_windows_in_order(before, requests.drop_last(), mid);
            let n = before.windows_to_create@.len();
            assert forall|i: int| 0 <= i < mid.windows_to_create@.len() implies
                after.windows_to_create@[i] == mid.windows_to_create@[i] by {
                assert(after.windows_to_create@.drop_last()[i] == after.windows_to_create@[i]);
            }
            assert forall|i: int|
                #![trigger requests[i]]
                0 <= i < requests.len() implies {
                let made = after.windows_to_create@[n + i];
                &&& made.handle == requests[i].1
                &&& match requests[i].0 {
                    Some(o) => made.options == o,
                    None => made.options.is_default(before.default_size),
                }
            } by {
                if i < requests.len() - 1 {
                    assert(requests.drop_last()[i] == requests[i]);
                } else {
                    assert(after.windows_to_create@[n + i] == after.windows_to_create@.last());
                }
            }
        }
    }
}

impl<N: Copy, W> Application<N, W> {
    /// A new application: its loop is there, nothing waits, no exit is asked
    /// for. The options take no part.
    pub fn new(_options: Option<ApplicationOptions>, default_size: Dimensions<N>) -> (app: Self)
        ensures
            app.event_loop_available,
            app.windows_to_create@.len() == 0,
            !app.exit_requested,
            app.default_size == default_size,
    {
        Application {
            event_loop_available: true,
            windows_to_create: Vec::new(),
            exit_requested: false,
            default_size,
        }
    }

    /// Asks for a window, to be made when the event loop next turns: see
    /// [`Application::queued`].
    pub fn create_browser_window(&mut self, options: Option<BrowserWindowOptions<N>>, handle: W)
        ensures
            Self::queued(*old(self), options, handle, *final(self)),
    {
        let options = match options {
            Some(o) => o,
            None => BrowserWindowOptions {
                resizable: Some(true),
                title: Some(String::from_str("Webview")),
                width: Some(self.default_size.width),
                height: Some(self.default_size.height),
                x: None,
                y: None,
                content_protection: None,
                always_on_top: None,
                always_on_bottom: None,
                visible: Some(true),
                decorations: Some(true),
                visible_on_all_workspaces: None,
                maximized: None,
                maximizable: None,
                minimizable: None,
                focused: None,
                transparent: None,
                fullscreen: None,
            },
        };
        let ghost before = self.windows_to_create@;
        self.windows_to_create.push(PendingWindow { options, handle });
        assert(self.windows_to_create@.drop_last() =~= before);
    }

    /// Asks the application to exit: the loop exits at its next event. The
    /// embedding wakes the loop.
    pub fn exit(&mut self)
        ensures
            *final(self) == (Application { exit_requested: true, ..*old(self) }),
    {
        self.exit_requested = true;
    }

    /// Hands out the windows that wait, oldest first, and leaves none
    /// waiting. The embedding makes each from its
    /// [`PendingWindow::options`]' plan and, where that succeeds, tells the
    /// window through [`BrowserWindow::window_created`].
    pub fn process_pending_items(&mut self) -> (pending: Vec<PendingWindow<N, W>>)
        ensures
            pending@ == old(self).windows_to_create@,
            final(self).windows_to_create@.len() == 0,
            final(self).event_loop_available == old(self).event_loop_available,
            final(self).exit_requested == old(self).exit_requested,
            final(self).default_size == old(self).default_size,
    {
        let mut pending: Vec<PendingWindow<N, W>> = Vec::new();
        pending.append(&mut self.windows_to_create);
        pending
    }

    /// The plan of a window that waits, sized by default where it asks for
    /// no size.
    pub fn window_plan(&self, window: &PendingWindow<N, W>) -> (plan: WindowPlan<N, N>)
        ensures
            window.options.asks_for(plan, self.default_size),
    {
        window.options.plan(self.default_size)
    }

    /// Hands the native loop out to be run until it exits: true tells the
    /// embedding to run it, handing each event to [`Application::run_step`];
    /// false that it was handed out before. Afterwards it is gone.
    pub fn run(&mut self) -> (start: bool)
        ensures
            start == old(self).event_loop_available,
            *final(self) == (Application { event_loop_available: false, ..*old(self) }),
    {
        let start = self.event_loop_available;
        self.event_loop_available = false;
        start
    }

    /// What a running loop does with `event`.
    ///
    /// Once an exit was asked for, the loop exits and nothing else happens.
    /// Else the windows that wait are made; a close request is then told to
    /// the listener and ends the loop, and after any other event the loop
    /// sleeps until the next.
    pub open spec fn spec_run_step(exit_requested: bool, event: LoopEvent) -> RunStep {
        if exit_requested {
            RunStep { control: LoopControl::Exit, process_pending: false, notify: None }
        } else if event == LoopEvent::CloseRequested {
            RunStep {
                control: LoopControl::Exit,
                process_pending: true,
                notify: Some(
                    ApplicationEvent { event: WebviewApplicationEvent::WindowCloseRequested },
                ),
            }
        } else {
            RunStep { control: LoopControl::Wait, process_pending: true, notify: None }
        }
    }

    /// Computes [`Application::spec_run_step`] for this application.
    pub fn run_step(&self, event: LoopEvent) -> (step: RunStep)
        ensures
            step == Self::spec_run_step(self.exit_requested, event),
    {
        if self.exit_requested {
            return RunStep { control: LoopControl::Exit, process_pending: false, notify: None };
        }
        match event {
            LoopEvent::CloseRequested => RunStep {
                control: LoopControl::Exit,
                process_pending: true,
                notify: Some(
                    ApplicationEvent { event: WebviewApplicationEvent::WindowCloseRequested },
                ),
            },
            _ => RunStep { control: LoopControl::Wait, process_pending: true, notify: None },
        }
    }

    /// How a single pass begins. Without the native loop no pass is made and
    /// the application goes on; once an exit was asked for no pass is made
    /// and it does not; else the embedding makes the pass with
    /// [`Application::iteration_step`], starting with true, and makes the
    /// windows that wait before it hands an event over.
    pub fn run_iteration(&self) -> (start: Iteration)
        ensures
            start == (if !self.event_loop_available {
                Iteration::Done(true)
            } else if self.exit_requested {
                Iteration::Done(false)
            } else {
                Iteration::Pump { keep_running: true }
            }),
    {
        if !self.event_loop_available {
            Iteration::Done(true)
        } else if self.exit_requested {
            Iteration::Done(false)
        } else {
            Iteration::Pump { keep_running: true }
        }
    }

    /// What a single pass does with `event`, after the windows that wait are
    /// made. A close request is told to the listener, ends the pass and the
    /// application; the end of redrawing ends the pass; after any other
    /// event the pass goes on at once.
    pub open spec fn spec_iteration_step(keep_running: bool, event: LoopEvent) -> IterationStep {
        match event {
            LoopEvent::CloseRequested => IterationStep {
                keep_running: false,
                control: LoopControl::Exit,
                notify: Some(
                    ApplicationEvent { event: WebviewApplicationEvent::WindowCloseRequested },
                ),
            },
            LoopEvent::RedrawEventsCleared => IterationStep {
                keep_running,
                control: LoopControl::Exit,
                notify: None,
            },
            LoopEvent::Other => IterationStep {
                keep_running,
                control: LoopControl::Poll,
                notify: None,
            },
        }
    }

    /// What a pass that started with `keep_running` reports once it was
    /// handed `events`, one after the other.
    pub open spec fn spec_pass(keep_running: bool, events: Seq<LoopEvent>) -> bool
        decreases events.len(),
    {
        if events.len() == 0 {
            keep_running
        } else {
            Self::spec_iteration_step(
                Self::spec_pass(keep_running, events.drop_last()),
                events.last(),
            ).keep_running
        }
    }

    /// A pass reports false exactly where a close request was among its
    /// events.
    pub proof fn lemma_pass_reports_close(events: Seq<LoopEvent>)
        ensures
            Self::spec_pass(true, events) == !events.contains(LoopEvent::CloseRequested),
        decreases events.len(),
    {
        if events.len() > 0 {
            let front = events.drop_last();
            Self::lemma_pass_reports_close(front);
            if events.last() == LoopEvent::CloseRequested {
                assert(events[events.len() - 1] == LoopEvent::CloseRequested);
            } else if front.contains(LoopEvent::CloseRequested) {
                let i = choose|i: int| 0 <= i < front.len() && front[i] == LoopEvent::CloseRequested;
                assert(events[i] == LoopEvent::CloseRequested);
            } else if events.contains(LoopEvent::CloseRequested) {
                let i = choose|i: int|
                    0 <= i < events.len() && events[i] == LoopEvent::CloseRequested;
                assert(front[i] == LoopEvent::CloseRequested);
            }
        }
    }

    /// Computes [`Application::spec_iteration_step`].
    pub fn iteration_step(keep_running: bool, event: LoopEvent) -> (step: IterationStep)
        ensures
            step == Self::spec_iteration_step(keep_running, event),
    {
        match event {
            LoopEvent::CloseRequested => IterationStep {
                keep_running: false,
                control: LoopControl::Exit,
                notify: Some(
                    ApplicationEvent { event: WebviewApplicationEvent::WindowCloseRequested },
                ),
            },
            LoopEvent::RedrawEventsCleared => IterationStep {
                keep_running,
                control: LoopControl::Exit,
                notify: None,
            },
            LoopEvent::Other => IterationStep {
                keep_running,
                control: LoopControl::Poll,
                notify: None,
            },
        }
    }
}

/// Where the pixels of an icon come from.
#[derive(Debug, Clone, PartialEq, Eq)]
pub enum IconSource {
    /// The pixels themselves, four bytes each.
    Bytes(Vec<u8>),
    /// A file that holds them.
    Path(String),
}

/// A window of the application, which may not be made yet.
#[derive(Debug, Clone, PartialEq, Eq)]
pub struct BrowserWindow<V> {
    /// The window, once it is made.
    pub inner: Option<Window>,
    /// The webviews asked for on this window, oldest first.
    pub webviews_to_create: Vec<PendingWebview<V>>,
}

impl<V> BrowserWindow<V> {
    /// A window that is not made yet and has no webview asked for.
    pub fn new() -> (w: Self)
        ensures
            w.inner is None,
            w.webviews_to_create@.len() == 0,
    {
        BrowserWindow { inner: None, webviews_to_create: Vec::new() }
    }

    /// Tells the window that it was made as `window`, and hands out the
    /// webviews asked for so far, oldest first, leaving none. The embedding
    /// makes each as [`WebviewOptions::plan_on`] plans it on this window,
    /// and where that succeeds tells the webview through
    /// [`Webview::attach`].
    pub fn window_created(&mut self, window: Window) -> (pending: Vec<PendingWebview<V>>)
        ensures
            pending@ == old(self).webviews_to_create@,
            final(self).inner == Some(window),
            final(self).webviews_to_create@.len() == 0,
    {
        self.inner = Some(window);
        let mut pending: Vec<PendingWebview<V>> = Vec::new();
        pending.append(&mut self.webviews_to_create);
        pending
    }

    /// The identifier of the window: what the native window calls itself,
    /// `uninitialized` while there is none.
    pub fn id(native: Option<String>) -> (id: String)
        ensures
            id@ == (match native {
                Some(n) => n@,
                None => "uninitialized"@,
            }),
    {
        match native {
            Some(n) => n,
            None => String::from_str("uninitialized"),
        }
    }

    /// Asks for a webview on this window: always `Ok`. The request joins the
    /// end of those asked for, with `options` or, without any, with all
    /// options left out. Requests are handed out when the window is made.
    pub fn create_webview(&mut self, options: Option<WebviewOptions>, handle: V) -> (r: Result<
        (),
        JsError,
    >)
        ensures
            r is Ok,
            final(self).inner == old(self).inner,
            final(self).webviews_to_create@.len() == old(self).webviews_to_create@.len() + 1,
            final(self).webviews_to_create@.drop_last() == old(self).webviews_to_create@,
            final(self).webviews_to_create@.last().handle == handle,
            match options {
                Some(o) => final(self).webviews_to_create@.last().options == o,
                None => final(self).webviews_to_create@.last().options.is_default(),
            },
    {
        let options = match options {
            Some(o) => o,
            None => WebviewOptions {
                url: None,
                html: None,
                width: None,
                height: None,
                x: None,
                y: None,
                enable_devtools: None,
                incognito: None,
                user_agent: None,
                child: None,
                preload: None,
                transparent: None,
                theme: None,
                hotkeys_zoom: None,
                clipboard: None,
                autoplay: None,
                back_forward_navigation_gestures: None,
            },
        };
        let ghost before = self.webviews_to_create@;
        self.webviews_to_create.push(PendingWebview { options, handle });
        assert(self.webviews_to_create@.drop_last() =~= before);
        Ok(())
    }

    /// Whether this is a child window: never.
    pub fn is_child(&self) -> (b: bool)
        ensures
            !b,
    {
        false
    }

    /// Whether the window has the focus: what the native window answered,
    /// false while there is none.
    pub fn is_focused(native: Option<bool>) -> (b: bool)
        ensures
            b == native.unwrap_or(false),
    {
        match native {
            Some(_) => match Window::is_focused(native) {
                Ok(b) => b,
                Err(_) => false,
            },
            None => false,
        }
    }

    /// Whether the window is visible: what the native window answered, true
    /// while there is none.
    pub fn is_visible(native: Option<bool>) -> (b: bool)
        ensures
            b == native.unwrap_or(true),
    {
        match native {
            Some(_) => match Window::is_visible(native) {
                Ok(b) => b,
                Err(_) => false,
            },
            None => true,
        }
    }

    /// Whether the window is decorated: what the native window answered,
    /// true while there is none.
    pub fn is_decorated(native: Option<bool>) -> (b: bool)
        ensures
            b == native.unwrap_or(true),
    {
        match native {
            Some(_) => match Window::is_decorated(native) {
                Ok(b) => b,
                Err(_) => true,
            },
            None => true,
        }
    }

    /// Whether the window can be minimized: always.
    pub fn is_minimizable(&self) -> (b: bool)
        ensures
            b,
    {
        true
    }

    /// Whether the window is maximized: what the native window answered,
    /// false while there is none.
    pub fn is_maximized(native: Option<bool>) -> (b: bool)
        ensures
            b == native.unwrap_or(false),
    {
        match native {
            Some(_) => match Window::is_maximized(native) {
                Ok(b) => b,
                Err(_) => false,
            },
            None => false,
        }
    }

    /// Whether the window is minimized: what the native window answered,
    /// false while there is none.
    pub fn is_minimized(native: Option<bool>) -> (b: bool)
        ensures
            b == native.unwrap_or(false),
    {
        match native {
            Some(_) => match Window::is_minimized(native) {
                Ok(b) => b,
                Err(_) => false,
            },
            None => false,
        }
    }

    /// Whether the window can be resized: what the native window answered,
    /// true while there is none.
    pub fn is_resizable(native: Option<bool>) -> (b: bool)
        ensures
            b == native.unwrap_or(true),
    {
        match native {
            Some(_) => match Window::is_resizable(native) {
                Ok(b) => b,
                Err(_) => true,
            },
            None => true,
        }
    }

    /// The title of the window: what the native window answered, empty while
    /// there is none.
    pub fn title(native: Option<String>) -> (t: String)
        ensures
            t@ == (match native {
                Some(n) => n@,
                None => Seq::<char>::empty(),
            }),
    {
        match Window::title(native) {
            Ok(t) => t,
            Err(_) => String::new(),
        }
    }

    /// The colour scheme the host is told: dark where the native window is
    /// dark, light in every other case.
    pub open spec fn spec_theme(native: Option<Option<TaoTheme>>) -> Theme {
        match native {
            Some(Some(TaoTheme::Dark)) => Theme::Dark,
            _ => Theme::Light,
        }
    }

    /// Computes [`BrowserWindow::spec_theme`]. `native` is `None` while there
    /// is no native window and `Some(None)` where its theme is neither light
    /// nor dark.
    pub fn theme(native: Option<Option<TaoTheme>>) -> (t: Theme)
        ensures
            t == Self::spec_theme(native),
    {
        match native {
            Some(_) => match Window::theme(native) {
                Ok(Some(TaoTheme::Dark)) => Theme::Dark,
                _ => Theme::Light,
            },
            None => Theme::Light,
        }
    }

    /// What comes of asking `command` of this window: what the window makes
    /// of it once it is made, see [`Window::spec_command`]; nothing before.
    pub open spec fn spec_forward(&self, command: WindowCommand) -> Option<WindowCommand> {
        match self.inner {
            Some(window) => window.spec_command(command),
            None => None,
        }
    }

    /// The command to do on the native window for the theme `theme`, if
    /// any: dark for dark, light for anything else. See
    /// [`BrowserWindow::spec_forward`].
    pub fn set_theme(&self, theme: Theme) -> (c: Option<WindowCommand>)
        ensures
            c == self.spec_forward(
                WindowCommand::SetTheme(
                    if theme == Theme::Dark {
                        TaoTheme::Dark
                    } else {
                        TaoTheme::Light
                    },
                ),
            ),
    {
        match &self.inner {
            Some(win) => {
                let t = match theme {
                    Theme::Dark => TaoTheme::Dark,
                    _ => TaoTheme::Light,
                };
                match win.set_theme(t) {
                    Ok(c) => c,
                    Err(_) => None,
                }
            },
            None => None,
        }
    }

    /// Sets the title. Gives the command to do, if any: see
    /// [`BrowserWindow::spec_forward`].
    pub fn set_title(&self, title: String) -> (c: Option<WindowCommand>)
        ensures
            c == self.spec_forward(WindowCommand::SetTitle(title)),
    {
        match &self.inner {
            Some(win) => match win.set_title(title) {
                Ok(c) => c,
                Err(_) => None,
            },
            None => None,
        }
    }

    /// Shows or hides the window. Gives the command to do, if any: see
    /// [`BrowserWindow::spec_forward`].
    pub fn set_visible(&self, visible: bool) -> (c: Option<WindowCommand>)
        ensures
            c == self.spec_forward(WindowCommand::SetVisible(visible)),
    {
        match &self.inner {
            Some(win) => match win.set_visible(visible) {
                Ok(c) => c,
                Err(_) => None,
            },
            None => None,
        }
    }

    /// Maximizes the window or undoes that. Gives the command to do, if any: see
    /// [`BrowserWindow::spec_forward`].
    pub fn set_maximized(&self, value: bool) -> (c: Option<WindowCommand>)
        ensures
            c == self.spec_forward(WindowCommand::SetMaximized(value)),
    {
        match &self.inner {
            Some(win) => match win.set_maximized(value) {
                Ok(c) => c,
                Err(_) => None,
            },
            None => None,
        }
    }

    /// Minimizes the window or undoes that. Gives the command to do, if any: see
    /// [`BrowserWindow::spec_forward`].
    pub fn set_minimized(&self, value: bool) -> (c: Option<WindowCommand>)
        ensures
            c == self.spec_forward(WindowCommand::SetMinimized(value)),
    {
        match &self.inner {
            Some(win) => match win.set_minimized(value) {
                Ok(c) => c,
                Err(_) => None,
            },
            None => None,
        }
    }

    /// Brings the window to the front and gives it the focus. Gives the command to do, if any: see
    /// [`BrowserWindow::spec_forward`].
    pub fn focus(&self) -> (c: Option<WindowCommand>)
        ensures
            c == self.spec_forward(WindowCommand::SetFocus),
    {
        match &self.inner {
            Some(win) => match win.request_focus() {
                Ok(c) => c,
                Err(_) => None,
            },
            None => None,
        }
    }

    /// Sets whether the window stays on top. Gives the command to do, if any: see
    /// [`BrowserWindow::spec_forward`].
    pub fn set_always_on_top(&self, enabled: bool) -> (c: Option<WindowCommand>)
        ensures
            c == self.spec_forward(WindowCommand::SetAlwaysOnTop(enabled)),
    {
        match &self.inner {
            Some(win) => match win.set_always_on_top(enabled) {
                Ok(c) => c,
                Err(_) => None,
            },
            None => None,
        }
    }

    /// Sets whether the window has decorations. Gives the command to do, if any: see
    /// [`BrowserWindow::spec_forward`].
    pub fn set_decorations(&self, enabled: bool) -> (c: Option<WindowCommand>)
        ensures
            c == self.spec_forward(WindowCommand::SetDecorations(enabled)),
    {
        match &self.inner {
            Some(win) => match win.set_decorated(enabled) {
                Ok(c) => c,
                Err(_) => None,
            },
            None => None,
        }
    }

    /// Shows the window. Gives the command to do, if any: see
    /// [`BrowserWindow::spec_forward`].
    pub fn show(&self) -> (c: Option<WindowCommand>)
        ensures
            c == self.spec_forward(WindowCommand::SetVisible(true)),
    {
        self.set_visible(true)
    }

    /// The icon to set on the native window, if any: the pixels given, with
    /// their width and height, where the window is made, has a native
    /// window, and the source holds pixels. A path is not followed.
    pub fn set_window_icon(&self, icon: IconSource, width: u32, height: u32) -> (r: Option<Icon>)
        ensures
            r == (match (self.inner, icon) {
                (Some(window), IconSource::Bytes(rgba)) => window.spec_place(
                    Icon { width, height, rgba },
                ),
                _ => None,
            }),
    {
        match &self.inner {
            Some(window) => match icon {
                IconSource::Bytes(rgba) => if window.initialized {
                    Some(Icon { width, height, rgba })
                } else {
                    None
                },
                IconSource::Path(_) => None,
            },
            None => None,
        }
    }

    /// The fullscreen state of the window: never any.
    pub fn fullscreen(&self) -> (f: Option<FullscreenType>)
        ensures
            f is None,
    {
        None
    }
}

/// The monitor the host is told of for `m`: name, scale, size and position
/// of `m`, and no video modes.
pub open spec fn spec_monitor<N>(m: MonitorInfo<N>, shown: Monitor<N>) -> bool {
    &&& shown.name == m.name
    &&& shown.scale_factor == m.scale_factor
    &&& shown.size == Dimensions { width: m.size.width, height: m.size.height }
    &&& shown.position == m.position
    &&& shown.video_modes@.len() == 0
}

/// Computes a monitor that meets [`spec_monitor`].
pub fn monitor_of<N: Copy>(m: &MonitorInfo<N>) -> (shown: Monitor<N>)
    ensures
        spec_monitor(*m, shown),
{
    let name = match &m.name {
        Some(n) => Some(n.clone()),
        None => None,
    };
    Monitor {
        name,
        scale_factor: m.scale_factor,
        size: Dimensions { width: m.size.width, height: m.size.height },
        position: m.position,
        video_modes: Vec::new(),
    }
}

impl<V> BrowserWindow<V> {
    /// The monitors the host is told of, one for each of `monitors` and in
    /// their order: see [`spec_monitor`].
    pub fn get_available_monitors<N: Copy>(monitors: &Vec<MonitorInfo<N>>) -> (shown: Vec<
        Monitor<N>,
    >)
        ensures
            shown@.len() == monitors@.len(),
            forall|i: int|
                0 <= i < monitors@.len() ==> spec_monitor(monitors@[i], #[trigger] shown@[i]),
    {
        let mut shown: Vec<Monitor<N>> = Vec::new();
        let mut i: usize = 0;
        while i < monitors.len()
            invariant
                i <= monitors@.len(),
                shown@.len() == i,
                forall|j: int| 0 <= j < i ==> spec_monitor(monitors@[j], #[trigger] shown@[j]),
            decreases monitors@.len() - i,
        {
            shown.push(monitor_of(&monitors[i]));
            i = i + 1;
        }
        shown
    }

    /// The primary monitor as the host is told of it: always some, see
    /// [`spec_monitor`].
    pub fn get_primary_monitor<N: Copy>(primary: &MonitorInfo<N>) -> (shown: Option<Monitor<N>>)
        ensures
            shown matches Some(m) && spec_monitor(*primary, m),
    {
        Some(monitor_of(primary))
    }
}

/// Hands out what was asked of a webview before it existed, oldest first,
/// and leaves nothing waiting. The embedding does each on the native webview
/// of `webview`; without one there is nothing to do them on, and nothing is
/// handed out.
pub fn apply_pending_actions(
    webview: &WebView,
    pending_actions: &mut Vec<PendingWebviewAction>,
) -> (actions: Vec<PendingWebviewAction>)
    ensures
        final(pending_actions)@.len() == 0,
        actions@ == (if webview.initialized {
            old(pending_actions)@
        } else {
            Seq::<PendingWebviewAction>::empty()
        }),
{
    let mut actions: Vec<PendingWebviewAction> = Vec::new();
    if webview.initialized {
        actions.append(pending_actions);
    } else {
        pending_actions.clear();
    }
    actions
}

/// Whether opening the developer tools is among `actions`.
pub open spec fn spec_asks_for_devtools(actions: Seq<PendingWebviewAction>) -> bool {
    exists|i: int| 0 <= i < actions.len() && actions[i] is OpenDevtools
}

/// A webview of the application, which may not be made yet.
#[derive(Debug, Clone, PartialEq, Eq)]
pub struct Webview {
    /// The webview, once it is made.
    pub inner: Option<WebView>,
    /// What was asked of the webview and is not done yet, oldest first.
    pub pending_actions: Vec<PendingWebviewAction>,
}

impl Webview {
    /// A webview that is not made yet: nothing waits.
    pub fn new() -> (w: Self)
        ensures
            w.inner is None,
            w.pending_actions@.len() == 0,
    {
        Webview { inner: None, pending_actions: Vec::new() }
    }

    /// Tells the webview that it was made as `webview`, and hands out what
    /// was asked of it so far, as [`apply_pending_actions`] does.
    pub fn attach(&mut self, webview: WebView) -> (actions: Vec<PendingWebviewAction>)
        ensures
            final(self).inner == Some(webview),
            final(self).pending_actions@.len() == 0,
            actions@ == (if webview.initialized {
                old(self).pending_actions@
            } else {
                Seq::<PendingWebviewAction>::empty()
            }),
    {
        let actions = apply_pending_actions(&webview, &mut self.pending_actions);
        self.inner = Some(webview);
        actions
    }

    /// What asking `action` of the webview `before` comes to. Where the
    /// webview is made, `now` is what the webview makes of the action, see
    /// [`WebView::spec_request`], and nothing is kept; else the action joins
    /// the end of what waits and nothing is to be done now. Either way the
    /// webview stays.
    pub open spec fn asked(
        before: Self,
        action: PendingWebviewAction,
        after: Self,
        now: Option<PendingWebviewAction>,
    ) -> bool {
        &&& after.inner == before.inner
        &&& before.inner matches Some(webview) ==> now == webview.spec_request(action)
            && after.pending_actions == before.pending_actions
        &&& before.inner is None ==> now is None && after.pending_actions@
            == before.pending_actions@.push(action)
    }

    /// Whether asking `actions`, one after the other, of the webview `before`
    /// leaves it as `after`.
    pub open spec fn asked_all(
        before: Self,
        actions: Seq<PendingWebviewAction>,
        after: Self,
    ) -> bool
        decreases actions.len(),
    {
        if actions.len() == 0 {
            after == before
        } else {
            exists|mid: Self, now: Option<PendingWebviewAction>|
                Self::asked_all(before, actions.drop_last(), mid) && #[trigger] Self::asked(
                    mid,
                    actions.last(),
                    after,
                    now,
                )
        }
    }

    /// Nothing asked of a webview that is not made is lost or reordered:
    /// after any number of actions it is still not made, and what waits is
    /// what waited before followed by the actions, in the order asked. That
    /// is what [`Webview::attach`] then hands out.
    pub proof fn lemma_deferred_in_order(
        before: Self,
        actions: Seq<PendingWebviewAction>,
        after: Self,
    )
        requires
            before.inner is None,
            Self::asked_all(before, actions, after),
        ensures
            after.inner is None,
            after.pending_actions@ == before.pending_actions@ + actions,
        decreases actions.len(),
    {
        if actions.len() == 0 {
            assert(before.pending_actions@ + actions =~= before.pending_actions@);
        } else {
            let (mid, now) = choose|mid: Self, now: Option<PendingWebviewAction>|
                Self::asked_all(before, actions.drop_last(), mid) && #[trigger] Self::asked(
                    mid,
                    actions.last(),
                    after,
                    now,
                );
            Self::lemma_deferred_in_order(before, actions.drop_last(), mid);
            assert(actions =~= actions.drop_last().push(actions.last()));
            assert(after.pending_actions@ =~= before.pending_actions@ + actions);
        }
    }

    /// A webview that is made keeps nothing: after any number of actions it
    /// is the same webview, and what waits is what waited before.
    pub proof fn lemma_made_keeps_nothing(
        before: Self,
        actions: Seq<PendingWebviewAction>,
        after: Self,
    )
        requires
            before.inner is Some,
            Self::asked_all(before, actions, after),
        ensures
            after.inner == before.inner,
            after.pending_actions@ == before.pending_actions@,
        decreases actions.len(),
    {
        if actions.len() > 0 {
            let (mid, now) = choose|mid: Self, now: Option<PendingWebviewAction>|
                Self::asked_all(before, actions.drop_last(), mid) && #[trigger] Self::asked(
                    mid,
                    actions.last(),
                    after,
                    now,
                );
            Self::lemma_made_keeps_nothing(before, actions.drop_last(), mid);
        }
    }

    /// Does `action` now or later: see [`Webview::asked`].
    fn request(&mut self, action: PendingWebviewAction) -> (now: Option<PendingWebviewAction>)
        ensures
            Self::asked(*old(self), action, *final(self), now),
    {
        match &self.inner {
            Some(webview) => webview.request(action),
            None => {
                self.pending_actions.push(action);
                None
            },
        }
    }

    /// The identifier of the webview: its label once it is made,
    /// `uninitialized` before.
    pub fn id(&self) -> (id: String)
        ensures
            id@ == (match self.inner {
                Some(w) => w.label@,
                None => "uninitialized"@,
            }),
    {
        match &self.inner {
            Some(webview) => match webview.id() {
                Ok(id) => id,
                Err(_) => String::new(),
            },
            None => String::from_str("uninitialized"),
        }
    }

    /// The label of the webview once it is made, `uninitialized` before.
    pub fn label(&self) -> (label: String)
        ensures
            label@ == (match self.inner {
                Some(w) => w.label@,
                None => "uninitialized"@,
            }),
    {
        match &self.inner {
            Some(webview) => match webview.label() {
                Ok(label) => label,
                Err(_) => String::new(),
            },
            None => String::from_str("uninitialized"),
        }
    }

    /// Adds `handler`, if there is one, at the end of `listeners`, who hear
    /// the page in that order.
    pub fn on_ipc_message<H>(listeners: &mut Vec<H>, handler: Option<H>)
        ensures
            final(listeners)@ == (match handler {
                Some(h) => old(listeners)@.push(h),
                None => old(listeners)@,
            }),
    {
        if let Some(h) = handler {
            listeners.push(h);
        }
    }

    /// Adds `handler` at the end of `listeners`, who hear the page in that
    /// order.
    pub fn on<H>(listeners: &mut Vec<H>, handler: H)
        ensures
            final(listeners)@ == old(listeners)@.push(handler),
    {
        listeners.push(handler);
    }

    /// Delivers `message` to the page: always `Ok`. Once the webview is
    /// made, the script that [`WebView::send`] makes of the message comes
    /// back for the embedding to run, where there is a native webview;
    /// before, the message is dropped and nothing comes back.
    pub fn send(&self, message: String) -> (r: Result<Option<PendingWebviewAction>, JsError>)
        ensures
            r matches Ok(now) && (match self.inner {
                Some(webview) => if webview.initialized {
                    now matches Some(PendingWebviewAction::EvaluateScript(script)) && script@
                        == crate::wry::structs::spec_message_script(
                        crate::json::json_string_literal(message@),
                    )
                } else {
                    now is None
                },
                None => now is None,
            }),
    {
        match &self.inner {
            Some(webview) => webview.send(message),
            None => Ok(None),
        }
    }

    /// Loads the page at `url`, now or once the webview is made: always
    /// `Ok`, of the action to do now, if any.
    pub fn load_url(&mut self, url: String) -> (r: Result<Option<PendingWebviewAction>, JsError>)
        ensures
            r matches Ok(now) && Self::asked(*old(self), PendingWebviewAction::LoadUrl(url), *final(self), now),
    {
        Ok(self.request(PendingWebviewAction::LoadUrl(url)))
    }

    /// Loads the markup `html`, now or once the webview is made: always
    /// `Ok`, of the action to do now, if any.
    pub fn load_html(&mut self, html: String) -> (r: Result<Option<PendingWebviewAction>, JsError>)
        ensures
            r matches Ok(now) && Self::asked(*old(self), PendingWebviewAction::LoadHtml(html), *final(self), now),
    {
        Ok(self.request(PendingWebviewAction::LoadHtml(html)))
    }

    /// Runs the script `js`, now or once the webview is made: always `Ok`,
    /// of the action to do now, if any.
    pub fn evaluate_script(&mut self, js: String) -> (r: Result<
        Option<PendingWebviewAction>,
        JsError,
    >)
        ensures
            r matches Ok(now) && Self::asked(*old(self), PendingWebviewAction::EvaluateScript(js), *final(self), now),
    {
        Ok(self.request(PendingWebviewAction::EvaluateScript(js)))
    }

    /// Opens the developer tools, now or once the webview is made: gives the
    /// action to do now, if any.
    pub fn open_devtools(&mut self) -> (now: Option<PendingWebviewAction>)
        ensures
            Self::asked(*old(self), PendingWebviewAction::OpenDevtools, *final(self), now),
    {
        self.request(PendingWebviewAction::OpenDevtools)
    }

    /// Closes the developer tools, now or once the webview is made: gives
    /// the action to do now, if any.
    pub fn close_devtools(&mut self) -> (now: Option<PendingWebviewAction>)
        ensures
            Self::asked(*old(self), PendingWebviewAction::CloseDevtools, *final(self), now),
    {
        self.request(PendingWebviewAction::CloseDevtools)
    }

    /// Whether the developer tools are open. Once the webview is made, that
    /// is what the native webview answered, false where it gave no answer;
    /// before, it is whether opening them is among what waits, whatever was
    /// asked after.
    pub fn is_devtools_open(&self, native: Option<bool>) -> (open: bool)
        ensures
            open == (if self.inner is Some {
                native.unwrap_or(false)
            } else {
                spec_asks_for_devtools(self.pending_actions@)
            }),
    {
        if self.inner.is_some() {
            return match WebView::is_devtools_open(native) {
                Ok(open) => open,
                Err(_) => false,
            };
        }
        let mut i: usize = 0;
        while i < self.pending_actions.len()
            invariant
                self.inner is None,
                i <= self.pending_actions@.len(),
                forall|j: int| 0 <= j < i ==> !(self.pending_actions@[j] is OpenDevtools),
            decreases self.pending_actions@.len() - i,
        {
            if let PendingWebviewAction::OpenDevtools = self.pending_actions[i] {
                assert(self.pending_actions@[i as int] is OpenDevtools);
                return true;
            }
            i = i + 1;
        }
        false
    }

    /// Loads the page again, now or once the webview is made: gives the
    /// action to do now, if any.
    pub fn reload(&mut self) -> (now: Option<PendingWebviewAction>)
        ensures
            Self::asked(*old(self), PendingWebviewAction::Reload, *final(self), now),
    {
        self.request(PendingWebviewAction::Reload)
    }

    /// Prints the page, now or once the webview is made: gives the action to
    /// do now, if any.
    pub fn print(&mut self) -> (now: Option<PendingWebviewAction>)
        ensures
            Self::asked(*old(self), PendingWebviewAction::Print, *final(self), now),
    {
        self.request(PendingWebviewAction::Print)
    }
}

/// The version of the platform's webview as the host is told it: what the
/// platform answered, `unknown` where it gave no answer.
pub fn get_webview_version(native: Option<String>) -> (version: String)
    ensures
        version@ == (match native {
            Some(v) => v@,
            None => "unknown"@,
        }),
{
    match native {
        Some(v) => v,
        None => String::from_str("unknown"),
    }
}

} // verus!
