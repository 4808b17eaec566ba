//! Webviews and their builder.
//!
//! A native webview is never held here. The builder collects what a webview
//! shall be like and hands out the plan that the embedding carries out; the
//! handle records whether the native webview exists. Handlers for messages
//! from the page are of a type `H` that the embedding chooses.

use vstd::prelude::*;
use vstd::string::StringExecFns;
use crate::error::{fails_with, JsError};
use crate::high_level::PendingWebviewAction;
use crate::json::{encode_string, json_string_literal};
use crate::tao::structs::{EventLoop, Window, WindowPlan};
use crate::wry::enums::WryTheme;
use crate::wry::types::Result;

verus! {

/// A script that runs before the page's own scripts.
#[derive(Debug, Clone, PartialEq, Eq)]
pub struct InitializationScript {
    pub js: String,
    pub once: bool,
}

/// What a page asks of a window it wants opened.
#[derive(Debug, Clone, Copy, PartialEq, Eq)]
pub struct NewWindowFeatures {
    pub menubar: bool,
    pub visible: bool,
    pub width: u32,
    pub height: u32,
    pub x: i32,
    pub y: i32,
    pub maximized: bool,
    pub focused: bool,
    pub decorations: bool,
    pub always_on_top: bool,
    pub transparent: bool,
}

/// The webview that asked for a new window.
#[derive(Debug, Clone, PartialEq, Eq)]
pub struct NewWindowOpener {
    pub label: String,
    pub native_id: u32,
}

/// Host and port of a proxy.
#[derive(Debug, Clone, PartialEq, Eq)]
pub struct ProxyEndpoint {
    pub host: String,
    pub port: u16,
}

/// An upright rectangle in logical pixels.
#[derive(Debug, Clone, Copy, PartialEq, Eq, Structural)]
pub struct Rect {
    pub x: i32,
    pub y: i32,
    pub width: u32,
    pub height: u32,
}

/// A request that is answered later.
#[derive(Debug, Clone, PartialEq, Eq)]
pub struct RequestAsyncResponder {
    pub uri: String,
    pub method: String,
    pub body: Vec<u8>,
}

/// What webviews of one application share.
#[derive(Debug, Clone, PartialEq, Eq)]
pub struct WebContext {
    pub data_directory: Option<String>,
}

impl WebContext {
    /// A context that keeps its data under `data_directory`: always `Ok`.
    pub fn new(data_directory: Option<String>) -> (r: Result<Self>)
        ensures
            r == Ok::<WebContext, JsError>(WebContext { data_directory }),
    {
        Ok(WebContext { data_directory })
    }

    /// The directory the context was made with: always `Ok`.
    pub fn data_directory(&self) -> (r: Result<Option<String>>)
        ensures
            r == Ok::<Option<String>, JsError>(self.data_directory),
    {
        match &self.data_directory {
            Some(dir) => Ok(Some(dir.clone())),
            None => Ok(None),
        }
    }
}

/// What a webview builder has collected.
#[derive(Debug, Clone, PartialEq, Eq)]
pub struct WebViewAttributes {
    pub url: Option<String>,
    pub html: Option<String>,
    pub width: u32,
    pub height: u32,
    pub x: i32,
    pub y: i32,
    pub resizable: bool,
    pub title: Option<String>,
    pub menubar: bool,
    pub maximized: bool,
    pub minimized: bool,
    pub visible: bool,
    pub decorations: bool,
    pub always_on_top: bool,
    pub transparent: bool,
    pub focused: bool,
    pub icon: Option<Vec<u8>>,
    pub theme: Option<WryTheme>,
    pub user_agent: Option<String>,
    pub initialization_scripts: Vec<InitializationScript>,
    pub drag_drop: bool,
    pub background_color: Option<Vec<u8>>,
    pub devtools: bool,
    pub incognito: bool,
    pub hotkeys_zoom: bool,
    pub clipboard: bool,
    pub autoplay: bool,
    pub back_forward_navigation_gestures: bool,
}

/// What a new webview shows first.
#[derive(Debug, Clone, PartialEq, Eq)]
pub enum WebviewContent {
    /// The page at this address.
    Url(String),
    /// This markup.
    Html(String),
    /// Nothing.
    Empty,
}

/// Everything the embedding needs to create a native webview.
#[derive(Debug, Clone, PartialEq, Eq)]
pub struct WebviewPlan {
    pub transparent: bool,
    /// Red, green, blue and alpha; `None` keeps the platform's background.
    pub background_color: Option<(u8, u8, u8, u8)>,
    pub bounds: Rect,
    pub content: WebviewContent,
    pub devtools: bool,
    pub hotkeys_zoom: bool,
    /// Applies only where the platform knows of private browsing.
    pub incognito: bool,
    pub autoplay: bool,
    pub clipboard: bool,
    pub back_forward_navigation_gestures: bool,
    /// Scripts to run before the page's own, in this order.
    pub initialization_scripts: Vec<String>,
}

impl WebViewAttributes {
    /// The attributes of a builder nothing was asked of yet.
    pub open spec fn is_default(&self) -> bool {
        &&& self.url is None
        &&& self.html is None
        &&& self.width == 800
        &&& self.height == 600
        &&& self.x == 0
        &&& self.y == 0
        &&& self.resizable
        &&& self.title is None
        &&& self.menubar
        &&& !self.maximized
        &&& !self.minimized
        &&& self.visible
        &&& self.decorations
        &&& !self.always_on_top
        &&& !self.transparent
        &&& self.focused
        &&& self.icon is None
        &&& self.theme is None
        &&& self.user_agent is None
        &&& self.initialization_scripts@.len() == 0
        &&& self.drag_drop
        &&& self.background_color is None
        &&& self.devtools
        &&& !self.incognito
        &&& self.hotkeys_zoom
        &&& self.clipboard
        &&& self.autoplay
        &&& !self.back_forward_navigation_gestures
    }

    /// The background of the webview. A colour of at least four bytes gives
    /// its first four; a shorter one gives none, transparent or not; without
    /// a colour a transparent webview is cleared to nothing and any other
    /// keeps the platform's background.
    pub open spec fn background(&self) -> Option<(u8, u8, u8, u8)> {
        match self.background_color {
            Some(color) => if color@.len() >= 4 {
                Some((color@[0], color@[1], color@[2], color@[3]))
            } else {
                None
            },
            None => if self.transparent {
                Some((0u8, 0u8, 0u8, 0u8))
            } else {
                None
            },
        }
    }

    /// What the webview shows first: the address where there is one, else the
    /// markup where there is some.
    pub open spec fn content(&self) -> WebviewContent {
        match self.url {
            Some(url) => WebviewContent::Url(url),
            None => match self.html {
                Some(html) => WebviewContent::Html(html),
                None => WebviewContent::Empty,
            },
        }
    }

    /// The title of a window made for the webview: `WebView` unless one is set.
    pub open spec fn window_title(&self) -> Seq<char> {
        match self.title {
            Some(title) => title@,
            None => "WebView"@,
        }
    }

    /// Where a window made for the webview goes: at the position of the
    /// attributes unless that is the origin, which leaves it to the platform.
    pub open spec fn window_position(&self) -> Option<(i32, i32)> {
        if self.x != 0 || self.y != 0 {
            Some((self.x, self.y))
        } else {
            None
        }
    }

    /// Whether `plan` is the window these attributes ask for. Whether
    /// transparent or not, the window gets nothing more from its platform for
    /// showing through. Menu bar, minimizing, icon and theme take no part in
    /// it.
    pub open spec fn asks_for_window(&self, plan: WindowPlan<u32, i32>) -> bool {
        &&& plan.title@ == self.window_title()
        &&& plan.width == self.width
        &&& plan.height == self.height
        &&& plan.resizable == self.resizable
        &&& plan.decorations == self.decorations
        &&& plan.always_on_top == self.always_on_top
        &&& plan.visible == self.visible
        &&& plan.transparent == self.transparent
        &&& !plan.platform_transparency
        &&& plan.maximized == self.maximized
        &&& plan.focused == self.focused
        &&& plan.position == self.window_position()
    }

    /// Whether `plan` is the webview these attributes ask for. User agent,
    /// theme and drag and drop take no part in it, nor does `once` of a script.
    pub open spec fn asks_for(&self, plan: WebviewPlan) -> bool {
        &&& plan.transparent == self.transparent
        &&& plan.background_color == self.background()
        &&& plan.bounds == Rect { x: self.x, y: self.y, width: self.width, height: self.height }
        &&& plan.content == self.content()
        &&& plan.devtools == self.devtools
        &&& plan.hotkeys_zoom == self.hotkeys_zoom
        &&& plan.incognito == self.incognito
        &&& plan.autoplay == self.autoplay
        &&& plan.clipboard == self.clipboard
        &&& plan.back_forward_navigation_gestures == self.back_forward_navigation_gestures
        &&& plan.initialization_scripts@.len() == self.initialization_scripts@.len()
        &&& forall|i: int|
            0 <= i < self.initialization_scripts@.len() ==> plan.initialization_scripts@[i]
                == self.initialization_scripts@[i].js
    }
}

/// The handlers that hear the page once a webview is built: those of
/// `base`, then `handler` where there is one, then `additional`.
pub open spec fn spec_listeners<H>(handler: Option<H>, additional: Seq<H>, base: Option<Seq<H>>) -> Seq<H> {
    let start = match base {
        Some(b) => b,
        None => Seq::<H>::empty(),
    };
    let with_handler = match handler {
        Some(h) => start.push(h),
        None => start,
    };
    with_handler + additional
}

/// The view of a list that may be missing.
pub open spec fn spec_view_of<H>(list: Option<Vec<H>>) -> Option<Seq<H>> {
    match list {
        Some(l) => Some(l@),
        None => None,
    }
}

/// Gathers the handlers that hear the page: the list given in
/// `ipc_listeners_override`, or an empty one, gets `builder_ipc_handler` and
/// then `additional_handlers` added at its end. The embedding calls each
/// handler of the result, in order, with every message from the page.
pub fn setup_ipc_handler<H>(
    builder_ipc_handler: Option<H>,
    additional_handlers: Vec<H>,
    ipc_listeners_override: Option<Vec<H>>,
) -> (listeners: Vec<H>)
    ensures
        listeners@ == spec_listeners(
            builder_ipc_handler,
            additional_handlers@,
            spec_view_of(ipc_listeners_override),
        ),
{
    let mut listeners = match ipc_listeners_override {
        Some(l) => l,
        None => Vec::new(),
    };
    if let Some(h) = builder_ipc_handler {
        listeners.push(h);
    }
    let mut additional = additional_handlers;
    listeners.append(&mut additional);
    listeners
}

/// What `build_on_window` hands to the embedding.
#[derive(Debug, Clone, PartialEq, Eq)]
pub struct WebviewBuild {
    /// The webview to create.
    pub plan: WebviewPlan,
    /// The label of the webview.
    pub label: String,
}

/// Collects what a new webview shall be like.
#[derive(Debug, Clone, PartialEq, Eq)]
pub struct WebViewBuilder<H> {
    pub attributes: WebViewAttributes,
    pub ipc_handler: Option<H>,
    pub ipc_handlers: Vec<H>,
}

impl<H> WebViewBuilder<H> {
    /// A builder with the default attributes and no handler: always `Ok`.
    pub fn new() -> (r: Result<Self>)
        ensures
            r matches Ok(b) && b.attributes.is_default() && b.ipc_handler is None
                && b.ipc_handlers@.len() == 0,
    {
        Ok(
            WebViewBuilder {
                attributes: WebViewAttributes {
                    url: None,
                    html: None,
                    width: 800,
                    height: 600,
                    x: 0,
                    y: 0,
                    resizable: true,
                    title: None,
                    menubar: true,
                    maximized: false,
                    minimized: false,
                    visible: true,
                    decorations: true,
                    always_on_top: false,
                    transparent: false,
                    focused: true,
                    icon: None,
                    theme: None,
                    user_agent: None,
                    initialization_scripts: Vec::new(),
                    drag_drop: true,
                    background_color: None,
                    devtools: true,
                    incognito: false,
                    hotkeys_zoom: true,
                    clipboard: true,
                    autoplay: true,
                    back_forward_navigation_gestures: false,
                },
                ipc_handler: None,
                ipc_handlers: Vec::new(),
            },
        )
    }

    /// Sets the address to load.
    pub fn with_url(&mut self, url: String) -> (r: Result<&Self>)
        ensures
            *final(self) == (WebViewBuilder {
                attributes: WebViewAttributes { url: Some(url), ..old(self).attributes },
                ..*old(self)
            }),
            r matches Ok(b) && *b == *final(self),
    {
        self.attributes.url = Some(url);
        Ok(self)
    }

    /// Sets the markup to load.
    pub fn with_html(&mut self, html: String) -> (r: Result<&Self>)
        ensures
            *final(self) == (WebViewBuilder {
                attributes: WebViewAttributes { html: Some(html), ..old(self).attributes },
                ..*old(self)
            }),
            r matches Ok(b) && *b == *final(self),
    {
        self.attributes.html = Some(html);
        Ok(self)
    }

    /// Sets the width.
    pub fn with_width(&mut self, width: u32) -> (r: Result<&Self>)
        ensures
            *final(self) == (WebViewBuilder {
                attributes: WebViewAttributes { width, ..old(self).attributes },
                ..*old(self)
            }),
            r matches Ok(b) && *b == *final(self),
    {
        self.attributes.width = width;
        Ok(self)
    }

    /// Sets the height.
    pub fn with_height(&mut self, height: u32) -> (r: Result<&Self>)
        ensures
            *final(self) == (WebViewBuilder {
                attributes: WebViewAttributes { height, ..old(self).attributes },
                ..*old(self)
            }),
            r matches Ok(b) && *b == *final(self),
    {
        self.attributes.height = height;
        Ok(self)
    }

    /// Sets the horizontal position.
    pub fn with_x(&mut self, x: i32) -> (r: Result<&Self>)
        ensures
            *final(self) == (WebViewBuilder {
                attributes: WebViewAttributes { x, ..old(self).attributes },
                ..*old(self)
            }),
            r matches Ok(b) && *b == *final(self),
    {
        self.attributes.x = x;
        Ok(self)
    }

    /// Sets the vertical position.
    pub fn with_y(&mut self, y: i32) -> (r: Result<&Self>)
        ensures
            *final(self) == (WebViewBuilder {
                attributes: WebViewAttributes { y, ..old(self).attributes },
                ..*old(self)
            }),
            r matches Ok(b) && *b == *final(self),
    {
        self.attributes.y = y;
        Ok(self)
    }

    /// Sets whether the window can be resized.
    pub fn with_resizable(&mut self, resizable: bool) -> (r: Result<&Self>)
        ensures
            *final(self) == (WebViewBuilder {
                attributes: WebViewAttributes { resizable, ..old(self).attributes },
                ..*old(self)
            }),
            r matches Ok(b) && *b == *final(self),
    {
        self.attributes.resizable = resizable;
        Ok(self)
    }

    /// Sets the title.
    pub fn with_title(&mut self, title: String) -> (r: Result<&Self>)
        ensures
            *final(self) == (WebViewBuilder {
                attributes: WebViewAttributes { title: Some(title), ..old(self).attributes },
                ..*old(self)
            }),
            r matches Ok(b) && *b == *final(self),
    {
        self.attributes.title = Some(title);
        Ok(self)
    }

    /// Sets whether there is a menu bar.
    pub fn with_menubar(&mut self, menubar: bool) -> (r: Result<&Self>)
        ensures
            *final(self) == (WebViewBuilder {
                attributes: WebViewAttributes { menubar, ..old(self).attributes },
                ..*old(self)
            }),
            r matches Ok(b) && *b == *final(self),
    {
        self.attributes.menubar = menubar;
        Ok(self)
    }

    /// Sets whether the window starts maximized.
    pub fn with_maximized(&mut self, maximized: bool) -> (r: Result<&Self>)
        ensures
            *final(self) == (WebViewBuilder {
                attributes: WebViewAttributes { maximized, ..old(self).attributes },
                ..*old(self)
            }),
            r matches Ok(b) && *b == *final(self),
    {
        self.attributes.maximized = maximized;
        Ok(self)
    }

    /// Sets whether the window starts minimized.
    pub fn with_minimized(&mut self, minimized: bool) -> (r: Result<&Self>)
        ensures
            *final(self) == (WebViewBuilder {
                attributes: WebViewAttributes { minimized, ..old(self).attributes },
                ..*old(self)
            }),
            r matches Ok(b) && *b == *final(self),
    {
        self.attributes.minimized = minimized;
        Ok(self)
    }

    /// Sets whether the window is visible.
    pub fn with_visible(&mut self, visible: bool) -> (r: Result<&Self>)
        ensures
            *final(self) == (WebViewBuilder {
                attributes: WebViewAttributes { visible, ..old(self).attributes },
                ..*old(self)
            }),
            r matches Ok(b) && *b == *final(self),
    {
        self.attributes.visible = visible;
        Ok(self)
    }

    /// Sets whether the window has decorations.
    pub fn with_decorated(&mut self, decorations: bool) -> (r: Result<&Self>)
        ensures
            *final(self) == (WebViewBuilder {
                attributes: WebViewAttributes { decorations, ..old(self).attributes },
                ..*old(self)
            }),
            r matches Ok(b) && *b == *final(self),
    {
        self.attributes.decorations = decorations;
        Ok(self)
    }

    /// Sets whether the window stays on top.
    pub fn with_always_on_top(&mut self, always_on_top: bool) -> (r: Result<&Self>)
        ensures
            *final(self) == (WebViewBuilder {
                attributes: WebViewAttributes { always_on_top, ..old(self).attributes },
                ..*old(self)
            }),
            r matches Ok(b) && *b == *final(self),
    {
        self.attributes.always_on_top = always_on_top;
        Ok(self)
    }

    /// Sets whether the webview is transparent.
    pub fn with_transparent(&mut self, transparent: bool) -> (r: Result<&Self>)
        ensures
            *final(self) == (WebViewBuilder {
                attributes: WebViewAttributes { transparent, ..old(self).attributes },
                ..*old(self)
            }),
            r matches Ok(b) && *b == *final(self),
    {
        self.attributes.transparent = transparent;
        Ok(self)
    }

    /// Sets whether the window starts with the focus.
    pub fn with_focused(&mut self, focused: bool) -> (r: Result<&Self>)
        ensures
            *final(self) == (WebViewBuilder {
                attributes: WebViewAttributes { focused, ..old(self).attributes },
                ..*old(self)
            }),
            r matches Ok(b) && *b == *final(self),
    {
        self.attributes.focused = focused;
        Ok(self)
    }

    /// Sets the icon.
    pub fn with_icon(&mut self, icon: Vec<u8>) -> (r: Result<&Self>)
        ensures
            *final(self) == (WebViewBuilder {
                attributes: WebViewAttributes { icon: Some(icon), ..old(self).attributes },
                ..*old(self)
            }),
            r matches Ok(b) && *b == *final(self),
    {
        self.attributes.icon = Some(icon);
        Ok(self)
    }

    /// Sets the colour scheme.
    pub fn with_theme(&mut self, theme: WryTheme) -> (r: Result<&Self>)
        ensures
            *final(self) == (WebViewBuilder {
                attributes: WebViewAttributes { theme: Some(theme), ..old(self).attributes },
                ..*old(self)
            }),
            r matches Ok(b) && *b == *final(self),
    {
        self.attributes.theme = Some(theme);
        Ok(self)
    }

    /// Sets the user agent.
    pub fn with_user_agent(&mut self, user_agent: String) -> (r: Result<&Self>)
        ensures
            *final(self) == (WebViewBuilder {
                attributes: WebViewAttributes { user_agent: Some(user_agent), ..old(self).attributes },
                ..*old(self)
            }),
            r matches Ok(b) && *b == *final(self),
    {
        self.attributes.user_agent = Some(user_agent);
        Ok(self)
    }

    /// Sets whether things can be dropped on the webview.
    pub fn with_drag_drop(&mut self, drag_drop: bool) -> (r: Result<&Self>)
        ensures
            *final(self) == (WebViewBuilder {
                attributes: WebViewAttributes { drag_drop, ..old(self).attributes },
                ..*old(self)
            }),
            r matches Ok(b) && *b == *final(self),
    {
        self.attributes.drag_drop = drag_drop;
        Ok(self)
    }

    /// Sets the background colour, as red, green, blue and alpha bytes.
    pub fn with_background_color(&mut self, color: Vec<u8>) -> (r: Result<&Self>)
        ensures
            *final(self) == (WebViewBuilder {
                attributes: WebViewAttributes { background_color: Some(color), ..old(self).attributes },
                ..*old(self)
            }),
            r matches Ok(b) && *b == *final(self),
    {
        self.attributes.background_color = Some(color);
        Ok(self)
    }

    /// Sets whether the developer tools are offered.
    pub fn with_devtools(&mut self, devtools: bool) -> (r: Result<&Self>)
        ensures
            *final(self) == (WebViewBuilder {
                attributes: WebViewAttributes { devtools, ..old(self).attributes },
                ..*old(self)
            }),
            r matches Ok(b) && *b == *final(self),
    {
        self.attributes.devtools = devtools;
        Ok(self)
    }

    /// Sets whether the webview keeps no traces.
    pub fn with_incognito(&mut self, incognito: bool) -> (r: Result<&Self>)
        ensures
            *final(self) == (WebViewBuilder {
                attributes: WebViewAttributes { incognito, ..old(self).attributes },
                ..*old(self)
            }),
            r matches Ok(b) && *b == *final(self),
    {
        self.attributes.incognito = incognito;
        Ok(self)
    }

    /// Sets whether keys and gestures zoom the page.
    pub fn with_hotkeys_zoom(&mut self, hotkeys_zoom: bool) -> (r: Result<&Self>)
        ensures
            *final(self) == (WebViewBuilder {
                attributes: WebViewAttributes { hotkeys_zoom, ..old(self).attributes },
                ..*old(self)
            }),
            r matches Ok(b) && *b == *final(self),
    {
        self.attributes.hotkeys_zoom = hotkeys_zoom;
        Ok(self)
    }

    /// Sets whether the page may use the clipboard.
    pub fn with_clipboard(&mut self, clipboard: bool) -> (r: Result<&Self>)
        ensures
            *final(self) == (WebViewBuilder {
                attributes: WebViewAttributes { clipboard, ..old(self).attributes },
                ..*old(self)
            }),
            r matches Ok(b) && *b == *final(self),
    {
        self.attributes.clipboard = clipboard;
        Ok(self)
    }

    /// Sets whether media may play unasked.
    pub fn with_autoplay(&mut self, autoplay: bool) -> (r: Result<&Self>)
        ensures
            *final(self) == (WebViewBuilder {
                attributes: WebViewAttributes { autoplay, ..old(self).attributes },
                ..*old(self)
            }),
            r matches Ok(b) && *b == *final(self),
    {
        self.attributes.autoplay = autoplay;
        Ok(self)
    }

    /// Sets whether swiping sideways moves through the history.
    pub fn with_back_forward_navigation_gestures(&mut self, back_forward_navigation_gestures: bool) -> (r: Result<&Self>)
        ensures
            *final(self) == (WebViewBuilder {
                attributes: WebViewAttributes { back_forward_navigation_gestures, ..old(self).attributes },
                ..*old(self)
            }),
            r matches Ok(b) && *b == *final(self),
    {
        self.attributes.back_forward_navigation_gestures = back_forward_navigation_gestures;
        Ok(self)
    }

    /// Adds a script to run before the page's own, after those added before.
    pub fn with_initialization_script(&mut self, script: InitializationScript) -> (r: Result<&Self>)
        ensures
            final(self).attributes.initialization_scripts@
                == old(self).attributes.initialization_scripts@.push(script),
            *final(self) == (WebViewBuilder {
                attributes: WebViewAttributes {
                    initialization_scripts: final(self).attributes.initialization_scripts,
                    ..old(self).attributes
                },
                ..*old(self)
            }),
            r matches Ok(b) && *b == *final(self),
    {
        self.attributes.initialization_scripts.push(script);
        Ok(self)
    }

    /// Sets the handler that hears the page first, in place of an earlier one.
    pub fn with_ipc_handler(&mut self, callback: H) -> (r: Result<&Self>)
        ensures
            *final(self) == (WebViewBuilder { ipc_handler: Some(callback), ..*old(self) }),
            r matches Ok(b) && *b == *final(self),
    {
        self.ipc_handler = Some(callback);
        Ok(self)
    }

    /// Adds handlers that hear the page, after those added before.
    pub fn with_ipc_handlers(&mut self, handlers: Vec<H>) -> (r: Result<&Self>)
        ensures
            final(self).ipc_handlers@ == old(self).ipc_handlers@ + handlers@,
            *final(self) == (WebViewBuilder {
                ipc_handlers: final(self).ipc_handlers,
                ..*old(self)
            }),
            r matches Ok(b) && *b == *final(self),
    {
        let mut handlers = handlers;
        self.ipc_handlers.append(&mut handlers);
        Ok(self)
    }

    /// Computes [`WebViewAttributes::background`].
    fn background_of(attributes: &WebViewAttributes) -> (c: Option<(u8, u8, u8, u8)>)
        ensures
            c == attributes.background(),
    {
        match &attributes.background_color {
            Some(color) => {
                if color.len() >= 4 {
                    Some((color[0], color[1], color[2], color[3]))
                } else {
                    None
                }
            },
            None => {
                if attributes.transparent {
                    Some((0, 0, 0, 0))
                } else {
                    None
                }
            },
        }
    }

    /// Computes [`WebViewAttributes::content`].
    fn content_of(attributes: &WebViewAttributes) -> (c: WebviewContent)
        ensures
            c == attributes.content(),
    {
        match &attributes.url {
            Some(url) => WebviewContent::Url(url.clone()),
            None => match &attributes.html {
                Some(html) => WebviewContent::Html(html.clone()),
                None => WebviewContent::Empty,
            },
        }
    }

    /// The plan of the webview that `attributes` ask for.
    fn plan_of(attributes: &WebViewAttributes) -> (plan: WebviewPlan)
        ensures
            attributes.asks_for(plan),
    {
        let mut scripts: Vec<String> = Vec::new();
        let mut i: usize = 0;
        while i < attributes.initialization_scripts.len()
            invariant
                i <= attributes.initialization_scripts@.len(),
                scripts@.len() == i,
                forall|j: int| 0 <= j < i ==> scripts@[j] == attributes.initialization_scripts@[j].js,
            decreases attributes.initialization_scripts@.len() - i,
        {
            scripts.push(attributes.initialization_scripts[i].js.clone());
            i = i + 1;
        }
        WebviewPlan {
            transparent: attributes.transparent,
            background_color: Self::background_of(attributes),
            bounds: Rect {
                x: attributes.x,
                y: attributes.y,
                width: attributes.width,
                height: attributes.height,
            },
            content: Self::content_of(attributes),
            devtools: attributes.devtools,
            hotkeys_zoom: attributes.hotkeys_zoom,
            incognito: attributes.incognito,
            autoplay: attributes.autoplay,
            clipboard: attributes.clipboard,
            back_forward_navigation_gestures: attributes.back_forward_navigation_gestures,
            initialization_scripts: scripts,
        }
    }

    /// Plans the webview on `window`.
    ///
    /// Without a native window this fails with `Window not initialized` and
    /// leaves the builder and `ipc_listeners` as they were. Else it gives
    /// the plan the attributes ask for and the label, and `ipc_listeners`,
    /// who hear the page in that order, get the builder's handler and then
    /// its further handlers added at their end, as by
    /// [`setup_ipc_handler`]. The builder keeps its attributes and gives its
    /// handlers away. The embedding carries the plan out and reports to
    /// [`WebViewBuilder::finish`].
    pub fn build_on_window(
        &mut self,
        window: &Window,
        label: String,
        ipc_listeners: &mut Vec<H>,
    ) -> (r: Result<WebviewBuild>)
        ensures
            !window.initialized ==> fails_with(r, "Window not initialized"@) && *final(self)
                == *old(self) && *final(ipc_listeners) == *old(ipc_listeners),
            window.initialized ==> (r matches Ok(build) && old(self).attributes.asks_for(build.plan)
                && build.label == label),
            window.initialized ==> final(ipc_listeners)@ == spec_listeners(
                old(self).ipc_handler,
                old(self).ipc_handlers@,
                Some(old(ipc_listeners)@),
            ),
            window.initialized ==> final(self).attributes == old(self).attributes
                && final(self).ipc_handler is None && final(self).ipc_handlers@.len() == 0,
    {
        if !window.initialized {
            return Err(JsError::generic("Window not initialized"));
        }
        let plan = Self::plan_of(&self.attributes);
        let handler = self.ipc_handler.take();
        let mut additional: Vec<H> = Vec::new();
        additional.append(&mut self.ipc_handlers);
        let mut current: Vec<H> = Vec::new();
        current.append(ipc_listeners);
        *ipc_listeners = setup_ipc_handler(handler, additional, Some(current));
        Ok(WebviewBuild { plan, label })
    }

    /// Plans a window of its own for the webview, on `event_loop`.
    ///
    /// Without an available loop this fails with
    /// `Event loop already running or consumed`; else it gives the window the
    /// attributes ask for. The builder is left as it was. Once the embedding
    /// has made that window, reporting a failure through
    /// [`crate::tao::structs::WindowBuilder::finish`], the webview is planned
    /// on it by [`WebViewBuilder::build_on_window`].
    pub fn build(&self, event_loop: &EventLoop) -> (r: Result<WindowPlan<u32, i32>>)
        ensures
            event_loop.available ==> (r matches Ok(plan) && self.attributes.asks_for_window(plan)),
            !event_loop.available ==> fails_with(r, "Event loop already running or consumed"@),
    {
        if !event_loop.available {
            return Err(JsError::generic("Event loop already running or consumed"));
        }
        let title = match &self.attributes.title {
            Some(t) => t.clone(),
            None => String::from_str("WebView"),
        };
        let position = if self.attributes.x != 0 || self.attributes.y != 0 {
            Some((self.attributes.x, self.attributes.y))
        } else {
            None
        };
        Ok(
            WindowPlan {
                title,
                width: self.attributes.width,
                height: self.attributes.height,
                resizable: self.attributes.resizable,
                decorations: self.attributes.decorations,
                always_on_top: self.attributes.always_on_top,
                visible: self.attributes.visible,
                transparent: self.attributes.transparent,
                platform_transparency: false,
                maximized: self.attributes.maximized,
                focused: self.attributes.focused,
                position,
            },
        )
    }

    /// What becomes of a plan once carried out: on success the handle of the
    /// webview, with its label; on failure `Failed to create webview: `
    /// followed by the native complaint.
    pub fn finish(native: core::result::Result<(), String>, label: String) -> (r: Result<WebView>)
        ensures
            match native {
                Ok(_) => r == Ok::<WebView, JsError>(WebView { initialized: true, label }),
                Err(complaint) => fails_with(r, "Failed to create webview: "@ + complaint@),
            },
    {
        match native {
            Ok(_) => Ok(WebView { initialized: true, label }),
            Err(complaint) => Err(
                JsError::with_detail("Failed to create webview: ", complaint.as_str()),
            ),
        }
    }
}

/// Stands for a native webview, which may not exist.
#[derive(Debug, Clone, PartialEq, Eq)]
pub struct WebView {
    /// Whether the native webview exists.
    pub initialized: bool,
    /// The label the webview was built with.
    pub label: String,
}

/// The script that hands `encoded`, a JSON value, to the page's message hook
/// if the page has one.
pub open spec fn spec_message_script(encoded: Seq<char>) -> Seq<char> {
    "if (window.__webview_on_message__) window.__webview_on_message__("@ + encoded + ")"@
}

impl WebView {
    /// The identifier of the webview, which is its label: always `Ok`.
    pub fn id(&self) -> (r: Result<String>)
        ensures
            r == Ok::<String, JsError>(self.label),
    {
        Ok(self.label.clone())
    }

    /// The label of the webview: always `Ok`.
    pub fn label(&self) -> (r: Result<String>)
        ensures
            r == Ok::<String, JsError>(self.label),
    {
        Ok(self.label.clone())
    }

    /// What comes of asking `action` of this webview: the action itself, for
    /// the embedding to do on the native webview, where there is one;
    /// nothing without.
    pub open spec fn spec_request(&self, action: PendingWebviewAction) -> Option<
        PendingWebviewAction,
    > {
        if self.initialized {
            Some(action)
        } else {
            None
        }
    }

    /// Computes [`WebView::spec_request`].
    pub fn request(&self, action: PendingWebviewAction) -> (now: Option<PendingWebviewAction>)
        ensures
            now == self.spec_request(action),
    {
        if self.initialized {
            Some(action)
        } else {
            None
        }
    }

    /// Runs the script `js`. Always `Ok`, of the action to do: see [`WebView::spec_request`].
    pub fn evaluate_script(&self, js: String) -> (r: Result<Option<PendingWebviewAction>>)
        ensures
            r == Ok::<Option<PendingWebviewAction>, JsError>(
                self.spec_request(PendingWebviewAction::EvaluateScript(js)),
            ),
    {
        Ok(self.request(PendingWebviewAction::EvaluateScript(js)))
    }

    /// Opens the developer tools. Always `Ok`, of the action to do: see [`WebView::spec_request`].
    pub fn open_devtools(&self) -> (r: Result<Option<PendingWebviewAction>>)
        ensures
            r == Ok::<Option<PendingWebviewAction>, JsError>(
                self.spec_request(PendingWebviewAction::OpenDevtools),
            ),
    {
        Ok(self.request(PendingWebviewAction::OpenDevtools))
    }

    /// Closes the developer tools. Always `Ok`, of the action to do: see [`WebView::spec_request`].
    pub fn close_devtools(&self) -> (r: Result<Option<PendingWebviewAction>>)
        ensures
            r == Ok::<Option<PendingWebviewAction>, JsError>(
                self.spec_request(PendingWebviewAction::CloseDevtools),
            ),
    {
        Ok(self.request(PendingWebviewAction::CloseDevtools))
    }

    /// Loads the page again. Always `Ok`, of the action to do: see [`WebView::spec_request`].
    pub fn reload(&self) -> (r: Result<Option<PendingWebviewAction>>)
        ensures
            r == Ok::<Option<PendingWebviewAction>, JsError>(
                self.spec_request(PendingWebviewAction::Reload),
            ),
    {
        Ok(self.request(PendingWebviewAction::Reload))
    }

    /// Prints the page. Always `Ok`, of the action to do: see [`WebView::spec_request`].
    pub fn print(&self) -> (r: Result<Option<PendingWebviewAction>>)
        ensures
            r == Ok::<Option<PendingWebviewAction>, JsError>(
                self.spec_request(PendingWebviewAction::Print),
            ),
    {
        Ok(self.request(PendingWebviewAction::Print))
    }

    /// Loads the page at `url`. Always `Ok`, of the action to do: see [`WebView::spec_request`].
    pub fn load_url(&self, url: String) -> (r: Result<Option<PendingWebviewAction>>)
        ensures
            r == Ok::<Option<PendingWebviewAction>, JsError>(
                self.spec_request(PendingWebviewAction::LoadUrl(url)),
            ),
    {
        Ok(self.request(PendingWebviewAction::LoadUrl(url)))
    }

    /// Loads the markup `html`. Always `Ok`, of the action to do: see [`WebView::spec_request`].
    pub fn load_html(&self, html: String) -> (r: Result<Option<PendingWebviewAction>>)
        ensures
            r == Ok::<Option<PendingWebviewAction>, JsError>(
                self.spec_request(PendingWebviewAction::LoadHtml(html)),
            ),
    {
        Ok(self.request(PendingWebviewAction::LoadHtml(html)))
    }

    /// Whether the developer tools are open: what the native webview
    /// answered, false without one.
    pub fn is_devtools_open(native: Option<bool>) -> (r: Result<bool>)
        ensures
            r == Ok::<bool, JsError>(native.unwrap_or(false)),
    {
        Ok(native.unwrap_or(false))
    }

    /// Computes [`spec_message_script`].
    pub fn message_script(encoded: &str) -> (script: String)
        ensures
            script@ == spec_message_script(encoded@),
    {
        let script = String::from_str(
            "if (window.__webview_on_message__) window.__webview_on_message__(",
        );
        script.concat(encoded).concat(")")
    }

    /// Adds `callback` at the end of `ipc_listeners`, who hear the page in
    /// that order: always `Ok`.
    pub fn on<H>(ipc_listeners: &mut Vec<H>, callback: H) -> (r: Result<()>)
        ensures
            r is Ok,
            final(ipc_listeners)@ == old(ipc_listeners)@.push(callback),
    {
        ipc_listeners.push(callback);
        Ok(())
    }

    /// Delivers `message` to the page: always `Ok`. The message is written
    /// as a JSON string literal, and the script around that literal is run
    /// as [`WebView::evaluate_script`] runs one: it comes back for the
    /// embedding to run on the native webview where there is one, and is
    /// dropped without.
    pub fn send(&self, message: String) -> (r: Result<Option<PendingWebviewAction>>)
        ensures
            r matches Ok(now) && (if self.initialized {
                now matches Some(PendingWebviewAction::EvaluateScript(script)) && script@
                    == spec_message_script(json_string_literal(message@))
            } else {
                now is None
            }),
    {
        match encode_string(message.as_str()) {
            Ok(encoded) => {
                let js = Self::message_script(encoded.as_str());
                self.evaluate_script(js)
            },
            Err(complaint) => Err(
                JsError::with_detail("Failed to serialize message: ", complaint.as_str()),
            ),
        }
    }
}

} // verus!
