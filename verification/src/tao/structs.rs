//! Windows, event loops and their builders.
//!
//! Lengths and coordinates that the bindings only carry along are of a type
//! `N` that the embedding chooses. A native window or event loop is never held
//! here: a handle records whether its native counterpart exists, a getter
//! takes what the native side answered, and a builder hands out the plan that
//! the embedding carries out.

use vstd::prelude::*;
use vstd::string::StringExecFns;
use crate::error::{fails_with, JsError};
use crate::tao::enums::{CursorIcon, ModifiersState, MouseButton, MouseButtonState, TaoTheme, WindowEvent};
use crate::tao::types::Result;

verus! {

/// What is known of a monitor.
#[derive(Debug, Clone, PartialEq)]
pub struct MonitorInfo<N> {
    pub name: Option<String>,
    pub size: Size<N>,
    pub position: Position<N>,
    pub scale_factor: N,
}

/// A point in the plane.
#[derive(Debug, Clone, Copy, PartialEq)]
pub struct Position<N> {
    pub x: N,
    pub y: N,
}

/// Width and height.
#[derive(Debug, Clone, Copy, PartialEq)]
pub struct Size<N> {
    pub width: N,
    pub height: N,
}

/// An upright rectangle.
#[derive(Debug, Clone, Copy, PartialEq)]
pub struct Rectangle<N> {
    pub origin: Position<N>,
    pub size: Size<N>,
}

/// What a caller asks of a new window.
#[derive(Debug, Clone, PartialEq)]
pub struct WindowOptions<N> {
    pub title: String,
    pub width: u32,
    pub height: u32,
    pub x: Option<N>,
    pub y: Option<N>,
    pub resizable: bool,
    pub decorations: bool,
    pub always_on_top: bool,
    pub visible: bool,
    pub transparent: bool,
    pub maximized: bool,
    pub focused: bool,
    pub menubar: bool,
    pub icon: Option<Vec<u8>>,
    pub theme: Option<TaoTheme>,
}

/// Bounds on the size of a window.
#[derive(Debug, Clone, Copy, PartialEq, Eq)]
pub struct WindowSizeConstraints {
    pub min_width: Option<u32>,
    pub min_height: Option<u32>,
    pub max_width: Option<u32>,
    pub max_height: Option<u32>,
}

/// Where the cursor is.
#[derive(Debug, Clone, Copy, PartialEq)]
pub struct CursorPosition<N> {
    pub x: N,
    pub y: N,
}

/// A mouse button going down or coming up.
#[derive(Debug, Clone, Copy, PartialEq)]
pub struct MouseEvent<N> {
    pub button: MouseButton,
    pub state: MouseButtonState,
    pub position: Position<N>,
    pub click_count: u16,
    pub modifiers: ModifiersState,
}

/// A key going down or coming up.
#[derive(Debug, Clone, PartialEq, Eq)]
pub struct KeyboardEvent {
    pub key: String,
    pub code: String,
    pub state: MouseButtonState,
    pub modifiers: ModifiersState,
}

/// A key event before any layout is applied.
#[derive(Debug, Clone, Copy, PartialEq, Eq)]
pub struct RawKeyEvent {
    pub key_code: u32,
    pub state: MouseButtonState,
    pub modifiers: ModifiersState,
}

/// A finger on a touch surface.
#[derive(Debug, Clone, Copy, PartialEq)]
pub struct Touch<N> {
    pub id: u32,
    pub position: Position<N>,
    pub force: Option<N>,
    pub device_id: u32,
}

/// A gesture on a touch surface.
#[derive(Debug, Clone, PartialEq)]
pub struct GestureEvent<N> {
    pub gesture_type: String,
    pub position: Position<N>,
    pub amount: N,
}

/// A window event together with the window it belongs to.
#[derive(Debug, Clone, Copy, PartialEq, Eq)]
pub struct WindowEventData {
    pub event: WindowEvent,
    pub window_id: u32,
}

/// Scale of a high resolution screen.
#[derive(Debug, Clone, Copy, PartialEq)]
pub struct HiDpiScaling<N> {
    pub scale_factor: N,
    pub position_in_pixels: Position<N>,
}

/// The colour scheme a window changed to.
#[derive(Debug, Clone, Copy, PartialEq, Eq)]
pub struct ThemeChangeDetails {
    pub new_theme: TaoTheme,
}

/// The cursor shape a window changed to.
#[derive(Debug, Clone, Copy, PartialEq, Eq)]
pub struct CursorChangeDetails {
    pub new_cursor: CursorIcon,
}

/// The scale factor a window changed to.
#[derive(Debug, Clone, Copy, PartialEq)]
pub struct ScaleFactorChangeDetails<N> {
    pub scale_factor: N,
    pub new_inner_size: Size<N>,
}

/// The size a window changed to.
#[derive(Debug, Clone, Copy, PartialEq, Eq)]
pub struct ResizeDetails {
    pub width: u32,
    pub height: u32,
}

/// Names the window to drag.
#[derive(Debug, Clone, Copy, PartialEq, Eq)]
pub struct WindowDragOptions {
    pub window_id: u32,
}

/// Names the window to bring forward, and how.
#[derive(Debug, Clone, PartialEq)]
pub struct WindowJumpOptions<N> {
    pub window_id: u32,
    pub options: Option<WindowOptions<N>>,
}

/// An operation the platform does not offer.
#[derive(Debug, Clone, PartialEq, Eq)]
pub struct NotSupportedError {
    pub message: String,
}

/// A failure of the operating system.
#[derive(Debug, Clone, PartialEq, Eq)]
pub struct OsError {
    pub code: i32,
    pub message: String,
}

/// A display mode of a monitor.
#[derive(Debug, Clone, Copy, PartialEq)]
pub struct VideoMode<N> {
    pub size: Size<N>,
    pub bit_depth: u16,
    pub refresh_rate: u32,
}

/// What a window builder has collected.
#[derive(Debug, Clone, PartialEq)]
pub struct WindowAttributes<N> {
    pub title: String,
    pub width: u32,
    pub height: u32,
    pub x: Option<N>,
    pub y: Option<N>,
    pub resizable: bool,
    pub decorated: bool,
    pub always_on_top: bool,
    pub visible: bool,
    pub transparent: bool,
    pub maximized: bool,
    pub focused: bool,
    pub menubar: bool,
    pub icon: Option<Vec<u8>>,
    pub theme: Option<TaoTheme>,
}

/// Progress shown on a window.
#[derive(Debug, Clone, PartialEq, Eq)]
pub struct TaoProgressBar {
    pub state: String,
    pub progress: u32,
}

/// Pixels of an icon, four bytes each.
#[derive(Debug, Clone, PartialEq, Eq)]
pub struct Icon {
    pub width: u32,
    pub height: u32,
    pub rgba: Vec<u8>,
}

/// An event of the native loop, as far as the bindings tell events apart.
#[derive(Debug, Clone, Copy, PartialEq, Eq, Structural)]
pub enum LoopEvent {
    /// The user asked to close a window.
    CloseRequested,
    /// All redraws of this turn of the loop are done.
    RedrawEventsCleared,
    /// Anything else.
    Other,
}

/// What the native loop is told to do once an event is handled.
#[derive(Debug, Clone, Copy, PartialEq, Eq, Structural)]
pub enum LoopControl {
    /// Go on at once.
    Poll,
    /// Sleep until the next event.
    Wait,
    /// Sleep until the next event, at most this many milliseconds from now.
    WaitUntil { millis: u64 },
    /// Leave the loop.
    Exit,
    /// Leave the loop and report this code.
    ExitWithCode(i32),
}

/// How a single pass over the events that wait begins.
#[derive(Debug, Clone, Copy, PartialEq, Eq, Structural)]
pub enum Iteration {
    /// No pass is made; the value is what the pass reports.
    Done(bool),
    /// The embedding makes the pass. It starts with this `keep_running`,
    /// hands each event to the step function of whoever began the pass,
    /// goes on with the `keep_running` that comes back, and reports the one
    /// it ends with.
    Pump { keep_running: bool },
}

/// Something to do on a native window.
#[derive(Debug, Clone, PartialEq, Eq)]
pub enum WindowCommand {
    SetTitle(String),
    SetVisible(bool),
    SetResizable(bool),
    SetDecorations(bool),
    SetMaximized(bool),
    SetMinimized(bool),
    SetAlwaysOnTop(bool),
    SetFocus,
    SetCursorIcon(CursorIcon),
    SetTheme(TaoTheme),
    SetIgnoreCursorEvents(bool),
    RequestRedraw,
}

/// Where a new window goes: with both coordinates given, there; else wherever
/// the platform puts it.
pub open spec fn spec_position<P>(x: Option<P>, y: Option<P>) -> Option<(P, P)> {
    match (x, y) {
        (Some(px), Some(py)) => Some((px, py)),
        _ => None,
    }
}

/// Computes [`spec_position`].
pub fn position_of<P: Copy>(x: Option<P>, y: Option<P>) -> (p: Option<(P, P)>)
    ensures
        p == spec_position(x, y),
{
    match x {
        Some(px) => match y {
            Some(py) => Some((px, py)),
            None => None,
        },
        None => None,
    }
}

/// Everything the embedding needs to create a native window. `L` measures
/// the inner size, `P` the position.
#[derive(Debug, Clone, PartialEq)]
pub struct WindowPlan<L, P> {
    pub title: String,
    pub width: L,
    pub height: L,
    pub resizable: bool,
    pub decorations: bool,
    pub always_on_top: bool,
    pub visible: bool,
    pub transparent: bool,
    /// Whether the window also gets what its platform needs for showing
    /// through: a visual with an alpha channel, a transparent title bar
    /// over the whole content, or no shadow.
    pub platform_transparency: bool,
    pub maximized: bool,
    pub focused: bool,
    /// `None` leaves the position to the platform.
    pub position: Option<(P, P)>,
}

impl<N> WindowAttributes<N> {
    /// The attributes of a builder nothing was asked of yet.
    pub open spec fn is_default(&self) -> bool {
        &&& self.title@ == "Window"@
        &&& self.width == 800
        &&& self.height == 600
        &&& self.x is None
        &&& self.y is None
        &&& self.resizable
        &&& self.decorated
        &&& !self.always_on_top
        &&& self.visible
        &&& !self.transparent
        &&& !self.maximized
        &&& self.focused
        &&& self.menubar
        &&& self.icon is None
        &&& self.theme is None
    }

    /// The plan these attributes stand for. A transparent window gets what
    /// its platform needs for showing through. Menu bar, icon and theme take
    /// no part in it.
    pub open spec fn plan(&self) -> WindowPlan<u32, N> {
        WindowPlan {
            title: self.title,
            width: self.width,
            height: self.height,
            resizable: self.resizable,
            decorations: self.decorated,
            always_on_top: self.always_on_top,
            visible: self.visible,
            transparent: self.transparent,
            platform_transparency: self.transparent,
            maximized: self.maximized,
            focused: self.focused,
            position: spec_position(self.x, self.y),
        }
    }
}

/// Stands for a native event loop, which can be handed out once.
#[derive(Debug, Clone, Copy, PartialEq, Eq)]
pub struct EventLoop {
    /// Whether the native loop is still there to be run or to build on.
    pub available: bool,
}

impl EventLoop {
    /// A fresh event loop: always `Ok`, and available.
    pub fn new() -> (r: Result<EventLoop>)
        ensures
            r == Ok::<EventLoop, JsError>(EventLoop { available: true }),
    {
        Ok(EventLoop { available: true })
    }

    /// Hands the native loop out to be run until it exits. `Ok(true)` tells
    /// the embedding to run it, feeding each event to [`EventLoop::run_step`];
    /// `Ok(false)` that it was handed out before. Afterwards it is gone.
    pub fn run(&mut self) -> (r: Result<bool>)
        ensures
            r == Ok::<bool, JsError>(old(self).available),
            !final(self).available,
    {
        let had = self.available;
        self.available = false;
        Ok(had)
    }

    /// What a running loop does after `event`: it exits on a close request
    /// and sleeps until the next event otherwise.
    pub open spec fn spec_run_step(event: LoopEvent) -> LoopControl {
        if event == LoopEvent::CloseRequested {
            LoopControl::Exit
        } else {
            LoopControl::Wait
        }
    }

    /// Computes [`EventLoop::spec_run_step`].
    pub fn run_step(event: LoopEvent) -> (c: LoopControl)
        ensures
            c == Self::spec_run_step(event),
    {
        match event {
            LoopEvent::CloseRequested => LoopControl::Exit,
            _ => LoopControl::Wait,
        }
    }

    /// How a single pass over the events that wait begins: always `Ok`.
    /// Without the native loop no pass is made, and what is reported is
    /// true. Else the embedding makes the pass with
    /// [`EventLoop::iteration_step`], starting with true. The loop stays as
    /// it is, to be passed over again.
    pub fn run_iteration(&self) -> (r: Result<Iteration>)
        ensures
            r == Ok::<Iteration, JsError>(
                if self.available {
                    Iteration::Pump { keep_running: true }
                } else {
                    Iteration::Done(true)
                },
            ),
    {
        if self.available {
            Ok(Iteration::Pump { keep_running: true })
        } else {
            Ok(Iteration::Done(true))
        }
    }

    /// One event of a single pass. A close request ends the pass and clears
    /// `keep_running`; the end of redrawing ends the pass; any other event
    /// lets it go on at once.
    pub open spec fn spec_iteration_step(keep_running: bool, event: LoopEvent) -> (
        bool,
        LoopControl,
    ) {
        match event {
            LoopEvent::CloseRequested => (false, LoopControl::Exit),
            LoopEvent::RedrawEventsCleared => (keep_running, LoopControl::Exit),
            LoopEvent::Other => (keep_running, LoopControl::Poll),
        }
    }

    /// Computes [`EventLoop::spec_iteration_step`].
    pub fn iteration_step(keep_running: bool, event: LoopEvent) -> (r: (bool, LoopControl))
        ensures
            r == Self::spec_iteration_step(keep_running, event),
    {
        match event {
            LoopEvent::CloseRequested => (false, LoopControl::Exit),
            LoopEvent::RedrawEventsCleared => (keep_running, LoopControl::Exit),
            LoopEvent::Other => (keep_running, LoopControl::Poll),
        }
    }

    /// What a pass that started with `keep_running` reports once it was
    /// handed `events`, one after the other.
    pub open spec fn spec_pass(keep_running: bool, events: Seq<LoopEvent>) -> bool
        decreases events.len(),
    {
        if events.len() == 0 {
            keep_running
        } else {
            Self::spec_iteration_step(
                Self::spec_pass(keep_running, events.drop_last()),
                events.last(),
            ).0
        }
    }

    /// A pass reports false exactly where a close request was among its
    /// events.
    pub proof fn lemma_pass_reports_close(events: Seq<LoopEvent>)
        ensures
            Self::spec_pass(true, events) == !events.contains(LoopEvent::CloseRequested),
        decreases events.len(),
    {
        if events.len() > 0 {
            let front = events.drop_last();
            Self::lemma_pass_reports_close(front);
            if events.last() == LoopEvent::CloseRequested {
                assert(events[events.len() - 1] == LoopEvent::CloseRequested);
            } else if front.contains(LoopEvent::CloseRequested) {
                let i = choose|i: int| 0 <= i < front.len() && front[i] == LoopEvent::CloseRequested;
                assert(events[i] == LoopEvent::CloseRequested);
            } else if events.contains(LoopEvent::CloseRequested) {
                let i = choose|i: int|
                    0 <= i < events.len() && events[i] == LoopEvent::CloseRequested;
                assert(front[i] == LoopEvent::CloseRequested);
            }
        }
    }

    /// A proxy for this loop: always `Ok`, and connected.
    pub fn create_proxy(&self) -> (r: Result<EventLoopProxy>)
        ensures
            r == Ok::<EventLoopProxy, JsError>(EventLoopProxy { connected: true }),
    {
        Ok(EventLoopProxy { connected: true })
    }
}

/// Builds an event loop, once.
#[derive(Debug, Clone, Copy, PartialEq, Eq)]
pub struct EventLoopBuilder {
    /// Whether the builder has not been used yet.
    pub available: bool,
}

impl EventLoopBuilder {
    /// A fresh builder: always `Ok`, and unused.
    pub fn new() -> (r: Result<EventLoopBuilder>)
        ensures
            r == Ok::<EventLoopBuilder, JsError>(EventLoopBuilder { available: true }),
    {
        Ok(EventLoopBuilder { available: true })
    }

    /// Uses the builder up. The first call gives an available event loop;
    /// every later one fails with `EventLoopBuilder already consumed`.
    pub fn build(&mut self) -> (r: Result<EventLoop>)
        ensures
            !final(self).available,
            old(self).available ==> r == Ok::<EventLoop, JsError>(EventLoop { available: true }),
            !old(self).available ==> fails_with(r, "EventLoopBuilder already consumed"@),
    {
        if self.available {
            self.available = false;
            Ok(EventLoop { available: true })
        } else {
            Err(JsError::generic("EventLoopBuilder already consumed"))
        }
    }
}

/// Wakes an event loop from elsewhere.
#[derive(Debug, Clone, Copy, PartialEq, Eq)]
pub struct EventLoopProxy {
    /// Whether there is a loop to wake.
    pub connected: bool,
}

impl EventLoopProxy {
    /// Whether a wake-up is to be sent: `Ok(true)` while connected. Sending
    /// never fails, whatever becomes of the wake-up.
    pub fn send_event(&self) -> (r: Result<bool>)
        ensures
            r == Ok::<bool, JsError>(self.connected),
    {
        Ok(self.connected)
    }

    /// The same as [`EventLoopProxy::send_event`].
    pub fn wake_up(&self) -> (r: Result<bool>)
        ensures
            r == Ok::<bool, JsError>(self.connected),
    {
        Ok(self.connected)
    }
}

/// Stands for a native window, which may not exist yet.
#[derive(Debug, Clone, Copy, PartialEq, Eq)]
pub struct Window {
    /// Whether the native window exists.
    pub initialized: bool,
}

impl Window {
    /// A window without a native counterpart: always `Ok`.
    pub fn new() -> (r: Result<Window>)
        ensures
            r == Ok::<Window, JsError>(Window { initialized: false }),
    {
        Ok(Window { initialized: false })
    }

    /// What comes of asking `command` of this window: the command itself,
    /// for the embedding to do on the native window, where there is one;
    /// nothing without.
    pub open spec fn spec_command(&self, command: WindowCommand) -> Option<WindowCommand> {
        if self.initialized {
            Some(command)
        } else {
            None
        }
    }

    /// Computes [`Window::spec_command`].
    fn command(&self, command: WindowCommand) -> (c: Option<WindowCommand>)
        ensures
            c == self.spec_command(command),
    {
        if self.initialized {
            Some(command)
        } else {
            None
        }
    }

    /// What comes of asking a window for `value`: the value itself, for the
    /// embedding to set on the native window, where there is one; nothing
    /// without.
    pub open spec fn spec_place<T>(&self, value: T) -> Option<T> {
        if self.initialized {
            Some(value)
        } else {
            None
        }
    }

    /// Sets the title. Always `Ok`, of the command to do: see [`Window::spec_command`].
    pub fn set_title(&self, title: String) -> (r: Result<Option<WindowCommand>>)
        ensures
            r == Ok::<Option<WindowCommand>, JsError>(
                self.spec_command(WindowCommand::SetTitle(title)),
            ),
    {
        Ok(self.command(WindowCommand::SetTitle(title)))
    }

    /// Shows or hides the window. Always `Ok`, of the command to do: see [`Window::spec_command`].
    pub fn set_visible(&self, visible: bool) -> (r: Result<Option<WindowCommand>>)
        ensures
            r == Ok::<Option<WindowCommand>, JsError>(
                self.spec_command(WindowCommand::SetVisible(visible)),
            ),
    {
        Ok(self.command(WindowCommand::SetVisible(visible)))
    }

    /// Sets whether the window can be resized. Always `Ok`, of the command to do: see [`Window::spec_command`].
    pub fn set_resizable(&self, resizable: bool) -> (r: Result<Option<WindowCommand>>)
        ensures
            r == Ok::<Option<WindowCommand>, JsError>(
                self.spec_command(WindowCommand::SetResizable(resizable)),
            ),
    {
        Ok(self.command(WindowCommand::SetResizable(resizable)))
    }

    /// Sets whether the window has decorations. Always `Ok`, of the command to do: see [`Window::spec_command`].
    pub fn set_decorated(&self, decorated: bool) -> (r: Result<Option<WindowCommand>>)
        ensures
            r == Ok::<Option<WindowCommand>, JsError>(
                self.spec_command(WindowCommand::SetDecorations(decorated)),
            ),
    {
        Ok(self.command(WindowCommand::SetDecorations(decorated)))
    }

    /// Maximizes the window or undoes that. Always `Ok`, of the command to do: see [`Window::spec_command`].
    pub fn set_maximized(&self, maximized: bool) -> (r: Result<Option<WindowCommand>>)
        ensures
            r == Ok::<Option<WindowCommand>, JsError>(
                self.spec_command(WindowCommand::SetMaximized(maximized)),
            ),
    {
        Ok(self.command(WindowCommand::SetMaximized(maximized)))
    }

    /// Minimizes the window or undoes that. Always `Ok`, of the command to do: see [`Window::spec_command`].
    pub fn set_minimized(&self, minimized: bool) -> (r: Result<Option<WindowCommand>>)
        ensures
            r == Ok::<Option<WindowCommand>, JsError>(
                self.spec_command(WindowCommand::SetMinimized(minimized)),
            ),
    {
        Ok(self.command(WindowCommand::SetMinimized(minimized)))
    }

    /// Sets whether the window stays on top. Always `Ok`, of the command to do: see [`Window::spec_command`].
    pub fn set_always_on_top(&self, always_on_top: bool) -> (r: Result<Option<WindowCommand>>)
        ensures
            r == Ok::<Option<WindowCommand>, JsError>(
                self.spec_command(WindowCommand::SetAlwaysOnTop(always_on_top)),
            ),
    {
        Ok(self.command(WindowCommand::SetAlwaysOnTop(always_on_top)))
    }

    /// Brings the window to the front and gives it the focus. Always `Ok`, of the command to do: see [`Window::spec_command`].
    pub fn request_focus(&self) -> (r: Result<Option<WindowCommand>>)
        ensures
            r == Ok::<Option<WindowCommand>, JsError>(
                self.spec_command(WindowCommand::SetFocus),
            ),
    {
        Ok(self.command(WindowCommand::SetFocus))
    }

    /// Sets the shape of the cursor over the window. Always `Ok`, of the command to do: see [`Window::spec_command`].
    pub fn set_cursor_icon(&self, cursor: CursorIcon) -> (r: Result<Option<WindowCommand>>)
        ensures
            r == Ok::<Option<WindowCommand>, JsError>(
                self.spec_command(WindowCommand::SetCursorIcon(cursor)),
            ),
    {
        Ok(self.command(WindowCommand::SetCursorIcon(cursor)))
    }

    /// Sets the colour scheme. Always `Ok`, of the command to do: see [`Window::spec_command`].
    pub fn set_theme(&self, theme: TaoTheme) -> (r: Result<Option<WindowCommand>>)
        ensures
            r == Ok::<Option<WindowCommand>, JsError>(
                self.spec_command(WindowCommand::SetTheme(theme)),
            ),
    {
        Ok(self.command(WindowCommand::SetTheme(theme)))
    }

    /// Sets whether the cursor passes through the window. Always `Ok`, of the command to do: see [`Window::spec_command`].
    pub fn set_ignore_cursor_events(&self, ignore: bool) -> (r: Result<Option<WindowCommand>>)
        ensures
            r == Ok::<Option<WindowCommand>, JsError>(
                self.spec_command(WindowCommand::SetIgnoreCursorEvents(ignore)),
            ),
    {
        Ok(self.command(WindowCommand::SetIgnoreCursorEvents(ignore)))
    }

    /// Asks for the window to be drawn again. Always `Ok`, of the command to do: see [`Window::spec_command`].
    pub fn request_redraw(&self) -> (r: Result<Option<WindowCommand>>)
        ensures
            r == Ok::<Option<WindowCommand>, JsError>(
                self.spec_command(WindowCommand::RequestRedraw),
            ),
    {
        Ok(self.command(WindowCommand::RequestRedraw))
    }

    /// Closing a window only asks for it to be drawn again. Always `Ok`, of the command to do: see [`Window::spec_command`].
    pub fn close(&self) -> (r: Result<Option<WindowCommand>>)
        ensures
            r == Ok::<Option<WindowCommand>, JsError>(
                self.spec_command(WindowCommand::RequestRedraw),
            ),
    {
        Ok(self.command(WindowCommand::RequestRedraw))
    }

    /// Moves the window. Always `Ok`, of the position to set on the native
    /// window: see [`Window::spec_place`].
    pub fn set_outer_position<N>(&self, x: N, y: N) -> (r: Result<Option<Position<N>>>)
        ensures
            r == Ok::<Option<Position<N>>, JsError>(self.spec_place(Position { x, y })),
    {
        if self.initialized {
            Ok(Some(Position { x, y }))
        } else {
            Ok(None)
        }
    }

    /// Resizes the window. Always `Ok`, of the inner size to set on the
    /// native window: see [`Window::spec_place`].
    pub fn set_inner_size<N>(&self, width: N, height: N) -> (r: Result<Option<Size<N>>>)
        ensures
            r == Ok::<Option<Size<N>>, JsError>(self.spec_place(Size { width, height })),
    {
        if self.initialized {
            Ok(Some(Size { width, height }))
        } else {
            Ok(None)
        }
    }

    /// Moves the cursor. Always `Ok`, of the position to set through the
    /// native window: see [`Window::spec_place`].
    pub fn set_cursor_position<N>(&self, x: N, y: N) -> (r: Result<Option<Position<N>>>)
        ensures
            r == Ok::<Option<Position<N>>, JsError>(self.spec_place(Position { x, y })),
    {
        if self.initialized {
            Ok(Some(Position { x, y }))
        } else {
            Ok(None)
        }
    }

    /// The window's identifier: what the native window answered, 0 without one.
    pub fn id(native: Option<u64>) -> (r: Result<u64>)
        ensures
            r == Ok::<u64, JsError>(native.unwrap_or(0)),
    {
        Ok(native.unwrap_or(0))
    }

    /// The window's title: what the native window answered, empty without one.
    pub fn title(native: Option<String>) -> (r: Result<String>)
        ensures
            r matches Ok(t) && t@ == (match native {
                Some(n) => n@,
                None => Seq::<char>::empty(),
            }),
    {
        match native {
            Some(n) => Ok(n),
            None => Ok(String::new()),
        }
    }

    /// Whether the window is visible: true without a native window.
    pub fn is_visible(native: Option<bool>) -> (r: Result<bool>)
        ensures
            r == Ok::<bool, JsError>(native.unwrap_or(true)),
    {
        Ok(native.unwrap_or(true))
    }

    /// Whether the window is resizable: true without a native window.
    pub fn is_resizable(native: Option<bool>) -> (r: Result<bool>)
        ensures
            r == Ok::<bool, JsError>(native.unwrap_or(true)),
    {
        Ok(native.unwrap_or(true))
    }

    /// Whether the window is decorated: true without a native window.
    pub fn is_decorated(native: Option<bool>) -> (r: Result<bool>)
        ensures
            r == Ok::<bool, JsError>(native.unwrap_or(true)),
    {
        Ok(native.unwrap_or(true))
    }

    /// Where the window is, in physical pixels. `native` is `None` without a
    /// native window and `Some(None)` where the platform cannot tell; both
    /// give the origin.
    pub fn outer_position(native: Option<Option<Position<i32>>>) -> (r: Result<Position<i32>>)
        ensures
            r == Ok::<Position<i32>, JsError>(
                match native {
                    Some(Some(p)) => p,
                    _ => Position { x: 0, y: 0 },
                },
            ),
    {
        match native {
            Some(Some(p)) => Ok(p),
            _ => Ok(Position { x: 0, y: 0 }),
        }
    }

    /// The inner size of the window, in physical pixels: 800 by 600 without a
    /// native window.
    pub fn inner_size(native: Option<Size<u32>>) -> (r: Result<Size<u32>>)
        ensures
            r == Ok::<Size<u32>, JsError>(
                match native {
                    Some(s) => s,
                    None => Size { width: 800, height: 600 },
                },
            ),
    {
        match native {
            Some(s) => Ok(s),
            None => Ok(Size { width: 800, height: 600 }),
        }
    }

    /// Whether the window is maximized: false without a native window.
    pub fn is_maximized(native: Option<bool>) -> (r: Result<bool>)
        ensures
            r == Ok::<bool, JsError>(native.unwrap_or(false)),
    {
        Ok(native.unwrap_or(false))
    }

    /// Whether the window is minimized: false without a native window.
    pub fn is_minimized(native: Option<bool>) -> (r: Result<bool>)
        ensures
            r == Ok::<bool, JsError>(native.unwrap_or(false)),
    {
        Ok(native.unwrap_or(false))
    }

    /// Whether the window stays on top: false without a native window.
    pub fn is_always_on_top(native: Option<bool>) -> (r: Result<bool>)
        ensures
            r == Ok::<bool, JsError>(native.unwrap_or(false)),
    {
        Ok(native.unwrap_or(false))
    }

    /// Whether the window has the focus: true without a native window.
    pub fn is_focused(native: Option<bool>) -> (r: Result<bool>)
        ensures
            r == Ok::<bool, JsError>(native.unwrap_or(true)),
    {
        Ok(native.unwrap_or(true))
    }

    /// The cursor shape: always the default one.
    pub fn cursor_icon(&self) -> (r: Result<CursorIcon>)
        ensures
            r == Ok::<CursorIcon, JsError>(CursorIcon::Default),
    {
        Ok(CursorIcon::Default)
    }

    /// Where the cursor is. `native` is `None` without a native window and
    /// `Some(None)` where the platform cannot tell; both give `origin`.
    pub fn cursor_position<N>(native: Option<Option<Position<N>>>, origin: Position<N>) -> (r:
        Result<Position<N>>)
        ensures
            r == Ok::<Position<N>, JsError>(
                match native {
                    Some(Some(p)) => p,
                    _ => origin,
                },
            ),
    {
        match native {
            Some(Some(p)) => Ok(p),
            _ => Ok(origin),
        }
    }

    /// Whether a drag was started. `native` tells whether the native window
    /// took the request; without one nothing is dragged.
    pub fn drag_window(native: Option<bool>) -> (r: Result<bool>)
        ensures
            r == Ok::<bool, JsError>(native.unwrap_or(false)),
    {
        Ok(native.unwrap_or(false))
    }

    /// The window's colour scheme. `native` is `None` without a native window,
    /// which gives no theme, and `Some(None)` where the native theme is
    /// neither light nor dark, which counts as light.
    pub fn theme(native: Option<Option<TaoTheme>>) -> (r: Result<Option<TaoTheme>>)
        ensures
            r == Ok::<Option<TaoTheme>, JsError>(
                match native {
                    None => None,
                    Some(Some(t)) => Some(t),
                    Some(None) => Some(TaoTheme::Light),
                },
            ),
    {
        match native {
            None => Ok(None),
            Some(Some(t)) => Ok(Some(t)),
            Some(None) => Ok(Some(TaoTheme::Light)),
        }
    }

    /// Outcome of setting the window icon. `native` is `None` without a native
    /// window, which succeeds, and else tells whether the pixels made an
    /// icon, with the complaint where they did not. The failure reads
    /// `Invalid icon: ` followed by that complaint.
    pub fn set_window_icon(native: Option<core::result::Result<(), String>>) -> (r: Result<()>)
        ensures
            match native {
                Some(Err(complaint)) => fails_with(r, "Invalid icon: "@ + complaint@),
                _ => r is Ok,
            },
    {
        match native {
            Some(Err(complaint)) => Err(JsError::with_detail("Invalid icon: ", complaint.as_str())),
            _ => Ok(()),
        }
    }
}

/// Collects what a new window shall be like.
#[derive(Debug, Clone, PartialEq)]
pub struct WindowBuilder<N> {
    pub attributes: WindowAttributes<N>,
}

impl<N: Copy> WindowBuilder<N> {
    /// A builder with the default attributes: always `Ok`.
    pub fn new() -> (r: Result<Self>)
        ensures
            r matches Ok(b) && b.attributes.is_default(),
    {
        Ok(
            WindowBuilder {
                attributes: WindowAttributes {
                    title: String::from_str("Window"),
                    width: 800,
                    height: 600,
                    x: None,
                    y: None,
                    resizable: true,
                    decorated: true,
                    always_on_top: false,
                    visible: true,
                    transparent: false,
                    maximized: false,
                    focused: true,
                    menubar: true,
                    icon: None,
                    theme: None,
                },
            },
        )
    }

    /// Sets the title.
    pub fn with_title(&mut self, title: String) -> (r: Result<&Self>)
        ensures
            final(self).attributes == (WindowAttributes { title, ..old(self).attributes }),
            r matches Ok(b) && *b == *final(self),
    {
        self.attributes.title = title;
        Ok(self)
    }

    /// Sets the inner size.
    pub fn with_inner_size(&mut self, width: u32, height: u32) -> (r: Result<&Self>)
        ensures
            final(self).attributes == (WindowAttributes { width, height, ..old(self).attributes }),
            r matches Ok(b) && *b == *final(self),
    {
        self.attributes.width = width;
        self.attributes.height = height;
        Ok(self)
    }

    /// Sets both coordinates of the position.
    pub fn with_position(&mut self, x: N, y: N) -> (r: Result<&Self>)
        ensures
            final(self).attributes == (WindowAttributes {
                x: Some(x),
                y: Some(y),
                ..old(self).attributes
            }),
            r matches Ok(b) && *b == *final(self),
    {
        self.attributes.x = Some(x);
        self.attributes.y = Some(y);
        Ok(self)
    }

    /// Sets whether the window can be resized.
    pub fn with_resizable(&mut self, resizable: bool) -> (r: Result<&Self>)
        ensures
            final(self).attributes == (WindowAttributes { resizable, ..old(self).attributes }),
            r matches Ok(b) && *b == *final(self),
    {
        self.attributes.resizable = resizable;
        Ok(self)
    }

    /// Sets whether the window has decorations.
    pub fn with_decorated(&mut self, decorated: bool) -> (r: Result<&Self>)
        ensures
            final(self).attributes == (WindowAttributes { decorated, ..old(self).attributes }),
            r matches Ok(b) && *b == *final(self),
    {
        self.attributes.decorated = decorated;
        Ok(self)
    }

    /// Sets whether the window stays on top.
    pub fn with_always_on_top(&mut self, always_on_top: bool) -> (r: Result<&Self>)
        ensures
            final(self).attributes == (WindowAttributes {
                always_on_top,
                ..old(self).attributes
            }),
            r matches Ok(b) && *b == *final(self),
    {
        self.attributes.always_on_top = always_on_top;
        Ok(self)
    }

    /// Sets whether the window is visible.
    pub fn with_visible(&mut self, visible: bool) -> (r: Result<&Self>)
        ensures
            final(self).attributes == (WindowAttributes { visible, ..old(self).attributes }),
            r matches Ok(b) && *b == *final(self),
    {
        self.attributes.visible = visible;
        Ok(self)
    }

    /// Sets whether the window is transparent.
    pub fn with_transparent(&mut self, transparent: bool) -> (r: Result<&Self>)
        ensures
            final(self).attributes == (WindowAttributes { transparent, ..old(self).attributes }),
            r matches Ok(b) && *b == *final(self),
    {
        self.attributes.transparent = transparent;
        Ok(self)
    }

    /// Sets whether the window starts maximized.
    pub fn with_maximized(&mut self, maximized: bool) -> (r: Result<&Self>)
        ensures
            final(self).attributes == (WindowAttributes { maximized, ..old(self).attributes }),
            r matches Ok(b) && *b == *final(self),
    {
        self.attributes.maximized = maximized;
        Ok(self)
    }

    /// Sets whether the window starts with the focus.
    pub fn with_focused(&mut self, focused: bool) -> (r: Result<&Self>)
        ensures
            final(self).attributes == (WindowAttributes { focused, ..old(self).attributes }),
            r matches Ok(b) && *b == *final(self),
    {
        self.attributes.focused = focused;
        Ok(self)
    }

    /// Sets whether the window has a menu bar.
    pub fn with_menubar(&mut self, menubar: bool) -> (r: Result<&Self>)
        ensures
            final(self).attributes == (WindowAttributes { menubar, ..old(self).attributes }),
            r matches Ok(b) && *b == *final(self),
    {
        self.attributes.menubar = menubar;
        Ok(self)
    }

    /// Sets the icon.
    pub fn with_window_icon(&mut self, icon: Vec<u8>) -> (r: Result<&Self>)
        ensures
            final(self).attributes == (WindowAttributes {
                icon: Some(icon),
                ..old(self).attributes
            }),
            r matches Ok(b) && *b == *final(self),
    {
        self.attributes.icon = Some(icon);
        Ok(self)
    }

    /// Sets the colour scheme.
    pub fn with_theme(&mut self, theme: TaoTheme) -> (r: Result<&Self>)
        ensures
            final(self).attributes == (WindowAttributes {
                theme: Some(theme),
                ..old(self).attributes
            }),
            r matches Ok(b) && *b == *final(self),
    {
        self.attributes.theme = Some(theme);
        Ok(self)
    }

    /// Plans the window on `event_loop`. Without an available loop this
    /// fails with `Event loop already running or consumed`; else it gives the
    /// plan of the attributes, which the embedding carries out. The builder
    /// keeps its attributes either way.
    pub fn build(&mut self, event_loop: &EventLoop) -> (r: Result<WindowPlan<u32, N>>)
        ensures
            *final(self) == *old(self),
            event_loop.available ==> r == Ok::<WindowPlan<u32, N>, JsError>(
                old(self).attributes.plan(),
            ),
            !event_loop.available ==> fails_with(r, "Event loop already running or consumed"@),
    {
        if !event_loop.available {
            return Err(JsError::generic("Event loop already running or consumed"));
        }
        Ok(
            WindowPlan {
                title: self.attributes.title.clone(),
                width: self.attributes.width,
                height: self.attributes.height,
                resizable: self.attributes.resizable,
                decorations: self.attributes.decorated,
                always_on_top: self.attributes.always_on_top,
                visible: self.attributes.visible,
                transparent: self.attributes.transparent,
                platform_transparency: self.attributes.transparent,
                maximized: self.attributes.maximized,
                focused: self.attributes.focused,
                position: position_of(self.attributes.x, self.attributes.y),
            },
        )
    }

    /// What becomes of the plan once carried out: the window on success, and
    /// on failure `Failed to create window: ` followed by the native complaint.
    pub fn finish(native: core::result::Result<(), String>) -> (r: Result<Window>)
        ensures
            match native {
                Ok(_) => r == Ok::<Window, JsError>(Window { initialized: true }),
                Err(complaint) => fails_with(r, "Failed to create window: "@ + complaint@),
            },
    {
        match native {
            Ok(_) => Ok(Window { initialized: true }),
            Err(complaint) => Err(
                JsError::with_detail("Failed to create window: ", complaint.as_str()),
            ),
        }
    }
}

} // verus!
