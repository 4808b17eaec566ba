//! Plain enumerations of the windowing side of the bindings.

use vstd::prelude::*;
use crate::tao::structs::MonitorInfo;

verus! {

/// How the event loop proceeds after an event has been handled.
#[derive(Debug, Clone, Copy, PartialEq, Eq, Structural)]
pub enum TaoControlFlow {
    Poll,
    WaitUntil,
    Exit,
    ExitWithCode,
}

/// Kinds of window events reported to the host.
#[derive(Debug, Clone, Copy, PartialEq, Eq, Structural)]
pub enum WindowEvent {
    Created,
    CloseRequested,
    Destroyed,
    Focused,
    Unfocused,
    Moved,
    Resized,
    ScaleFactorChanged,
    ThemeChanged,
    Minimized,
    Maximized,
    Restored,
    Visible,
    Invisible,
}

/// A mouse button; buttons beyond the usual three are numbered.
#[derive(Debug, Clone, Copy, PartialEq, Eq, Structural)]
pub enum MouseButton {
    Left,
    Right,
    Middle,
    Other(u16),
}

/// Whether a button went down or came up.
#[derive(Debug, Clone, Copy, PartialEq, Eq, Structural)]
pub enum MouseButtonState {
    Pressed,
    Released,
}

/// Keys of a keyboard, by the symbol printed on them.
#[derive(Debug, Clone, Copy, PartialEq, Eq, Structural)]
pub enum Key {
    Key1,
    Key2,
    Key3,
    Key4,
    Key5,
    Key6,
    Key7,
    Key8,
    Key9,
    Key0,
    KeyA,
    KeyB,
    KeyC,
    KeyD,
    KeyE,
    KeyF,
    KeyG,
    KeyH,
    KeyI,
    KeyJ,
    KeyK,
    KeyL,
    KeyM,
    KeyN,
    KeyO,
    KeyP,
    KeyQ,
    KeyR,
    KeyS,
    KeyT,
    KeyU,
    KeyV,
    KeyW,
    KeyX,
    KeyY,
    KeyZ,
    Escape,
    F1,
    F2,
    F3,
    F4,
    F5,
    F6,
    F7,
    F8,
    F9,
    F10,
    F11,
    F12,
    Snapshot,
    Scroll,
    Pause,
    Insert,
    Home,
    Delete,
    End,
    PageDown,
    PageUp,
    Left,
    Up,
    Right,
    Down,
    Backspace,
    Enter,
    Space,
    Compose,
    Numlock,
    Numpad0,
    Numpad1,
    Numpad2,
    Numpad3,
    Numpad4,
    Numpad5,
    Numpad6,
    Numpad7,
    Numpad8,
    Numpad9,
    NumpadAdd,
    NumpadDivide,
    NumpadDecimal,
    NumpadEnter,
    NumpadEquals,
    NumpadMultiply,
    NumpadSubtract,
    Apostrophe,
    CapsLock,
    Comma,
    Convert,
    Equal,
    Grave,
    LAlt,
    LBracket,
    LControl,
    LShift,
    LWin,
    NonConvert,
    Period,
    RAlt,
    RBracket,
    RControl,
    RShift,
    RWin,
    Semicolon,
    Slash,
    Alt,
    Control,
    Shift,
    Backslash,
    NonUsBackslash,
    Tab,
}

/// A modifier key that is held down.
#[derive(Debug, Clone, Copy, PartialEq, Eq, Structural)]
pub enum ModifiersState {
    Shift,
    Control,
    Alt,
    Super,
}

/// Shapes the mouse cursor can take over a window.
#[derive(Debug, Clone, Copy, PartialEq, Eq, Structural)]
pub enum CursorIcon {
    Default,
    Crosshair,
    Hand,
    Arrow,
    Move,
    Text,
    Wait,
    Help,
    Progress,
    NotAllowed,
    EastResize,
    NorthResize,
    NortheastResize,
    NorthwestResize,
    SouthResize,
    SoutheastResize,
    SouthwestResize,
    WestResize,
    NorthSouthResize,
    EastWestResize,
    NortheastSouthwestResize,
    NorthwestSoutheastResize,
    ColumnResize,
    RowResize,
    AllScroll,
    ZoomIn,
    ZoomOut,
}

/// Colour scheme of a window.
#[derive(Debug, Clone, Copy, PartialEq, Eq, Structural)]
pub enum TaoTheme {
    Light,
    Dark,
}

/// The two ways a window can fill a screen.
#[derive(Debug, Clone, Copy, PartialEq, Eq, Structural)]
pub enum TaoFullscreenType {
    Exclusive,
    Borderless,
}

/// Stacking level of a window among the others.
#[derive(Debug, Clone, Copy, PartialEq, Eq, Structural)]
pub enum WindowLevel {
    Normal,
    AlwaysOnTop,
    AlwaysOnBottom,
}

/// Whether input method editing is available.
#[derive(Debug, Clone, Copy, PartialEq, Eq, Structural)]
pub enum ImeState {
    Disabled,
    Enabled,
}

/// Failures reported by the windowing system.
#[derive(Debug, Clone, PartialEq, Eq)]
pub enum ExternalError {
    NotSupported,
    Os(String),
}

/// State of a button or key of an input device.
#[derive(Debug, Clone, Copy, PartialEq, Eq, Structural)]
pub enum ElementState {
    Pressed,
    Released,
}

/// Why the event loop woke up.
#[derive(Debug, Clone, Copy, PartialEq, Eq, Structural)]
pub enum StartCause {
    Wait,
    WaitCancelled,
    Poll,
    ResumeCancelled,
    Init,
}

/// Phases of a touch gesture.
#[derive(Debug, Clone, Copy, PartialEq, Eq, Structural)]
pub enum TouchPhase {
    Started,
    Moved,
    Ended,
    Cancelled,
}

/// Which device events reach a window that is not focused.
#[derive(Debug, Clone, Copy, PartialEq, Eq, Structural)]
pub enum DeviceEventFilter {
    Allow,
    AllowRepeated,
    Ignore,
}

/// Physical keys, by position.
#[derive(Debug, Clone, Copy, PartialEq, Eq, Structural)]
pub enum KeyCode {
    Key1,
    Key2,
    Key3,
    Key4,
    Key5,
    Key6,
    Key7,
    Key8,
    Key9,
    Key0,
    A,
    B,
    C,
    D,
    E,
    F,
    G,
    H,
    I,
    J,
    K,
    L,
    M,
    N,
    O,
    P,
    Q,
    R,
    S,
    T,
    U,
    V,
    W,
    X,
    Y,
    Z,
    Escape,
    F1,
    F2,
    F3,
    F4,
    F5,
    F6,
    F7,
    F8,
    F9,
    F10,
    F11,
    F12,
    F13,
    F14,
    F15,
    F16,
    F17,
    F18,
    F19,
    F20,
    F21,
    F22,
    F23,
    F24,
    Snapshot,
    Scroll,
    Pause,
    Insert,
    Home,
    Delete,
    End,
    PageDown,
    PageUp,
    Left,
    Up,
    Right,
    Down,
    Backspace,
    Enter,
    Space,
    Compose,
    CapsLock,
    Numlock,
    Numpad0,
    Numpad1,
    Numpad2,
    Numpad3,
    Numpad4,
    Numpad5,
    Numpad6,
    Numpad7,
    Numpad8,
    Numpad9,
    NumpadAdd,
    NumpadDivide,
    NumpadDecimal,
    NumpadEnter,
    NumpadEquals,
    NumpadMultiply,
    NumpadSubtract,
    Apostrophe,
    Comma,
    Equal,
    Grave,
    LAlt,
    LBracket,
    LControl,
    LShift,
    LWin,
    Period,
    RAlt,
    RBracket,
    RControl,
    RShift,
    RWin,
    Semicolon,
    Slash,
    Backslash,
    NonUsBackslash,
    Tab,
}

/// Where on the keyboard a key sits.
#[derive(Debug, Clone, Copy, PartialEq, Eq, Structural)]
pub enum KeyLocation {
    Standard,
    Left,
    Right,
    Numpad,
}

/// Reasons icon data is rejected.
#[derive(Debug, Clone, Copy, PartialEq, Eq, Structural)]
pub enum BadIcon {
    NoData,
    TooLarge,
    Format,
}

/// State of the progress indicator of a window.
#[derive(Debug, Clone, Copy, PartialEq, Eq, Structural)]
pub enum ProgressState {
    Hidden,
    Normal,
    Indeterminate,
    Paused,
    Error,
}

/// Edge or corner by which a window is resized.
#[derive(Debug, Clone, Copy, PartialEq, Eq, Structural)]
pub enum ResizeDirection {
    East,
    North,
    Northeast,
    Northwest,
    South,
    Southeast,
    Southwest,
    West,
}

/// How urgently a window asks for attention.
#[derive(Debug, Clone, Copy, PartialEq, Eq, Structural)]
pub enum UserAttentionType {
    Critical,
    Informational,
}

/// An event of an input device. Distances are of a type `N` that the
/// embedding chooses.
#[derive(Debug, Clone, Copy, PartialEq)]
pub enum DeviceEvent<N> {
    MouseMotion { delta_x: N, delta_y: N },
    MouseButton { button: u16, state: MouseButtonState },
    Key { key_code: u32, state: MouseButtonState },
}

/// How hard a touch presses, in a measure `N` that the embedding chooses.
#[derive(Debug, Clone, Copy, PartialEq)]
pub enum Force<N> {
    Calibrated { force: N, stage: u32 },
    Normalized(N),
}

/// How far a wheel or a touch surface scrolled: in lines, or in pixels of
/// a type `N` that the embedding chooses.
#[derive(Debug, Clone, Copy, PartialEq)]
pub enum MouseScrollDelta<N> {
    LineDelta(u32, u32),
    PixelDelta(N, N),
}

/// A fullscreen mode together with its monitor.
#[derive(Debug, Clone, PartialEq)]
pub enum Fullscreen<N> {
    Exclusive(MonitorInfo<N>),
    Borderless(Option<MonitorInfo<N>>),
}

} // verus!
