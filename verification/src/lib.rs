//! Decision core of a desktop window and webview binding layer.
//!
//! The crate holds what the bindings decide: defaults, what options come
//! to, creation plans, deferred actions and the failure text handed to the
//! host runtime. Native windows, webviews and the host runtime itself stay with the
//! embedding, which performs what this crate plans and reports back what the
//! native side answered.
//!
//! The items of this file are an application that makes its browser windows
//! at once; [`high_level`] holds one that makes them when the event loop
//! turns.

use vstd::prelude::*;
use crate::browser_window::{BrowserWindow, BrowserWindowOptions};
use crate::error::{fails_with, JsError};
use crate::tao::structs::{LoopControl, LoopEvent};
use crate::webview::Bounds;

pub mod browser_window;
pub mod error;
pub mod high_level;
pub mod json;
pub mod tao;
pub mod webview;
pub mod wry;

verus! {

/// What an application tells its listener.
#[derive(Debug, Clone, Copy, PartialEq, Eq, Structural)]
pub enum WebviewApplicationEvent {
    WindowCloseRequested,
}

/// One header of a message from a page.
#[derive(Debug, Clone, PartialEq, Eq)]
pub struct HeaderData {
    pub key: String,
    pub value: Option<String>,
}

/// A message from a page.
#[derive(Debug, Clone, PartialEq, Eq)]
pub struct IpcMessage {
    pub body: Vec<u8>,
    pub method: String,
    pub headers: Vec<HeaderData>,
    pub uri: String,
}

/// The version of the platform's webview as the host is told it: what the
/// platform answered, or the failure `Failed to get webview version: `
/// followed by its complaint.
pub fn get_webview_version(native: Result<String, String>) -> (r: Result<String, JsError>)
    ensures
        match native {
            Ok(version) => r == Ok::<String, JsError>(version),
            Err(complaint) => fails_with(r, "Failed to get webview version: "@ + complaint@),
        },
{
    match native {
        Ok(version) => Ok(version),
        Err(complaint) => Err(
            JsError::with_detail("Failed to get webview version: ", complaint.as_str()),
        ),
    }
}

/// How the event loop proceeds, as the host names it.
#[derive(Debug, Clone, Copy, PartialEq, Eq, Structural)]
pub enum JsControlFlow {
    Poll,
    WaitUntil,
    Exit,
    ExitWithCode,
}

/// What a caller asks of a new application.
#[derive(Debug, Clone, Copy, PartialEq, Eq, Structural)]
pub struct ApplicationOptions {
    pub control_flow: Option<JsControlFlow>,
    /// Milliseconds to wait, for [`JsControlFlow::WaitUntil`].
    pub wait_time: Option<i32>,
    /// The code to exit with, for [`JsControlFlow::ExitWithCode`].
    pub exit_code: Option<i32>,
}

/// An event as the listener of an application receives it.
#[derive(Debug, Clone, Copy, PartialEq, Eq, Structural)]
pub struct ApplicationEvent {
    pub event: WebviewApplicationEvent,
}

/// What the event loop is to do with one event.
#[derive(Debug, Clone, Copy, PartialEq, Eq, Structural)]
pub struct Step {
    /// What the loop does next.
    pub control: LoopControl,
    /// What to tell the listener, if there is one.
    pub notify: Option<ApplicationEvent>,
}

/// A wait of `wait_time` milliseconds as the event loop counts it. The loop
/// counts in 64 unsigned bits, so a negative time becomes a very long one.
pub open spec fn spec_wait_millis(wait_time: i32) -> u64 {
    if wait_time >= 0 {
        wait_time as u64
    } else {
        (wait_time + 0x1_0000_0000_0000_0000) as u64
    }
}

/// Computes [`spec_wait_millis`].
pub fn wait_millis(wait_time: i32) -> (millis: u64)
    ensures
        millis == spec_wait_millis(wait_time),
{
    if wait_time >= 0 {
        wait_time as u64
    } else {
        // wait_time is at least -2^31, so the distance to zero fits.
        let below_zero: u64 = (-(wait_time as i64)) as u64;
        u64::MAX - (below_zero - 1)
    }
}

/// The application: its event loop and its options.
#[derive(Debug, Clone, Copy, PartialEq, Eq)]
pub struct Application {
    /// Whether the native event loop is still there.
    pub event_loop_available: bool,
    pub options: ApplicationOptions,
}

impl Application {
    /// The options of an application that is asked for without any: the
    /// loop polls.
    pub open spec fn default_options() -> ApplicationOptions {
        ApplicationOptions {
            control_flow: Some(JsControlFlow::Poll),
            wait_time: None,
            exit_code: None,
        }
    }

    /// A new application with `options`, or the default ones without any:
    /// always `Ok`, with its event loop there.
    pub fn new(options: Option<ApplicationOptions>) -> (r: Result<Self, JsError>)
        ensures
            r == Ok::<Application, JsError>(
                Application {
                    event_loop_available: true,
                    options: match options {
                        Some(o) => o,
                        None => Self::default_options(),
                    },
                },
            ),
    {
        Ok(
            Application {
                event_loop_available: true,
                options: options.unwrap_or(
                    ApplicationOptions {
                        control_flow: Some(JsControlFlow::Poll),
                        wait_time: None,
                        exit_code: None,
                    },
                ),
            },
        )
    }

    /// Plans a browser window that is no child, as
    /// [`BrowserWindow::new`] does. Once the event loop is gone this fails
    /// with `Event loop is not initialized`.
    pub fn create_browser_window<N: Copy>(
        &self,
        options: Option<BrowserWindowOptions<N>>,
        id: u32,
        fallback: Bounds<N>,
    ) -> (r: Result<BrowserWindow<N>, JsError>)
        ensures
            !self.event_loop_available ==> fails_with(r, "Event loop is not initialized"@),
            self.event_loop_available ==> (r matches Ok(w) && w.carries_out(
                options,
                id,
                false,
                fallback,
            )),
    {
        if !self.event_loop_available {
            return Err(JsError::generic("Event loop is not initialized"));
        }
        Ok(BrowserWindow::new(options, id, false, fallback))
    }

    /// Plans a browser window that is a child, as [`BrowserWindow::new`]
    /// does. Once the event loop is gone this fails with
    /// `Event loop is not initialized`.
    pub fn create_child_browser_window<N: Copy>(
        &self,
        options: Option<BrowserWindowOptions<N>>,
        id: u32,
        fallback: Bounds<N>,
    ) -> (r: Result<BrowserWindow<N>, JsError>)
        ensures
            !self.event_loop_available ==> fails_with(r, "Event loop is not initialized"@),
            self.event_loop_available ==> (r matches Ok(w) && w.carries_out(
                options,
                id,
                true,
                fallback,
            )),
    {
        if !self.event_loop_available {
            return Err(JsError::generic("Event loop is not initialized"));
        }
        Ok(BrowserWindow::new(options, id, true, fallback))
    }

    /// What the loop does after an event that is no close request, by the
    /// options: it polls unless told otherwise; it waits for the time given,
    /// or not at all without one; it exits with the code given, or with 0
    /// without one.
    pub open spec fn spec_control_flow(options: ApplicationOptions) -> LoopControl {
        match options.control_flow {
            None => LoopControl::Poll,
            Some(JsControlFlow::Poll) => LoopControl::Poll,
            Some(JsControlFlow::WaitUntil) => LoopControl::WaitUntil {
                millis: spec_wait_millis(options.wait_time.unwrap_or(0)),
            },
            Some(JsControlFlow::Exit) => LoopControl::Exit,
            Some(JsControlFlow::ExitWithCode) => LoopControl::ExitWithCode(
                options.exit_code.unwrap_or(0),
            ),
        }
    }

    /// Computes [`Application::spec_control_flow`] for this application.
    pub fn control_flow(&self) -> (c: LoopControl)
        ensures
            c == Self::spec_control_flow(self.options),
    {
        match self.options.control_flow {
            None => LoopControl::Poll,
            Some(JsControlFlow::Poll) => LoopControl::Poll,
            Some(JsControlFlow::WaitUntil) => {
                let wait_time = self.options.wait_time.unwrap_or(0);
                LoopControl::WaitUntil { millis: wait_millis(wait_time) }
            },
            Some(JsControlFlow::Exit) => LoopControl::Exit,
            Some(JsControlFlow::ExitWithCode) => {
                let exit_code = self.options.exit_code.unwrap_or(0);
                LoopControl::ExitWithCode(exit_code)
            },
        }
    }

    /// Hands the native loop out to be run: always `Ok`. `Some` holds what
    /// the loop does after each event that is no close request, and tells the
    /// embedding to run the loop, handing each event to
    /// [`Application::run_step`]; `None` tells that the loop was handed out
    /// before. Afterwards the loop is gone.
    pub fn run(&mut self) -> (r: Result<Option<LoopControl>, JsError>)
        ensures
            r == Ok::<Option<LoopControl>, JsError>(
                if old(self).event_loop_available {
                    Some(Self::spec_control_flow(old(self).options))
                } else {
                    None
                },
            ),
            !final(self).event_loop_available,
            final(self).options == old(self).options,
    {
        let ctrl = self.control_flow();
        if self.event_loop_available {
            self.event_loop_available = false;
            Ok(Some(ctrl))
        } else {
            Ok(None)
        }
    }

    /// What a running loop does with `event`, where `ctrl` is what
    /// [`Application::run`] gave: a close request is told to the listener and
    /// ends the loop; after any other event the loop does `ctrl`.
    pub open spec fn spec_run_step(ctrl: LoopControl, event: LoopEvent) -> Step {
        if event == LoopEvent::CloseRequested {
            Step {
                control: LoopControl::Exit,
                notify: Some(
                    ApplicationEvent { event: WebviewApplicationEvent::WindowCloseRequested },
                ),
            }
        } else {
            Step { control: ctrl, notify: None }
        }
    }

    /// Computes [`Application::spec_run_step`].
    pub fn run_step(ctrl: LoopControl, event: LoopEvent) -> (step: Step)
        ensures
            step == Self::spec_run_step(ctrl, event),
    {
        match event {
            LoopEvent::CloseRequested => Step {
                control: LoopControl::Exit,
                notify: Some(
                    ApplicationEvent { event: WebviewApplicationEvent::WindowCloseRequested },
                ),
            },
            _ => Step { control: ctrl, notify: None },
        }
    }
}

} // verus!
