use webviewjs::browser_window::{
    webview_theme, BrowserWindow, BrowserWindowOptions, FullscreenChange, FullscreenType,
    JsProgressBar, JsProgressBarState, JsTheme, NativeFullscreen, ProgressSetup, WindowSetup,
};
use webviewjs::error::{JsError, Status};
use webviewjs::tao::enums::{ProgressState, TaoTheme};
use webviewjs::tao::structs::{LoopControl, LoopEvent};
use webviewjs::webview::{
    bounds_of, native_theme, report, Bounds, JsWebview, Theme, WebviewOptions, WebviewSetup,
};
use webviewjs::wry::enums::{Error, WryTheme};
use webviewjs::wry::functions::webview_version;
use webviewjs::{
    get_webview_version, wait_millis, Application, ApplicationEvent, ApplicationOptions,
    JsControlFlow, Step, WebviewApplicationEvent,
};

fn failure(reason: &str) -> JsError {
    JsError { status: Status::GenericFailure, reason: reason.to_string() }
}

fn fallback() -> Bounds<f64> {
    Bounds { x: 0.0, y: 0.0, width: 800.0, height: 600.0 }
}

fn no_options() -> BrowserWindowOptions<f64> {
    BrowserWindowOptions {
        url: None,
        html: None,
        width: None,
        height: None,
        x: None,
        y: None,
        enable_devtools: None,
        resizable: None,
        incognito: None,
        transparent: None,
        title: None,
        user_agent: None,
        theme: None,
        preload: None,
        hotkeys_zoom: None,
        clipboard: None,
        autoplay: None,
        back_forward_navigation_gestures: None,
    }
}

fn bare_setup(child: bool) -> WebviewSetup<f64> {
    WebviewSetup {
        child,
        devtools: Some(true),
        bounds: fallback(),
        incognito: Some(false),
        preload: None,
        transparent: None,
        autoplay: None,
        clipboard: None,
        back_forward_navigation_gestures: None,
        hotkeys_zoom: None,
        theme: None,
        user_agent: None,
        html: None,
        url: None,
    }
}

#[test]
fn failures_are_generic_and_carry_their_reason() {
    assert_eq!(JsError::generic("x"), failure("x"));
    assert_eq!(JsError::with_detail("a: ", "b"), failure("a: b"));
    assert_eq!(JsError::with_detail("", ""), failure(""));
}

#[test]
fn each_webview_failure_has_its_sentence() {
    let expected = [
        (Error::Uninitialized, "The webview was not initialized"),
        (Error::AlreadyDestroyed, "The webview has already been destroyed"),
        (Error::ScriptCallFailed, "The script call failed"),
        (Error::Ipc, "An IPC error occurred"),
        (Error::InvalidWebview, "The webview is invalid"),
        (Error::InvalidUrl, "The URL is invalid"),
        (Error::Unsupported, "The operation is not supported on this platform"),
        (Error::InvalidIcon, "The icon is invalid"),
    ];
    for (error, sentence) in expected {
        assert_eq!(error.to_js_error(), failure(sentence));
    }
}

#[test]
fn the_webview_library_version_is_fixed() {
    assert_eq!(webview_version(), Ok((0, 53, 5)));
}

#[test]
fn the_platform_version_is_passed_on_or_fails() {
    assert_eq!(get_webview_version(Ok("2.40".to_string())), Ok("2.40".to_string()));
    assert_eq!(
        get_webview_version(Err("no webkit".to_string())),
        Err(failure("Failed to get webview version: no webkit"))
    );
}

#[test]
fn an_application_without_options_polls() {
    let app = Application::new(None).unwrap();
    assert!(app.event_loop_available);
    assert_eq!(
        app.options,
        ApplicationOptions { control_flow: Some(JsControlFlow::Poll), wait_time: None, exit_code: None }
    );
    assert_eq!(app.control_flow(), LoopControl::Poll);
}

fn flow(control_flow: Option<JsControlFlow>, wait_time: Option<i32>, exit_code: Option<i32>) -> LoopControl {
    Application::new(Some(ApplicationOptions { control_flow, wait_time, exit_code }))
        .unwrap()
        .control_flow()
}

#[test]
fn the_control_flow_follows_the_options() {
    assert_eq!(flow(None, Some(5), Some(6)), LoopControl::Poll);
    assert_eq!(flow(Some(JsControlFlow::Poll), Some(5), Some(6)), LoopControl::Poll);
    assert_eq!(flow(Some(JsControlFlow::Exit), Some(5), Some(6)), LoopControl::Exit);
    assert_eq!(
        flow(Some(JsControlFlow::WaitUntil), Some(250), Some(6)),
        LoopControl::WaitUntil { millis: 250 }
    );
    assert_eq!(
        flow(Some(JsControlFlow::WaitUntil), None, None),
        LoopControl::WaitUntil { millis: 0 }
    );
    assert_eq!(
        flow(Some(JsControlFlow::ExitWithCode), Some(5), Some(-3)),
        LoopControl::ExitWithCode(-3)
    );
    assert_eq!(flow(Some(JsControlFlow::ExitWithCode), None, None), LoopControl::ExitWithCode(0));
}

#[test]
fn a_negative_wait_becomes_a_very_long_one() {
    assert_eq!(wait_millis(0), 0);
    assert_eq!(wait_millis(1), 1);
    assert_eq!(wait_millis(i32::MAX), 2147483647);
    assert_eq!(wait_millis(-1), u64::MAX);
    assert_eq!(wait_millis(-2), u64::MAX - 1);
    assert_eq!(wait_millis(i32::MIN), 18446744071562067968);
    assert_eq!(wait_millis(-1), -1i32 as u64);
    assert_eq!(wait_millis(i32::MIN), i32::MIN as u64);
    assert_eq!(
        flow(Some(JsControlFlow::WaitUntil), Some(-1), None),
        LoopControl::WaitUntil { millis: u64::MAX }
    );
}

#[test]
fn the_immediate_loop_is_handed_out_once() {
    let mut app = Application::new(Some(ApplicationOptions {
        control_flow: Some(JsControlFlow::ExitWithCode),
        wait_time: None,
        exit_code: Some(9),
    }))
    .unwrap();
    assert_eq!(app.run(), Ok(Some(LoopControl::ExitWithCode(9))));
    assert!(!app.event_loop_available);
    assert_eq!(app.run(), Ok(None));
}

#[test]
fn a_close_request_ends_the_immediate_loop() {
    let closing = Step {
        control: LoopControl::Exit,
        notify: Some(ApplicationEvent { event: WebviewApplicationEvent::WindowCloseRequested }),
    };
    assert_eq!(Application::run_step(LoopControl::Poll, LoopEvent::CloseRequested), closing);
    assert_eq!(
        Application::run_step(LoopControl::WaitUntil { millis: 5 }, LoopEvent::CloseRequested),
        closing
    );
    assert_eq!(
        Application::run_step(LoopControl::Poll, LoopEvent::Other),
        Step { control: LoopControl::Poll, notify: None }
    );
    assert_eq!(
        Application::run_step(LoopControl::ExitWithCode(2), LoopEvent::RedrawEventsCleared),
        Step { control: LoopControl::ExitWithCode(2), notify: None }
    );
}

#[test]
fn a_browser_window_without_options_is_titled_by_default() {
    let w = BrowserWindow::new(None, 3, false, fallback());
    assert_eq!(w.id, 3);
    assert_eq!(w.id(), 3);
    assert_eq!(w.window, WindowSetup { resizable: true, title: Some("WebviewJS".to_string()) });
    assert_eq!(w.webview, bare_setup(false));
}

#[test]
fn a_browser_window_with_bare_options_has_no_title() {
    let w = BrowserWindow::new(Some(no_options()), 4, true, fallback());
    assert_eq!(w.window, WindowSetup { resizable: true, title: None });
    assert_eq!(w.webview, bare_setup(true));
}

#[test]
fn a_browser_window_takes_what_is_given() {
    let options = BrowserWindowOptions {
        url: Some("https://a.example".to_string()),
        html: Some("<p>".to_string()),
        width: Some(300.5),
        height: Some(200.0),
        x: Some(-1.0),
        y: Some(2.0),
        enable_devtools: Some(false),
        resizable: Some(false),
        incognito: Some(true),
        transparent: Some(true),
        title: Some("Docs".to_string()),
        user_agent: Some("agent".to_string()),
        theme: Some(JsTheme::System),
        preload: Some("boot()".to_string()),
        hotkeys_zoom: Some(false),
        clipboard: Some(true),
        autoplay: Some(false),
        back_forward_navigation_gestures: Some(true),
    };
    let w = BrowserWindow::new(Some(options), 1, false, fallback());
    assert_eq!(w.window, WindowSetup { resizable: false, title: Some("Docs".to_string()) });
    assert_eq!(
        w.webview,
        WebviewSetup {
            child: false,
            devtools: Some(false),
            bounds: Bounds { x: -1.0, y: 2.0, width: 300.5, height: 200.0 },
            incognito: Some(true),
            preload: Some("boot()".to_string()),
            transparent: Some(true),
            autoplay: Some(false),
            clipboard: Some(true),
            back_forward_navigation_gestures: Some(true),
            hotkeys_zoom: Some(false),
            theme: Some(WryTheme::Auto),
            user_agent: Some("agent".to_string()),
            html: Some("<p>".to_string()),
            url: Some("https://a.example".to_string()),
        }
    );
}

#[test]
fn bounds_are_filled_in_one_by_one() {
    assert_eq!(bounds_of(None, None, None, None, fallback()), fallback());
    assert_eq!(
        bounds_of(Some(1.0), None, None, Some(4.0), fallback()),
        Bounds { x: 1.0, y: 0.0, width: 800.0, height: 4.0 }
    );
    assert_eq!(
        bounds_of(None, Some(2.0), Some(3.0), None, fallback()),
        Bounds { x: 0.0, y: 2.0, width: 3.0, height: 600.0 }
    );
}

#[test]
fn the_application_plans_browser_windows_while_its_loop_is_there() {
    let mut app = Application::new(None).unwrap();
    let w = app.create_browser_window(Some(no_options()), 1, fallback()).unwrap();
    assert_eq!(w, BrowserWindow::new(Some(no_options()), 1, false, fallback()));
    let c = app.create_child_browser_window(None, 2, fallback()).unwrap();
    assert_eq!(c, BrowserWindow::new(None, 2, true, fallback()));
    assert!(c.webview.child);
    let _ = app.run();
    assert_eq!(
        app.create_browser_window(Some(no_options()), 3, fallback()),
        Err(failure("Event loop is not initialized"))
    );
    assert_eq!(
        app.create_child_browser_window(Some(no_options()), 3, fallback()),
        Err(failure("Event loop is not initialized"))
    );
}

#[test]
fn native_failures_of_creation_are_reported() {
    assert_eq!(
        BrowserWindow::<f64>::window_failed("no display"),
        failure("Failed to create window: no display")
    );
    assert_eq!(
        BrowserWindow::<f64>::webview_failed("no webkit"),
        failure("Failed to create webview: no webkit")
    );
}

#[test]
fn themes_are_mapped_both_ways() {
    assert_eq!(BrowserWindow::<f64>::get_theme(Some(TaoTheme::Light)), JsTheme::Light);
    assert_eq!(BrowserWindow::<f64>::get_theme(Some(TaoTheme::Dark)), JsTheme::Dark);
    assert_eq!(BrowserWindow::<f64>::get_theme(None), JsTheme::System);
    assert_eq!(BrowserWindow::<f64>::set_theme(JsTheme::Light), Some(TaoTheme::Light));
    assert_eq!(BrowserWindow::<f64>::set_theme(JsTheme::Dark), Some(TaoTheme::Dark));
    assert_eq!(BrowserWindow::<f64>::set_theme(JsTheme::System), None);
    assert_eq!(webview_theme(JsTheme::Light), WryTheme::Light);
    assert_eq!(webview_theme(JsTheme::Dark), WryTheme::Dark);
    assert_eq!(webview_theme(JsTheme::System), WryTheme::Auto);
    assert_eq!(native_theme(Theme::Light), WryTheme::Light);
    assert_eq!(native_theme(Theme::Dark), WryTheme::Dark);
    assert_eq!(native_theme(Theme::System), WryTheme::Auto);
}

#[test]
fn progress_is_mapped() {
    let cases = [
        (Some(JsProgressBarState::Normal), Some(ProgressState::Normal)),
        (Some(JsProgressBarState::Indeterminate), Some(ProgressState::Indeterminate)),
        (Some(JsProgressBarState::Paused), Some(ProgressState::Paused)),
        (Some(JsProgressBarState::Error), Some(ProgressState::Error)),
        (Some(JsProgressBarState::Hidden), None),
        (None, None),
    ];
    for (state, expected) in cases {
        assert_eq!(
            BrowserWindow::<f64>::set_progress_bar(JsProgressBar { state, progress: Some(40) }),
            ProgressSetup { progress: Some(40), state: expected }
        );
    }
    assert_eq!(
        BrowserWindow::<f64>::set_progress_bar(JsProgressBar { state: None, progress: None }),
        ProgressSetup { progress: None, state: None }
    );
    assert_eq!(
        BrowserWindow::<f64>::set_progress_bar(JsProgressBar {
            state: None,
            progress: Some(u32::MAX)
        }),
        ProgressSetup { progress: Some(4294967295), state: None }
    );
}

#[test]
fn only_an_unbound_borderless_window_counts_as_borderless() {
    assert_eq!(BrowserWindow::<f64>::get_fullscreen(None), None);
    assert_eq!(
        BrowserWindow::<f64>::get_fullscreen(Some(NativeFullscreen::Borderless {
            on_chosen_monitor: false
        })),
        Some(FullscreenType::Borderless)
    );
    assert_eq!(
        BrowserWindow::<f64>::get_fullscreen(Some(NativeFullscreen::Borderless {
            on_chosen_monitor: true
        })),
        Some(FullscreenType::Exclusive)
    );
    assert_eq!(
        BrowserWindow::<f64>::get_fullscreen(Some(NativeFullscreen::Exclusive)),
        Some(FullscreenType::Exclusive)
    );
}

#[test]
fn fullscreen_needs_a_monitor_with_a_video_mode() {
    for wish in [None, Some(FullscreenType::Exclusive), Some(FullscreenType::Borderless)] {
        assert_eq!(BrowserWindow::<f64>::set_fullscreen(wish, false, false), FullscreenChange::Keep);
        assert_eq!(BrowserWindow::<f64>::set_fullscreen(wish, false, true), FullscreenChange::Keep);
        assert_eq!(BrowserWindow::<f64>::set_fullscreen(wish, true, false), FullscreenChange::Keep);
    }
    assert_eq!(BrowserWindow::<f64>::set_fullscreen(None, true, true), FullscreenChange::Leave);
    assert_eq!(
        BrowserWindow::<f64>::set_fullscreen(Some(FullscreenType::Exclusive), true, true),
        FullscreenChange::EnterExclusive
    );
    assert_eq!(
        BrowserWindow::<f64>::set_fullscreen(Some(FullscreenType::Borderless), true, true),
        FullscreenChange::EnterBorderless
    );
}

#[test]
fn native_complaints_get_their_context() {
    let complaint = || Err("boom".to_string());
    assert_eq!(report(Ok(()), "ctx: "), Ok(()));
    assert_eq!(report(complaint(), "ctx: "), Err(failure("ctx: boom")));
    assert_eq!(BrowserWindow::<f64>::print(Ok(())), Ok(()));
    assert_eq!(BrowserWindow::<f64>::print(complaint()), Err(failure("Failed to print: boom")));
    assert_eq!(BrowserWindow::<f64>::zoom(complaint()), Err(failure("Failed to zoom: boom")));
    assert_eq!(
        BrowserWindow::<f64>::set_webview_visibility(complaint()),
        Err(failure("Failed to set webview visibility: boom"))
    );
    assert_eq!(
        BrowserWindow::<f64>::load_url(complaint()),
        Err(failure("Failed to load URL: boom"))
    );
    assert_eq!(
        BrowserWindow::<f64>::load_html(complaint()),
        Err(failure("Failed to load HTML: boom"))
    );
    assert_eq!(BrowserWindow::<f64>::evaluate_script(complaint()), Err(failure("boom")));
    assert_eq!(BrowserWindow::<f64>::evaluate_script(Ok(())), Ok(()));
    assert_eq!(BrowserWindow::<f64>::set_window_icon(None), Ok(()));
    assert_eq!(BrowserWindow::<f64>::set_window_icon(Some(Ok(()))), Ok(()));
    assert_eq!(
        BrowserWindow::<f64>::set_window_icon(Some(complaint())),
        Err(failure("Failed to set window icon: boom"))
    );
}

#[test]
fn a_callback_that_cannot_be_wrapped_stops_the_script() {
    assert_eq!(
        BrowserWindow::<f64>::evaluate_script_with_callback(
            Err("no env".to_string()),
            Some(Err("boom".to_string()))
        ),
        Err(failure("Failed to create threadsafe function: no env"))
    );
    assert_eq!(
        BrowserWindow::<f64>::evaluate_script_with_callback(Err("no env".to_string()), None),
        Err(failure("Failed to create threadsafe function: no env"))
    );
    assert_eq!(
        BrowserWindow::<f64>::evaluate_script_with_callback(Ok(()), Some(Err("boom".to_string()))),
        Err(failure("boom"))
    );
    assert_eq!(BrowserWindow::<f64>::evaluate_script_with_callback(Ok(()), Some(Ok(()))), Ok(()));
    assert_eq!(BrowserWindow::<f64>::evaluate_script_with_callback(Ok(()), None), Ok(()));
}

#[test]
fn default_webview_options_switch_the_usual_things_on() {
    let d: WebviewOptions<f64> = WebviewOptions::default();
    assert_eq!(
        d,
        WebviewOptions {
            url: None,
            html: None,
            width: None,
            height: None,
            x: None,
            y: None,
            enable_devtools: Some(true),
            incognito: Some(false),
            user_agent: Some("WebviewJS".to_string()),
            child: Some(false),
            preload: None,
            transparent: Some(false),
            theme: None,
            hotkeys_zoom: Some(true),
            clipboard: Some(true),
            autoplay: Some(true),
            back_forward_navigation_gestures: Some(true),
        }
    );
}

#[test]
fn a_webview_is_set_up_as_its_options_say() {
    let setup = JsWebview::create(WebviewOptions::<f64>::default(), fallback());
    assert_eq!(
        setup,
        WebviewSetup {
            child: false,
            devtools: Some(true),
            bounds: fallback(),
            incognito: Some(false),
            preload: None,
            transparent: Some(false),
            autoplay: Some(true),
            clipboard: Some(true),
            back_forward_navigation_gestures: Some(true),
            hotkeys_zoom: Some(true),
            theme: None,
            user_agent: Some("WebviewJS".to_string()),
            html: None,
            url: None,
        }
    );
    let options = WebviewOptions {
        url: Some("u".to_string()),
        html: Some("h".to_string()),
        width: Some(10.0),
        height: None,
        x: None,
        y: Some(5.0),
        enable_devtools: None,
        incognito: None,
        user_agent: None,
        child: Some(true),
        preload: Some("p".to_string()),
        transparent: None,
        theme: Some(Theme::Dark),
        hotkeys_zoom: None,
        clipboard: None,
        autoplay: None,
        back_forward_navigation_gestures: None,
    };
    assert_eq!(
        JsWebview::create(options, fallback()),
        WebviewSetup {
            child: true,
            devtools: None,
            bounds: Bounds { x: 0.0, y: 5.0, width: 10.0, height: 600.0 },
            incognito: None,
            preload: Some("p".to_string()),
            transparent: None,
            autoplay: None,
            clipboard: None,
            back_forward_navigation_gestures: None,
            hotkeys_zoom: None,
            theme: Some(WryTheme::Dark),
            user_agent: None,
            html: Some("h".to_string()),
            url: Some("u".to_string()),
        }
    );
}

#[test]
fn a_webview_cannot_be_made_out_of_nothing() {
    assert_eq!(JsWebview::new(), Err(failure("Webview constructor is not directly supported")));
}

#[test]
fn webview_complaints_get_their_context() {
    let complaint = || Err("boom".to_string());
    assert_eq!(JsWebview::created(Ok(())), Ok(JsWebview {}));
    assert_eq!(JsWebview::created(complaint()), Err(failure("Failed to create webview: boom")));
    assert_eq!(JsWebview::print(Ok(())), Ok(()));
    assert_eq!(JsWebview::print(complaint()), Err(failure("Failed to print: boom")));
    assert_eq!(JsWebview::zoom(complaint()), Err(failure("Failed to zoom: boom")));
    assert_eq!(
        JsWebview::set_webview_visibility(complaint()),
        Err(failure("Failed to set webview visibility: boom"))
    );
    assert_eq!(JsWebview::load_url(complaint()), Err(failure("Failed to load URL: boom")));
    assert_eq!(JsWebview::load_html(complaint()), Err(failure("Failed to load HTML: boom")));
    assert_eq!(JsWebview::evaluate_script(complaint()), Err(failure("boom")));
    assert_eq!(JsWebview::evaluate_script_with_callback(complaint()), Err(failure("boom")));
    assert_eq!(JsWebview::evaluate_script_with_callback(Ok(())), Ok(()));
    assert_eq!(JsWebview::reload(complaint()), Err(failure("Failed to reload: boom")));
    assert_eq!(JsWebview::reload(Ok(())), Ok(()));
}
