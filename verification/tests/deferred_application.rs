use webviewjs::high_level::{
    get_webview_version, Application, ApplicationEvent, ApplicationOptions, BrowserWindow,
    BrowserWindowOptions, ControlFlow, Dimensions, FullscreenType, IconSource,
    IterationStep, Monitor, RunStep, Theme, WebviewApplicationEvent, WebviewOptions,
};
use webviewjs::error::{JsError, Status};
use webviewjs::tao::enums::TaoTheme;
use webviewjs::tao::structs::{
    Icon, Iteration, LoopControl, LoopEvent, MonitorInfo, Position, Size, Window, WindowCommand,
    WindowPlan,
};
use webviewjs::wry::structs::{
    InitializationScript, Rect, WebViewBuilder, WebviewBuild, WebviewContent, WebviewPlan,
};

fn default_size() -> Dimensions<f64> {
    Dimensions { width: 800.0, height: 600.0 }
}

fn no_window_options() -> BrowserWindowOptions<f64> {
    BrowserWindowOptions {
        resizable: None,
        title: None,
        width: None,
        height: None,
        x: None,
        y: None,
        content_protection: None,
        always_on_top: None,
        always_on_bottom: None,
        visible: None,
        decorations: None,
        visible_on_all_workspaces: None,
        maximized: None,
        maximizable: None,
        minimizable: None,
        focused: None,
        transparent: None,
        fullscreen: None,
    }
}

fn no_webview_options() -> WebviewOptions {
    WebviewOptions {
        url: None,
        html: None,
        width: None,
        height: None,
        x: None,
        y: None,
        enable_devtools: None,
        incognito: None,
        user_agent: None,
        child: None,
        preload: None,
        transparent: None,
        theme: None,
        hotkeys_zoom: None,
        clipboard: None,
        autoplay: None,
        back_forward_navigation_gestures: None,
    }
}

#[test]
fn a_new_application_waits_for_nothing() {
    let options = ApplicationOptions {
        control_flow: Some(ControlFlow::Exit),
        wait_time: Some(5),
        exit_code: Some(1),
    };
    let app: Application<f64, u32> = Application::new(Some(options), default_size());
    assert!(app.event_loop_available);
    assert!(app.windows_to_create.is_empty());
    assert!(!app.exit_requested);
    assert_eq!(app.default_size, default_size());
}

#[test]
fn a_window_without_options_gets_the_default_ones() {
    let mut app: Application<f64, u32> = Application::new(None, default_size());
    app.create_browser_window(None, 7);
    assert_eq!(app.windows_to_create.len(), 1);
    let pending = &app.windows_to_create[0];
    assert_eq!(pending.handle, 7);
    let expected = BrowserWindowOptions {
        resizable: Some(true),
        title: Some("Webview".to_string()),
        width: Some(800.0),
        height: Some(600.0),
        visible: Some(true),
        decorations: Some(true),
        ..no_window_options()
    };
    assert_eq!(pending.options, expected);
}

#[test]
fn windows_wait_in_the_order_asked_and_are_handed_out_once() {
    let mut app: Application<f64, u32> = Application::new(None, default_size());
    let first = BrowserWindowOptions { title: Some("one".to_string()), ..no_window_options() };
    let second = BrowserWindowOptions { title: Some("two".to_string()), ..no_window_options() };
    app.create_browser_window(Some(first.clone()), 1);
    app.create_browser_window(Some(second.clone()), 2);
    app.create_browser_window(None, 3);

    let pending = app.process_pending_items();
    assert_eq!(pending.len(), 3);
    assert_eq!(pending[0].options, first);
    assert_eq!(pending[0].handle, 1);
    assert_eq!(pending[1].options, second);
    assert_eq!(pending[1].handle, 2);
    assert_eq!(pending[2].handle, 3);
    assert!(app.windows_to_create.is_empty());

    assert!(app.process_pending_items().is_empty());
}

#[test]
fn a_window_plan_fills_in_what_is_left_out() {
    let plan = no_window_options().plan(default_size());
    let expected: WindowPlan<f64, f64> = WindowPlan {
        title: String::new(),
        width: 800.0,
        height: 600.0,
        resizable: true,
        decorations: true,
        always_on_top: false,
        visible: true,
        transparent: false,
        platform_transparency: false,
        maximized: false,
        focused: true,
        position: None,
    };
    assert_eq!(plan, expected);
}

#[test]
fn a_window_plan_takes_what_is_given() {
    let options = BrowserWindowOptions {
        resizable: Some(false),
        title: Some("Docs".to_string()),
        width: Some(1024.5),
        height: Some(300.0),
        x: Some(10.0),
        y: Some(-20.0),
        always_on_top: Some(true),
        visible: Some(false),
        decorations: Some(false),
        maximized: Some(true),
        focused: Some(false),
        transparent: Some(true),
        content_protection: Some(true),
        always_on_bottom: Some(true),
        visible_on_all_workspaces: Some(true),
        maximizable: Some(false),
        minimizable: Some(false),
        fullscreen: Some(FullscreenType::Borderless),
    };
    let plan = options.plan(default_size());
    let expected: WindowPlan<f64, f64> = WindowPlan {
        title: "Docs".to_string(),
        width: 1024.5,
        height: 300.0,
        resizable: false,
        decorations: false,
        always_on_top: true,
        visible: false,
        transparent: true,
        platform_transparency: true,
        maximized: true,
        focused: false,
        position: Some((10.0, -20.0)),
    };
    assert_eq!(plan, expected);
}

#[test]
fn a_window_is_placed_only_with_both_coordinates() {
    let only_x = BrowserWindowOptions { x: Some(5.0), ..no_window_options() };
    let only_y = BrowserWindowOptions { y: Some(5.0), ..no_window_options() };
    assert_eq!(only_x.plan(default_size()).position, None);
    assert_eq!(only_y.plan(default_size()).position, None);
}

#[test]
fn the_application_plans_with_its_default_size() {
    let mut app: Application<f64, u32> =
        Application::new(None, Dimensions { width: 640.0, height: 480.0 });
    app.create_browser_window(Some(no_window_options()), 1);
    app.create_browser_window(None, 2);
    let pending = app.process_pending_items();
    let bare = app.window_plan(&pending[0]);
    assert_eq!(bare.width, 640.0);
    assert_eq!(bare.height, 480.0);
    assert_eq!(bare.title, "");
    let default = app.window_plan(&pending[1]);
    assert_eq!(default.width, 640.0);
    assert_eq!(default.height, 480.0);
    assert_eq!(default.title, "Webview");
}

#[test]
fn exit_is_remembered() {
    let mut app: Application<f64, u32> = Application::new(None, default_size());
    app.create_browser_window(None, 1);
    app.exit();
    assert!(app.exit_requested);
    assert!(app.event_loop_available);
    assert_eq!(app.windows_to_create.len(), 1);
}

#[test]
fn the_loop_is_handed_out_once() {
    let mut app: Application<f64, u32> = Application::new(None, default_size());
    assert!(app.run());
    assert!(!app.event_loop_available);
    assert!(!app.run());
}

#[test]
fn a_running_loop_handles_events() {
    let mut app: Application<f64, u32> = Application::new(None, default_size());
    assert_eq!(
        app.run_step(LoopEvent::Other),
        RunStep { control: LoopControl::Wait, process_pending: true, notify: None }
    );
    assert_eq!(
        app.run_step(LoopEvent::RedrawEventsCleared),
        RunStep { control: LoopControl::Wait, process_pending: true, notify: None }
    );
    assert_eq!(
        app.run_step(LoopEvent::CloseRequested),
        RunStep {
            control: LoopControl::Exit,
            process_pending: true,
            notify: Some(ApplicationEvent {
                event: WebviewApplicationEvent::WindowCloseRequested
            }),
        }
    );
    app.exit();
    for event in [LoopEvent::Other, LoopEvent::CloseRequested, LoopEvent::RedrawEventsCleared] {
        assert_eq!(
            app.run_step(event),
            RunStep { control: LoopControl::Exit, process_pending: false, notify: None }
        );
    }
}

#[test]
fn a_single_pass_begins_by_the_state_of_the_application() {
    let mut app: Application<f64, u32> = Application::new(None, default_size());
    assert_eq!(app.run_iteration(), Iteration::Pump { keep_running: true });
    app.exit();
    assert_eq!(app.run_iteration(), Iteration::Done(false));
    let _ = app.run();
    assert_eq!(app.run_iteration(), Iteration::Done(true));
}

#[test]
fn a_single_pass_handles_events() {
    assert_eq!(
        Application::<f64, u32>::iteration_step(true, LoopEvent::Other),
        IterationStep { keep_running: true, control: LoopControl::Poll, notify: None }
    );
    assert_eq!(
        Application::<f64, u32>::iteration_step(true, LoopEvent::RedrawEventsCleared),
        IterationStep { keep_running: true, control: LoopControl::Exit, notify: None }
    );
    assert_eq!(
        Application::<f64, u32>::iteration_step(false, LoopEvent::RedrawEventsCleared),
        IterationStep { keep_running: false, control: LoopControl::Exit, notify: None }
    );
    assert_eq!(
        Application::<f64, u32>::iteration_step(true, LoopEvent::CloseRequested),
        IterationStep {
            keep_running: false,
            control: LoopControl::Exit,
            notify: Some(ApplicationEvent {
                event: WebviewApplicationEvent::WindowCloseRequested
            }),
        }
    );
}

#[test]
fn webviews_wait_on_their_window() {
    let mut window: BrowserWindow<u8> = BrowserWindow::new();
    assert!(window.inner.is_none());
    let with_url = WebviewOptions { url: Some("https://a.example".to_string()), ..no_webview_options() };
    assert_eq!(window.create_webview(Some(with_url.clone()), 1), Ok(()));
    assert_eq!(window.create_webview(None, 2), Ok(()));
    assert_eq!(window.webviews_to_create.len(), 2);
    assert_eq!(window.webviews_to_create[1].options, no_webview_options());

    let pending = window.window_created(Window { initialized: true });
    assert_eq!(pending.len(), 2);
    assert_eq!(pending[0].options, with_url);
    assert_eq!(pending[0].handle, 1);
    assert_eq!(pending[1].handle, 2);
    assert_eq!(window.inner, Some(Window { initialized: true }));
    assert!(window.webviews_to_create.is_empty());

    // a webview asked for later waits for a turn that does not come
    assert_eq!(window.create_webview(None, 3), Ok(()));
    assert_eq!(window.webviews_to_create.len(), 1);
}

#[test]
fn webview_options_configure_a_builder() {
    let options = WebviewOptions {
        url: Some("https://a.example".to_string()),
        html: Some("<p>".to_string()),
        width: Some(300),
        height: Some(200),
        x: Some(-4),
        y: Some(9),
        enable_devtools: Some(false),
        incognito: Some(true),
        user_agent: Some("agent".to_string()),
        child: Some(true),
        preload: Some("boot()".to_string()),
        transparent: Some(true),
        theme: Some(Theme::Dark),
        hotkeys_zoom: Some(false),
        clipboard: Some(false),
        autoplay: Some(false),
        back_forward_navigation_gestures: Some(true),
    };
    let builder: WebViewBuilder<u8> = options.builder().unwrap();
    let mut expected: WebViewBuilder<u8> = WebViewBuilder::new().unwrap();
    expected.attributes.url = Some("https://a.example".to_string());
    expected.attributes.html = Some("<p>".to_string());
    expected.attributes.width = 300;
    expected.attributes.height = 200;
    expected.attributes.x = -4;
    expected.attributes.y = 9;
    expected.attributes.devtools = false;
    expected.attributes.incognito = true;
    expected.attributes.user_agent = Some("agent".to_string());
    expected.attributes.transparent = true;
    expected.attributes.hotkeys_zoom = false;
    expected.attributes.clipboard = false;
    expected.attributes.autoplay = false;
    expected.attributes.back_forward_navigation_gestures = true;
    expected.attributes.initialization_scripts =
        vec![InitializationScript { js: "boot()".to_string(), once: false }];
    assert_eq!(builder, expected);
}

fn planned(options: WebviewOptions) -> WebviewPlan {
    let mut listeners = vec![7u8];
    let build = options.plan_on(&Window { initialized: true }, &mut listeners);
    // options bring no handlers of their own
    assert_eq!(listeners, vec![7]);
    match build {
        Ok(WebviewBuild { plan, label }) => {
            assert_eq!(label, "webview");
            plan
        }
        Err(e) => panic!("a window that is made takes a webview: {:?}", e),
    }
}

#[test]
fn webview_options_come_to_a_plan() {
    assert_eq!(
        planned(no_webview_options()),
        WebviewPlan {
            transparent: false,
            background_color: None,
            bounds: Rect { x: 0, y: 0, width: 800, height: 600 },
            content: WebviewContent::Empty,
            devtools: true,
            hotkeys_zoom: true,
            incognito: false,
            autoplay: true,
            clipboard: true,
            back_forward_navigation_gestures: false,
            initialization_scripts: vec![],
        }
    );
    let options = WebviewOptions {
        url: Some("https://a.example".to_string()),
        html: Some("<p>".to_string()),
        width: Some(300),
        height: Some(200),
        x: Some(-4),
        y: Some(9),
        enable_devtools: Some(false),
        incognito: Some(true),
        user_agent: Some("agent".to_string()),
        child: Some(true),
        preload: Some("boot()".to_string()),
        transparent: Some(true),
        theme: Some(Theme::Dark),
        hotkeys_zoom: Some(false),
        clipboard: Some(false),
        autoplay: Some(false),
        back_forward_navigation_gestures: Some(true),
    };
    assert_eq!(
        planned(options),
        WebviewPlan {
            transparent: true,
            background_color: Some((0, 0, 0, 0)),
            bounds: Rect { x: -4, y: 9, width: 300, height: 200 },
            content: WebviewContent::Url("https://a.example".to_string()),
            devtools: false,
            hotkeys_zoom: false,
            incognito: true,
            autoplay: false,
            clipboard: false,
            back_forward_navigation_gestures: true,
            initialization_scripts: vec!["boot()".to_string()],
        }
    );
    let markup_only = WebviewOptions { html: Some("<p>".to_string()), ..no_webview_options() };
    assert_eq!(planned(markup_only).content, WebviewContent::Html("<p>".to_string()));
}

#[test]
fn a_webview_that_waited_needs_its_window() {
    let mut listeners = vec![7u8];
    let r = no_webview_options().plan_on(&Window { initialized: false }, &mut listeners);
    assert_eq!(
        r,
        Err(JsError { status: Status::GenericFailure, reason: "Window not initialized".to_string() })
    );
    assert_eq!(listeners, vec![7]);
}

#[test]
fn a_pass_of_the_application_reports_false_exactly_after_a_close_request() {
    let pass = |events: &[LoopEvent]| {
        let mut keep_running = true;
        for event in events {
            keep_running =
                Application::<f64, u32>::iteration_step(keep_running, *event).keep_running;
        }
        keep_running
    };
    assert!(pass(&[]));
    assert!(pass(&[LoopEvent::Other, LoopEvent::RedrawEventsCleared]));
    assert!(!pass(&[LoopEvent::Other, LoopEvent::CloseRequested, LoopEvent::Other]));
}

#[test]
fn no_webview_options_leave_a_fresh_builder() {
    let builder: WebViewBuilder<u8> = no_webview_options().builder().unwrap();
    let fresh: WebViewBuilder<u8> = WebViewBuilder::new().unwrap();
    assert_eq!(builder, fresh);
}

#[test]
fn window_answers_have_defaults() {
    assert_eq!(BrowserWindow::<u8>::id(None), "uninitialized");
    assert_eq!(BrowserWindow::<u8>::id(Some("WindowId(3)".to_string())), "WindowId(3)");
    assert!(!BrowserWindow::<u8>::is_focused(None));
    assert!(BrowserWindow::<u8>::is_focused(Some(true)));
    assert!(BrowserWindow::<u8>::is_visible(None));
    assert!(!BrowserWindow::<u8>::is_visible(Some(false)));
    assert!(BrowserWindow::<u8>::is_decorated(None));
    assert!(!BrowserWindow::<u8>::is_decorated(Some(false)));
    assert!(!BrowserWindow::<u8>::is_maximized(None));
    assert!(BrowserWindow::<u8>::is_maximized(Some(true)));
    assert!(!BrowserWindow::<u8>::is_minimized(None));
    assert!(BrowserWindow::<u8>::is_minimized(Some(true)));
    assert!(BrowserWindow::<u8>::is_resizable(None));
    assert!(!BrowserWindow::<u8>::is_resizable(Some(false)));
    assert_eq!(BrowserWindow::<u8>::title(None), "");
    assert_eq!(BrowserWindow::<u8>::title(Some("T".to_string())), "T");
    let window: BrowserWindow<u8> = BrowserWindow::new();
    assert!(!window.is_child());
    assert!(window.is_minimizable());
    assert_eq!(window.fullscreen(), None);
}

#[test]
fn the_theme_is_dark_only_where_the_window_is() {
    assert_eq!(BrowserWindow::<u8>::theme(None), Theme::Light);
    assert_eq!(BrowserWindow::<u8>::theme(Some(None)), Theme::Light);
    assert_eq!(BrowserWindow::<u8>::theme(Some(Some(TaoTheme::Light))), Theme::Light);
    assert_eq!(BrowserWindow::<u8>::theme(Some(Some(TaoTheme::Dark))), Theme::Dark);
}

#[test]
fn a_theme_is_set_only_on_a_window_that_is_made() {
    let mut window: BrowserWindow<u8> = BrowserWindow::new();
    assert_eq!(window.set_theme(Theme::Dark), None);
    let _ = window.window_created(Window { initialized: true });
    assert_eq!(window.set_theme(Theme::Dark), Some(WindowCommand::SetTheme(TaoTheme::Dark)));
    assert_eq!(window.set_theme(Theme::Light), Some(WindowCommand::SetTheme(TaoTheme::Light)));
    assert_eq!(window.set_theme(Theme::System), Some(WindowCommand::SetTheme(TaoTheme::Light)));
}

#[test]
fn a_window_that_is_not_made_takes_no_command() {
    let window: BrowserWindow<u8> = BrowserWindow::new();
    assert_eq!(window.set_title("t".to_string()), None);
    assert_eq!(window.set_visible(true), None);
    assert_eq!(window.set_maximized(true), None);
    assert_eq!(window.set_minimized(true), None);
    assert_eq!(window.focus(), None);
    assert_eq!(window.set_always_on_top(true), None);
    assert_eq!(window.set_decorations(true), None);
    assert_eq!(window.show(), None);
}

#[test]
fn a_window_that_is_made_passes_commands_on() {
    let mut window: BrowserWindow<u8> = BrowserWindow::new();
    let _ = window.window_created(Window { initialized: true });
    assert_eq!(window.set_title("t".to_string()), Some(WindowCommand::SetTitle("t".to_string())));
    assert_eq!(window.set_visible(false), Some(WindowCommand::SetVisible(false)));
    assert_eq!(window.set_maximized(true), Some(WindowCommand::SetMaximized(true)));
    assert_eq!(window.set_minimized(true), Some(WindowCommand::SetMinimized(true)));
    assert_eq!(window.focus(), Some(WindowCommand::SetFocus));
    assert_eq!(window.set_always_on_top(true), Some(WindowCommand::SetAlwaysOnTop(true)));
    assert_eq!(window.set_decorations(false), Some(WindowCommand::SetDecorations(false)));
    assert_eq!(window.show(), Some(WindowCommand::SetVisible(true)));
}

#[test]
fn an_icon_is_set_from_pixels_only() {
    let mut window: BrowserWindow<u8> = BrowserWindow::new();
    assert_eq!(window.set_window_icon(IconSource::Bytes(vec![1, 2, 3, 4]), 1, 1), None);
    let _ = window.window_created(Window { initialized: true });
    assert_eq!(
        window.set_window_icon(IconSource::Bytes(vec![1, 2, 3, 4]), 1, 1),
        Some(Icon { width: 1, height: 1, rgba: vec![1, 2, 3, 4] })
    );
    assert_eq!(window.set_window_icon(IconSource::Path("icon.png".to_string()), 1, 1), None);
}

fn monitor(name: Option<&str>, width: f64) -> MonitorInfo<f64> {
    MonitorInfo {
        name: name.map(|n| n.to_string()),
        size: Size { width, height: 1080.0 },
        position: Position { x: 1.0, y: 2.0 },
        scale_factor: 1.5,
    }
}

#[test]
fn monitors_are_shown_without_video_modes() {
    let monitors = vec![monitor(Some("left"), 1920.0), monitor(None, 2560.0)];
    let shown = BrowserWindow::<u8>::get_available_monitors(&monitors);
    assert_eq!(
        shown,
        vec![
            Monitor {
                name: Some("left".to_string()),
                scale_factor: 1.5,
                size: Dimensions { width: 1920.0, height: 1080.0 },
                position: Position { x: 1.0, y: 2.0 },
                video_modes: vec![],
            },
            Monitor {
                name: None,
                scale_factor: 1.5,
                size: Dimensions { width: 2560.0, height: 1080.0 },
                position: Position { x: 1.0, y: 2.0 },
                video_modes: vec![],
            },
        ]
    );
    assert!(BrowserWindow::<u8>::get_available_monitors::<f64>(&vec![]).is_empty());
}

#[test]
fn the_primary_monitor_is_always_shown() {
    let shown = BrowserWindow::<u8>::get_primary_monitor(&monitor(None, 1920.0));
    assert_eq!(
        shown,
        Some(Monitor {
            name: None,
            scale_factor: 1.5,
            size: Dimensions { width: 1920.0, height: 1080.0 },
            position: Position { x: 1.0, y: 2.0 },
            video_modes: vec![],
        })
    );
}

#[test]
fn the_webview_version_may_be_unknown() {
    assert_eq!(get_webview_version(Some("2.40.1".to_string())), "2.40.1");
    assert_eq!(get_webview_version(None), "unknown");
}
