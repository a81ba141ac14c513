use re_viewer::analytics::AnalyticsEvent;
use re_viewer::app::App;
use re_viewer::app::AppEnvironment;
use re_viewer::app::AppOptions;
use re_viewer::app::AppState;
use re_viewer::app::BuildInfo;
use re_viewer::app::Defaults;
use re_viewer::app::PreviousVersion;
use re_viewer::app::StartupOptions;
use re_viewer::app::StoredState;
use re_viewer::commands::Effect;
use re_viewer::commands::Severity;
use re_viewer::commands::SystemCommand;
use re_viewer::commands::UICommand;
use re_viewer::types::DatasetUri;
use re_viewer::types::DisplayMode;
use re_viewer::types::Fragment;
use re_viewer::types::LogReceiver;
use re_viewer::types::LogSource;
use re_viewer::types::Platform;
use re_viewer::types::StoreId;

fn startup_options() -> StartupOptions {
    StartupOptions {
        persist_state: true,
        is_in_notebook: false,
        expect_data_soon: None,
        hide_welcome_screen: false,
        web_history_enabled: false,
        enable_history: false,
        screenshot_to_path_then_quit: None,
        resolution_in_points: None,
        memory_limit: None,
        on_event: false,
        fullscreen_options: false,
        video_decoder_hw_acceleration: None,
    }
}

fn defaults() -> Defaults {
    Defaults {
        app_options: AppOptions {
            inspect_blueprint_timeline: false,
            show_metrics: true,
            show_notification_toasts: true,
            blueprint_gc: true,
            video_decoder_hw_acceleration: 0,
        },
        home: DisplayMode::RedapServer("home".to_owned()),
        examples_origin: "examples".to_owned(),
        welcome_screen_app_id: "welcome".to_owned(),
    }
}

fn start(
    platform: Platform,
    app_env: AppEnvironment,
    options: StartupOptions,
    stored: StoredState,
    previous: PreviousVersion,
) -> (App, Vec<Effect>) {
    App::with_commands(
        platform,
        BuildInfo {
            version: "0.27.0".to_owned(),
            analytics: false,
        },
        app_env,
        options,
        defaults(),
        stored,
        previous,
    )
}

fn other() -> AppEnvironment {
    AppEnvironment::Other("cli".to_owned())
}

#[test]
fn a_first_start_has_the_default_state() {
    let (app, effects) = start(
        Platform::Native,
        other(),
        startup_options(),
        StoredState::NoStorage,
        PreviousVersion::Unknown,
    );
    assert_eq!(effects, vec![]);
    assert_eq!(app.state, AppState::new(&defaults()));
    assert_eq!(app.app_options(), &defaults().app_options);
    assert_eq!(app.build_info().version, "0.27.0");
    assert_eq!(app.app_env(), &other());
    assert_eq!(app.startup_options(), &startup_options());
    assert!(app.msg_receive_set().is_empty());
    assert!(app.panel_state_overrides_active);
    assert!(!app.memory_panel_open && !app.egui_debug_panel_open);
}

#[test]
fn starts_are_recorded() {
    let build_info = || BuildInfo {
        version: "1".to_owned(),
        analytics: true,
    };
    let mut state = AppState::new(&defaults());
    state.redap_servers.push("server".to_owned());
    let (_, effects) = App::with_commands(
        Platform::Native,
        build_info(),
        other(),
        startup_options(),
        defaults(),
        StoredState::Found(state),
        PreviousVersion::Unknown,
    );
    assert_eq!(
        effects,
        vec![
            Effect::UseSystemTheme,
            Effect::Record(AnalyticsEvent::Identify {
                build_info: build_info(),
                app_env: other(),
            }),
            Effect::Record(AnalyticsEvent::ViewerStarted { app_env: other() }),
            Effect::SendUi(UICommand::ExpandBlueprintPanel),
        ]
    );
}

#[test]
fn an_unreadable_state_is_worth_a_warning() {
    let (app, effects) = start(
        Platform::Native,
        other(),
        startup_options(),
        StoredState::Unreadable,
        PreviousVersion::Known { major: 0, minor: 24 },
    );
    assert_eq!(
        effects,
        vec![Effect::Report {
            severity: Severity::Warning,
            text: "Failed to restore application state. This is expected if you have just upgraded Rerun versions."
                .to_owned(),
        }]
    );
    assert_eq!(app.state, AppState::new(&defaults()));
}

#[test]
fn the_stored_state_is_restored() {
    let stored = || {
        let mut state = AppState::new(&defaults());
        state.redap_servers.push("server".to_owned());
        state.app_options.video_decoder_hw_acceleration = 3;
        StoredState::Found(state)
    };
    let (app, effects) = start(
        Platform::Native,
        other(),
        startup_options(),
        stored(),
        PreviousVersion::Known { major: 0, minor: 24 },
    );
    assert_eq!(
        effects,
        vec![Effect::SendUi(UICommand::ExpandBlueprintPanel)]
    );
    assert_eq!(app.state.redap_servers, vec!["server"]);
    assert_eq!(app.app_options().video_decoder_hw_acceleration, 3);

    let mut options = startup_options();
    options.persist_state = false;
    let (app, effects) = start(
        Platform::Native,
        other(),
        options,
        stored(),
        PreviousVersion::Unknown,
    );
    assert_eq!(effects, vec![]);
    assert!(app.state.redap_servers.is_empty());
}

#[test]
fn old_versions_had_a_fixed_theme() {
    let theme = |stored: StoredState, previous: PreviousVersion| {
        start(Platform::Native, other(), startup_options(), stored, previous).1
    };
    assert_eq!(
        theme(StoredState::Absent, PreviousVersion::Unknown),
        vec![Effect::UseSystemTheme]
    );
    assert_eq!(
        theme(StoredState::Absent, PreviousVersion::Known { major: 0, minor: 23 }),
        vec![Effect::UseSystemTheme]
    );
    assert_eq!(theme(StoredState::Absent, PreviousVersion::Known { major: 0, minor: 24 }), vec![]);
    assert_eq!(
        theme(StoredState::NoStorage, PreviousVersion::Unknown),
        vec![]
    );
}

#[test]
fn options_override_the_state() {
    let mut options = startup_options();
    options.video_decoder_hw_acceleration = Some(2);
    options.screenshot_to_path_then_quit = Some("shot.png".to_owned());
    let (app, effects) = start(
        Platform::Native,
        AppEnvironment::Test,
        options,
        StoredState::NoStorage,
        PreviousVersion::Unknown,
    );
    assert_eq!(
        effects,
        vec![Effect::ScreenshotThenQuit("shot.png".to_owned())]
    );
    assert_eq!(app.app_options().video_decoder_hw_acceleration, 2);
    assert!(!app.app_options().show_metrics);

    let mut options = startup_options();
    options.screenshot_to_path_then_quit = Some("shot.png".to_owned());
    let (_, effects) = start(
        Platform::Web,
        other(),
        options,
        StoredState::NoStorage,
        PreviousVersion::Unknown,
    );
    assert_eq!(effects, vec![]);
}

fn viewer() -> App {
    start(
        Platform::Native,
        other(),
        startup_options(),
        StoredState::NoStorage,
        PreviousVersion::Unknown,
    )
    .0
}

#[test]
fn options_can_be_changed() {
    let mut app = viewer();
    app.app_options_mut().blueprint_gc = false;
    assert!(!app.app_options().blueprint_gc);
}

#[test]
fn receivers_wake_the_viewer() {
    let mut app = viewer();
    let effects = app.add_log_receiver(LogReceiver {
        source: LogSource::Sdk,
        handle: 4,
    });
    assert_eq!(
        effects,
        vec![
            Effect::WakeOnMessage {
                handle: 4,
                millis: 10
            },
            Effect::AttachReceiver(4),
        ]
    );
    let uri = DatasetUri {
        text: "rerun://server/x".to_owned(),
        base: "rerun://server/x".to_owned(),
        origin: "rerun://server".to_owned(),
        store_id: StoreId::recording("a".to_owned(), "b".to_owned()),
        fragment: Fragment {
            selection: None,
            when: None,
            time_selection: None,
        },
    };
    let effects = app.add_log_receiver(LogReceiver {
        source: LogSource::RedapGrpcStream {
            uri,
            select_when_loaded: true,
        },
        handle: 5,
    });
    assert_eq!(
        effects[1],
        Effect::SendSystem(SystemCommand::AddRedapServer("rerun://server".to_owned()))
    );
    assert_eq!(app.msg_receive_set().len(), 2);
}

#[test]
fn examples_can_come_from_elsewhere() {
    assert_eq!(
        viewer().set_examples_manifest_url("http://x".to_owned()),
        vec![
            Effect::Report {
                severity: Severity::Info,
                text: "Using manifest_url=\"http://x\"".to_owned(),
            },
            Effect::SetExamplesManifestUrl("http://x".to_owned()),
        ]
    );
}

#[test]
fn the_host_is_asked_for_full_screen() {
    let mut app = viewer();
    assert!(!app.is_fullscreen_allowed());
    assert_eq!(app.is_fullscreen_mode(Ok(true)), (false, vec![]));
    assert_eq!(
        app.is_fullscreen_mode(Err("js".to_owned())),
        (false, vec![])
    );
    app.startup_options.fullscreen_options = true;
    assert!(app.is_fullscreen_allowed());
    assert_eq!(app.is_fullscreen_mode(Ok(true)), (true, vec![]));
    assert_eq!(app.is_fullscreen_mode(Ok(false)), (false, vec![]));
    assert_eq!(
        app.is_fullscreen_mode(Err("js".to_owned())),
        (
            false,
            vec![Effect::ReportOnce {
                severity: Severity::Error,
                text: "js".to_owned(),
            }]
        )
    );
}
