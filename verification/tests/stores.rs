use re_viewer::analytics::AnalyticsEvent;
use re_viewer::analytics::DataSourceAnalytics;
use re_viewer::app::App;
use re_viewer::app::AppEnvironment;
use re_viewer::app::AppOptions;
use re_viewer::app::BuildInfo;
use re_viewer::app::Defaults;
use re_viewer::app::PreviousVersion;
use re_viewer::app::StartupOptions;
use re_viewer::app::StoredState;
use re_viewer::commands::Effect;
use re_viewer::commands::Severity;
use re_viewer::commands::SystemCommand;
use re_viewer::stores::load_data_source;
use re_viewer::stores::make_store_active_and_highlight;
use re_viewer::stores::try_make_recording_from_source_active;
use re_viewer::types::DatasetUri;
use re_viewer::types::DisplayMode;
use re_viewer::types::FileContents;
use re_viewer::types::FileSource;
use re_viewer::types::Fragment;
use re_viewer::types::Item;
use re_viewer::types::ItemCollection;
use re_viewer::types::LogDataSource;
use re_viewer::types::LogReceiver;
use re_viewer::types::LogSource;
use re_viewer::types::Platform;
use re_viewer::types::PlayState;
use re_viewer::types::StoreId;
use re_viewer::types::StoreKind;
use re_viewer::types::TimeControlCommand;
use re_viewer::types::TimeCursor;

fn recording() -> StoreId {
    StoreId::recording("app".to_owned(), "rec".to_owned())
}

fn blueprint() -> StoreId {
    StoreId {
        kind: StoreKind::Blueprint,
        application_id: "app".to_owned(),
        recording_id: "bp".to_owned(),
    }
}

fn activation() -> Vec<Effect> {
    vec![
        Effect::SetActiveRecording(recording()),
        Effect::SendSystem(SystemCommand::SetSelection(ItemCollection::One(
            Item::StoreId(recording()),
        ))),
        Effect::RequestUserAttention,
    ]
}

fn uri() -> DatasetUri {
    DatasetUri {
        text: "rerun://server/x".to_owned(),
        base: "rerun://server/x".to_owned(),
        origin: "rerun://server".to_owned(),
        store_id: recording(),
        fragment: Fragment {
            selection: None,
            when: Some(TimeCursor {
                timeline: "frame".to_owned(),
                time: 1,
            }),
            time_selection: None,
        },
    }
}

fn http(follow: bool) -> LogDataSource {
    LogDataSource::RrdHttpUrl {
        url: "http://x".to_owned(),
        follow,
    }
}

#[test]
fn recordings_can_be_active() {
    assert_eq!(make_store_active_and_highlight(&recording()), activation());
    assert_eq!(
        make_store_active_and_highlight(&blueprint()),
        vec![Effect::ReportStore {
            severity: Severity::Warning,
            before: "Can't make a blueprint active: ".to_owned(),
            store_id: blueprint(),
            after: ". This is likely a bug in Rerun.".to_owned(),
        }]
    );
    assert_eq!(
        try_make_recording_from_source_active(&Some(recording())),
        activation()
    );
    assert_eq!(try_make_recording_from_source_active(&None), vec![]);
}

#[test]
fn new_data_is_opened() {
    assert_eq!(
        load_data_source(http(true), false, Some(recording())),
        vec![Effect::OpenStream(http(true))]
    );
    let contents = || {
        LogDataSource::FileContents(
            FileSource::Other,
            FileContents {
                name: "n".to_owned(),
                bytes: vec![1],
            },
        )
    };
    assert_eq!(
        load_data_source(contents(), true, None),
        vec![Effect::OpenStream(contents())]
    );
}

#[test]
fn present_data_is_switched_to() {
    assert_eq!(load_data_source(http(true), true, None), vec![]);
    assert_eq!(
        load_data_source(http(false), true, Some(recording())),
        activation()
    );
    let mut expected = activation();
    expected.insert(
        0,
        Effect::SendSystem(SystemCommand::TimeControlCommands {
            store_id: recording(),
            time_commands: vec![TimeControlCommand::SetPlayState(PlayState::Following)],
        }),
    );
    assert_eq!(
        load_data_source(http(true), true, Some(recording())),
        expected
    );
    for source in [
        LogDataSource::Stdin,
        LogDataSource::FilePath(FileSource::Other, "f".to_owned()),
        LogDataSource::RedapProxy("p".to_owned()),
    ] {
        assert_eq!(
            load_data_source(source, true, Some(recording())),
            activation()
        );
    }
}

#[test]
fn present_datasets_apply_their_fragment() {
    let load = |select_when_loaded: bool| {
        load_data_source(
            LogDataSource::RedapDatasetSegment {
                uri: uri(),
                select_when_loaded,
            },
            true,
            None,
        )
    };
    let quiet = load(false);
    assert_eq!(quiet.len(), 1);
    assert!(matches!(
        quiet[0],
        Effect::SendSystem(SystemCommand::BackgroundTimeControlCommands { .. })
    ));
    let selecting = load(true);
    assert_eq!(selecting[..3], activation()[..]);
    assert_eq!(selecting[3..], quiet[..]);
}

fn file() -> DataSourceAnalytics {
    DataSourceAnalytics {
        source_type: "file".to_owned(),
        file_extension: Some("rrd".to_owned()),
        file_source: None,
    }
}

#[test]
fn opened_streams_are_listened_to() {
    let (mut app, _) = App::with_commands(
        Platform::Native,
        BuildInfo {
            version: "1".to_owned(),
            analytics: false,
        },
        AppEnvironment::Test,
        StartupOptions {
            persist_state: false,
            is_in_notebook: false,
            expect_data_soon: None,
            hide_welcome_screen: false,
            web_history_enabled: false,
            enable_history: false,
            screenshot_to_path_then_quit: None,
            resolution_in_points: None,
            memory_limit: None,
            on_event: false,
            fullscreen_options: false,
            video_decoder_hw_acceleration: None,
        },
        Defaults {
            app_options: AppOptions {
                inspect_blueprint_timeline: false,
                show_metrics: true,
                show_notification_toasts: true,
                blueprint_gc: true,
                video_decoder_hw_acceleration: 0,
            },
            home: DisplayMode::RedapServer("home".to_owned()),
            examples_origin: "examples".to_owned(),
            welcome_screen_app_id: "welcome".to_owned(),
        },
        StoredState::NoStorage,
        PreviousVersion::Unknown,
    );
    assert_eq!(
        app.on_stream_opened(file(), Err("no".to_owned())),
        vec![Effect::Report {
            severity: Severity::Error,
            text: "Failed to open data source: no".to_owned(),
        }]
    );
    assert!(app.msg_receive_set().is_empty());
    let receiver = || LogReceiver {
        source: LogSource::Stdin,
        handle: 3,
    };
    let effects = app.on_stream_opened(file(), Ok(receiver()));
    assert_eq!(effects.len(), 2);
    assert_eq!(effects[1], Effect::AttachReceiver(3));
    assert_eq!(app.msg_receive_set().len(), 1);

    let opened = |started_successfully: bool| {
        Effect::Record(AnalyticsEvent::LoadDataSource {
            data_source: file(),
            started_successfully,
        })
    };
    app.build_info.analytics = true;
    let effects = app.on_stream_opened(file(), Ok(receiver()));
    assert_eq!(effects.len(), 3);
    assert_eq!(effects[0], opened(true));
    let effects = app.on_stream_opened(file(), Err("no".to_owned()));
    assert_eq!(effects.len(), 2);
    assert_eq!(effects[0], opened(false));
}
