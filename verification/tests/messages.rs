use re_viewer::analytics::AnalyticsEvent;
use re_viewer::app::App;
use re_viewer::app::AppEnvironment;
use re_viewer::app::AppOptions;
use re_viewer::app::BuildInfo;
use re_viewer::app::Defaults;
use re_viewer::app::PreviousVersion;
use re_viewer::app::StartupOptions;
use re_viewer::app::StoredState;
use re_viewer::commands::Effect;
use re_viewer::commands::Severity;
use re_viewer::commands::SystemCommand;
use re_viewer::messages::after_message;
use re_viewer::messages::before_adding;
use re_viewer::messages::blueprint_not_set;
use re_viewer::messages::memory_limit_reached;
use re_viewer::messages::on_payload;
use re_viewer::messages::receive_data_source_ui_command;
use re_viewer::messages::receive_table_msg;
use re_viewer::messages::validate_loaded_events;
use re_viewer::messages::LogMsg;
use re_viewer::messages::Payload;
use re_viewer::messages::PayloadStep;
use re_viewer::messages::StoreAfter;
use re_viewer::messages::StoreBefore;
use re_viewer::types::DatasetUri;
use re_viewer::types::DisplayMode;
use re_viewer::types::Fragment;
use re_viewer::types::Item;
use re_viewer::types::ItemCollection;
use re_viewer::types::LogSource;
use re_viewer::types::Platform;
use re_viewer::types::StoreId;
use re_viewer::types::StoreKind;
use re_viewer::types::TimeCursor;

fn viewer(platform: Platform) -> App {
    App::with_commands(
        platform,
        BuildInfo {
            version: "1".to_owned(),
            analytics: false,
        },
        AppEnvironment::Test,
        StartupOptions {
            persist_state: true,
            is_in_notebook: false,
            expect_data_soon: None,
            hide_welcome_screen: false,
            web_history_enabled: false,
            enable_history: true,
            screenshot_to_path_then_quit: None,
            resolution_in_points: None,
            memory_limit: None,
            on_event: true,
            fullscreen_options: false,
            video_decoder_hw_acceleration: None,
        },
        Defaults {
            app_options: AppOptions {
                inspect_blueprint_timeline: false,
                show_metrics: true,
                show_notification_toasts: true,
                blueprint_gc: true,
                video_decoder_hw_acceleration: 0,
            },
            home: DisplayMode::RedapServer("home".to_owned()),
            examples_origin: "examples".to_owned(),
            welcome_screen_app_id: "welcome".to_owned(),
        },
        StoredState::NoStorage,
        PreviousVersion::Unknown,
    )
    .0
}

fn recording() -> StoreId {
    StoreId::recording("app".to_owned(), "rec".to_owned())
}

fn blueprint() -> StoreId {
    StoreId {
        kind: StoreKind::Blueprint,
        application_id: "app".to_owned(),
        recording_id: "bp".to_owned(),
    }
}

fn before(store_id: StoreId, is_known: bool) -> StoreBefore {
    StoreBefore {
        store_id,
        is_active_blueprint: false,
        is_known,
        has_data_source: true,
        is_empty: false,
    }
}

fn after() -> StoreAfter {
    StoreAfter {
        failure: None,
        is_empty: false,
        application_id: Some("app".to_owned()),
        is_example: false,
    }
}

fn added() -> Vec<Effect> {
    vec![Effect::UpdateCaches, Effect::ValidateLoadedEvents]
}

fn activated() -> Vec<Effect> {
    vec![
        Effect::SetActiveRecording(recording()),
        Effect::SendSystem(SystemCommand::SetSelection(ItemCollection::One(
            Item::StoreId(recording()),
        ))),
        Effect::RequestUserAttention,
    ]
}

fn fragment() -> Fragment {
    Fragment {
        selection: None,
        when: Some(TimeCursor {
            timeline: "frame".to_owned(),
            time: 3,
        }),
        time_selection: None,
    }
}

#[test]
fn sources_may_leave() {
    assert_eq!(
        on_payload(Payload::Message, "sdk"),
        PayloadStep::HandleMessage
    );
    assert_eq!(on_payload(Payload::Flush, "sdk"), PayloadStep::TellFlushed);
    assert_eq!(
        on_payload(Payload::Quit(None), "sdk"),
        PayloadStep::Report(vec![])
    );
    assert_eq!(
        on_payload(Payload::Quit(Some("broken pipe".to_owned())), "sdk"),
        PayloadStep::Report(vec![Effect::Report {
            severity: Severity::Warning,
            text: "Data source sdk has left unexpectedly: broken pipe".to_owned(),
        }])
    );
}

#[test]
fn messages_have_ten_milliseconds() {
    assert_eq!(after_message(0), None);
    assert_eq!(after_message(10_000_000), None);
    assert_eq!(after_message(10_000_001), Some(Effect::RequestRepaint));
}

#[test]
fn the_first_source_of_a_store_is_noted() {
    let mut store = before(blueprint(), true);
    assert_eq!(before_adding(&store, &LogSource::Sdk), vec![]);
    store.has_data_source = false;
    store.is_active_blueprint = true;
    assert_eq!(
        before_adding(&store, &LogSource::Sdk),
        vec![
            Effect::ReportStoreOnce {
                severity: Severity::Warning,
                before: "Loading a blueprint ".to_owned(),
                store_id: blueprint(),
                after: " that is active. See https://github.com/rerun-io/rerun/issues/5514 for details."
                    .to_owned(),
            },
            Effect::SetDataSource(blueprint(), LogSource::Sdk),
        ]
    );
}

#[test]
fn ordinary_messages_are_added() {
    let mut app = viewer(Platform::Native);
    let mut receive = |after: &StoreAfter| {
        app.receive_log_msg(
            &before(recording(), true),
            LogMsg::ArrowMsg,
            &LogSource::Sdk,
            true,
            after,
        )
    };
    assert_eq!(receive(&after()), added());
    let mut failed = after();
    failed.failure = Some("why".to_owned());
    assert_eq!(
        receive(&failed),
        vec![Effect::ReportOnce {
            severity: Severity::Error,
            text: "Failed to add incoming msg: why".to_owned(),
        }]
    );
}

#[test]
fn the_first_data_is_gone_to() {
    let mut app = viewer(Platform::Native);
    let source = LogSource::RedapGrpcStream {
        uri: DatasetUri {
            text: "rerun://server/x".to_owned(),
            base: "rerun://server/x".to_owned(),
            origin: "rerun://server".to_owned(),
            store_id: recording(),
            fragment: fragment(),
        },
        select_when_loaded: true,
    };
    let mut store = before(recording(), true);
    store.is_empty = true;
    let effects = app.receive_log_msg(&store, LogMsg::ArrowMsg, &source, true, &after());
    assert_eq!(effects.len(), 3);
    assert!(matches!(
        effects[2],
        Effect::SendSystem(SystemCommand::BackgroundTimeControlCommands { .. })
    ));
    let mut still_empty = after();
    still_empty.is_empty = true;
    assert_eq!(
        app.receive_log_msg(&store, LogMsg::SetStoreInfo, &source, true, &still_empty),
        added()
    );
}

#[test]
fn blueprints_are_activated_when_they_are_complete() {
    let mut app = viewer(Platform::Native);
    let mut activate = |store_id: StoreId, make_active: bool, make_default: bool, info: bool| {
        let mut store = after();
        if !info {
            store.application_id = None;
        }
        let effects = app.receive_log_msg(
            &before(store_id, true),
            LogMsg::BlueprintActivationCommand {
                make_active,
                make_default,
            },
            &LogSource::Sdk,
            true,
            &store,
        );
        effects[2..]
            .iter()
            .map(|effect| format!("{effect:?}"))
            .collect::<Vec<String>>()
    };
    let shown = |effects: Vec<Effect>| {
        effects
            .iter()
            .map(|effect| format!("{effect:?}"))
            .collect::<Vec<String>>()
    };
    assert_eq!(
        activate(blueprint(), true, true, true),
        shown(vec![
            Effect::SetDefaultBlueprint(blueprint()),
            Effect::SetClonedBlueprintActive(blueprint()),
            Effect::SetActiveApp("app".to_owned()),
            Effect::RequestUserAttention,
        ])
    );
    assert_eq!(
        activate(blueprint(), false, true, true),
        shown(vec![Effect::SetDefaultBlueprint(blueprint())])
    );
    assert_eq!(
        activate(blueprint(), true, true, false),
        shown(vec![Effect::Report {
            severity: Severity::Warning,
            text: "Got ActivateStore message without first receiving a SetStoreInfo".to_owned(),
        }])
    );
    assert_eq!(activate(recording(), true, true, true), shown(vec![]));
}

#[test]
fn new_recordings_are_shown() {
    let mut app = viewer(Platform::Native);
    let mut expected = added();
    expected.extend(activated());
    expected.push(Effect::EmitRecordingOpen(recording()));
    assert_eq!(
        app.receive_log_msg(
            &before(recording(), false),
            LogMsg::SetStoreInfo,
            &LogSource::Sdk,
            true,
            &after(),
        ),
        expected
    );
    assert_eq!(
        app.on_new_store(&recording(), false, false),
        vec![Effect::EmitRecordingOpen(recording())]
    );
    assert_eq!(app.on_new_store(&blueprint(), true, false), vec![]);
    let mut options = app.startup_options.clone();
    options.on_event = false;
    let app_options = *app.app_options();
    app.on_state_shown(options, app_options);
    assert_eq!(
        app.on_new_store(&recording(), false, false),
        vec![Effect::EmitRecordingOpen(recording())]
    );
    app.has_event_dispatcher = false;
    assert_eq!(app.on_new_store(&recording(), true, false), activated());
}

#[test]
fn new_recordings_are_recorded() {
    let mut app = viewer(Platform::Native);
    app.build_info.analytics = true;
    assert_eq!(
        app.on_new_store(&recording(), false, false),
        vec![
            Effect::Record(AnalyticsEvent::OpenRecording {
                app_env: app.app_env.clone(),
                store_id: recording(),
            }),
            Effect::EmitRecordingOpen(recording()),
        ]
    );
    assert_eq!(app.on_new_store(&blueprint(), false, false), vec![]);
}

#[test]
fn the_native_viewer_is_recommended_once() {
    let mut app = viewer(Platform::Web);
    assert_eq!(app.on_new_store(&blueprint(), false, true), vec![]);
    app.startup_options.is_in_notebook = true;
    assert_eq!(app.on_new_store(&blueprint(), false, false), vec![]);
    app.startup_options.is_in_notebook = false;
    assert_eq!(
        app.on_new_store(&blueprint(), false, false),
        vec![Effect::ShowTip {
            text: "For better performance, try the native Rerun Viewer!".to_owned(),
            link_text: "Install\u{2026}".to_owned(),
            link: "https://rerun.io/docs/getting-started/installing-viewer#installing-the-viewer"
                .to_owned(),
            dismiss_id: "install_native_viewer_prompt".to_owned(),
        }]
    );
    assert_eq!(app.on_new_store(&blueprint(), false, false), vec![]);
}

#[test]
fn tables_are_selected() {
    assert_eq!(
        receive_table_msg("t".to_owned(), Ok(())),
        vec![
            Effect::InsertTable("t".to_owned()),
            Effect::SendSystem(SystemCommand::SetSelection(ItemCollection::One(
                Item::TableId("t".to_owned()),
            ))),
            Effect::RequestUserAttention,
        ]
    );
    assert_eq!(
        receive_table_msg("t".to_owned(), Err("why".to_owned())),
        vec![Effect::Report {
            severity: Severity::Error,
            text: "Failed to load table t: why".to_owned(),
        }]
    );
}

#[test]
fn sources_point_to_data() {
    assert_eq!(
        receive_data_source_ui_command(recording(), Ok(fragment()), "Sdk"),
        Effect::SendSystem(SystemCommand::SetUrlFragment {
            store_id: recording(),
            fragment: fragment(),
        })
    );
    assert_eq!(
        receive_data_source_ui_command(recording(), Err("why".to_owned()), "Sdk"),
        Effect::Report {
            severity: Severity::Warning,
            text: "Failed to parse fragment received from Sdk: why".to_owned(),
        }
    );
}

#[test]
fn maps_need_the_map_view() {
    let types = |all: &[&[&str]]| -> Vec<Vec<String>> {
        all.iter()
            .map(|types| types.iter().map(|name| (*name).to_owned()).collect())
            .collect()
    };
    let maps = types(&[&["2D"], &["3D", "MapView"]]);
    assert_eq!(validate_loaded_events(&maps, true), vec![]);
    assert_eq!(
        validate_loaded_events(&types(&[&["2D"], &[]]), false),
        vec![]
    );
    assert_eq!(
        validate_loaded_events(&maps, false),
        vec![Effect::ReportOnce {
            severity: Severity::Warning,
            text: "Found map-related archetype, but viewer was not compiled with the `map_view` feature."
                .to_owned(),
        }]
    );
}

#[test]
fn limits_are_told_once() {
    let told = |limit: Option<&str>| match memory_limit_reached(limit.map(str::to_owned)) {
        Effect::ReportOnce {
            severity: Severity::Info,
            text,
        } => text,
        other => panic!("unexpected: {other:?}"),
    };
    assert_eq!(
        told(Some("1 GiB")),
        "Reached memory limit of 1 GiB, dropping oldest data."
    );
    assert_eq!(
        told(None),
        "Reached memory limit of \u{221e}, dropping oldest data."
    );
}

#[test]
fn blueprints_may_not_be_set() {
    let told = |make_active: bool| match blueprint_not_set(make_active, "why") {
        Effect::Report {
            severity: Severity::Warning,
            text,
        } => text,
        other => panic!("unexpected: {other:?}"),
    };
    assert_eq!(told(true), "Failed to make blueprint active: why");
    assert_eq!(told(false), "Failed to make blueprint default: why");
}
