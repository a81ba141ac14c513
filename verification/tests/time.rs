use re_viewer::app::App;
use re_viewer::app::AppEnvironment;
use re_viewer::app::AppOptions;
use re_viewer::app::BuildInfo;
use re_viewer::app::Defaults;
use re_viewer::app::PreviousVersion;
use re_viewer::app::StartupOptions;
use re_viewer::app::StoredState;
use re_viewer::commands::Effect;
use re_viewer::commands::SystemCommand;
use re_viewer::time::go_to_dataset_data;
use re_viewer::time::handle_time_ctrl_event;
use re_viewer::time::is_listening;
use re_viewer::time::on_blueprint_time_control_response;
use re_viewer::time::on_time_control_response;
use re_viewer::time::on_undo_or_redo;
use re_viewer::time::redo_change;
use re_viewer::time::ActiveRecording;
use re_viewer::time::ControlUpdate;
use re_viewer::time::RecordingUpdate;
use re_viewer::time::BlueprintQuery;
use re_viewer::time::RedoChange;
use re_viewer::types::DataPath;
use re_viewer::types::DisplayMode;
use re_viewer::types::Fragment;
use re_viewer::types::Item;
use re_viewer::types::ItemCollection;
use re_viewer::types::LogReceiver;
use re_viewer::types::LogSource;
use re_viewer::types::LoopMode;
use re_viewer::types::Platform;
use re_viewer::types::PlayState;
use re_viewer::types::StoreId;
use re_viewer::types::StoreKind;
use re_viewer::types::TimeControlCommand;
use re_viewer::types::TimeControlResponse;
use re_viewer::types::TimeCursor;
use re_viewer::types::TimeRange;
use re_viewer::types::TimeReal;
use re_viewer::types::TimeSelection;
use re_viewer::types::TimeTarget;

fn store() -> StoreId {
    StoreId::recording("app".to_owned(), "rec".to_owned())
}

fn blueprint() -> StoreId {
    StoreId {
        kind: StoreKind::Blueprint,
        application_id: "app".to_owned(),
        recording_id: "bp".to_owned(),
    }
}

fn response(needs_repaint: bool) -> TimeControlResponse {
    TimeControlResponse {
        needs_repaint,
        playing_change: Some(true),
        timeline_change: Some(("frame".to_owned(), TimeReal { bits: 1 })),
        time_change: Some(TimeReal { bits: 2 }),
    }
}

fn events() -> Vec<Effect> {
    vec![
        Effect::EmitPlayStateChange(store(), true),
        Effect::EmitTimelineChange(store(), "frame".to_owned(), TimeReal { bits: 1 }),
        Effect::EmitTimeUpdate(store(), TimeReal { bits: 2 }),
    ]
}

fn path(instance: Option<u64>, component: Option<&str>) -> Option<DataPath> {
    Some(DataPath {
        entity_path: "/a".to_owned(),
        instance,
        component: component.map(str::to_owned),
    })
}

fn selected(item: Item) -> Effect {
    Effect::SendSystem(SystemCommand::SetSelection(ItemCollection::One(item)))
}

#[test]
fn hosts_that_listen_are_told_of_changes() {
    assert_eq!(
        handle_time_ctrl_event(&store(), true, response(false)),
        events()
    );
    assert_eq!(
        handle_time_ctrl_event(&store(), false, response(false)),
        vec![]
    );
    let other = StoreId::recording("app".to_owned(), "other".to_owned());
    assert_eq!(
        handle_time_ctrl_event(&other, true, response(false)).pop(),
        Some(Effect::EmitTimeUpdate(other, TimeReal { bits: 2 }))
    );
    let quiet = TimeControlResponse {
        needs_repaint: false,
        playing_change: None,
        timeline_change: None,
        time_change: None,
    };
    assert_eq!(handle_time_ctrl_event(&store(), true, quiet), vec![]);
}

#[test]
fn time_controls_are_repainted_on_demand() {
    let mut expected = events();
    expected.insert(0, Effect::RequestRepaint);
    assert_eq!(
        on_time_control_response(&store(), true, response(true)),
        expected
    );
    assert_eq!(
        on_time_control_response(&store(), false, response(true)),
        vec![Effect::RequestRepaint]
    );
    assert_eq!(
        on_time_control_response(&store(), false, response(false)),
        vec![]
    );
    assert_eq!(
        on_blueprint_time_control_response(response(true)),
        vec![Effect::RequestRepaint]
    );
    assert_eq!(on_blueprint_time_control_response(response(false)), vec![]);
}

#[test]
fn fragments_select_what_they_name() {
    let go = |selection: Option<DataPath>| {
        go_to_dataset_data(
            store(),
            Fragment {
                selection,
                when: None,
                time_selection: None,
            },
        )
    };
    assert_eq!(
        go(path(None, None)),
        vec![selected(Item::Entity {
            entity_path: "/a".to_owned()
        })]
    );
    assert_eq!(
        go(path(Some(3), None)),
        vec![selected(Item::Instance {
            entity_path: "/a".to_owned(),
            instance: 3
        })]
    );
    assert_eq!(
        go(path(Some(3), Some("color"))),
        vec![selected(Item::Component {
            entity_path: "/a".to_owned(),
            component: "color".to_owned()
        })]
    );
    assert_eq!(go(None), vec![]);
}

#[test]
fn fragments_move_time() {
    let effects = go_to_dataset_data(
        store(),
        Fragment {
            selection: path(None, None),
            when: Some(TimeCursor {
                timeline: "log_time".to_owned(),
                time: 42,
            }),
            time_selection: Some(TimeSelection {
                timeline: "frame".to_owned(),
                range: TimeRange { min: 1, max: 2 },
            }),
        },
    );
    assert_eq!(effects.len(), 2);
    assert_eq!(
        effects[1],
        Effect::SendSystem(SystemCommand::BackgroundTimeControlCommands {
            store_id: store(),
            time_commands: vec![
                TimeControlCommand::SetActiveTimeline("frame".to_owned()),
                TimeControlCommand::SetTimeSelection(TimeRange { min: 1, max: 2 }),
                TimeControlCommand::SetLoopMode(LoopMode::Selection),
                TimeControlCommand::SetActiveTimeline("log_time".to_owned()),
                TimeControlCommand::SetPlayState(PlayState::Paused),
                TimeControlCommand::SetTime(TimeTarget::Int(42)),
            ],
        })
    );
    assert!(effects
        .iter()
        .all(|effect| matches!(effect, Effect::SendSystem(_))));
}

#[test]
fn the_inspector_follows_undo_and_redo() {
    let sent = |time_commands: Vec<TimeControlCommand>| {
        vec![Effect::SendSystem(SystemCommand::TimeControlCommands {
            store_id: blueprint(),
            time_commands,
        })]
    };
    assert_eq!(on_undo_or_redo(false, blueprint(), Some(5)), vec![]);
    assert_eq!(
        on_undo_or_redo(true, blueprint(), Some(5)),
        sent(vec![
            TimeControlCommand::SetPlayState(PlayState::Paused),
            TimeControlCommand::SetTime(TimeTarget::Int(5)),
        ])
    );
    assert_eq!(
        on_undo_or_redo(true, blueprint(), None),
        sent(vec![TimeControlCommand::SetPlayState(PlayState::Following)])
    );
}

#[test]
fn what_can_be_redone_follows_the_inspector() {
    assert_eq!(redo_change(PlayState::Following, Some(1)), RedoChange::RedoAll);
    assert_eq!(
        redo_change(PlayState::Paused, Some(1)),
        RedoChange::SetRedoTime(1)
    );
    assert_eq!(redo_change(PlayState::Playing, None), RedoChange::Nothing);
}

fn viewer(inspect_blueprint_timeline: bool) -> App {
    App::with_commands(
        Platform::Native,
        BuildInfo {
            version: "1".to_owned(),
            analytics: false,
        },
        AppEnvironment::Test,
        StartupOptions {
            persist_state: false,
            is_in_notebook: false,
            expect_data_soon: None,
            hide_welcome_screen: false,
            web_history_enabled: false,
            enable_history: false,
            screenshot_to_path_then_quit: None,
            resolution_in_points: None,
            memory_limit: None,
            on_event: false,
            fullscreen_options: false,
            video_decoder_hw_acceleration: None,
        },
        Defaults {
            app_options: AppOptions {
                inspect_blueprint_timeline,
                show_metrics: true,
                show_notification_toasts: true,
                blueprint_gc: true,
                video_decoder_hw_acceleration: 0,
            },
            home: DisplayMode::RedapServer("home".to_owned()),
            examples_origin: "examples".to_owned(),
            welcome_screen_app_id: "welcome".to_owned(),
        },
        StoredState::NoStorage,
        PreviousVersion::Unknown,
    )
    .0
}

#[test]
fn blueprints_are_read_at_the_latest_time() {
    let app = viewer(false);
    assert_eq!(app.blueprint_ctx(None, Some(blueprint()), Some(1)), None);
    let context = app.blueprint_ctx(Some(blueprint()), None, None).unwrap();
    assert_eq!(context.blueprint_query, BlueprintQuery::Latest);
    let context = app
        .blueprint_ctx(Some(blueprint()), Some(blueprint()), Some(7))
        .unwrap();
    assert_eq!(context.blueprint_query, BlueprintQuery::At(7));
    assert_eq!(context.default_blueprint, Some(blueprint()));
}

#[test]
fn time_goes_on_with_the_recording() {
    let listening = |inspects: bool| {
        let mut app = viewer(inspects);
        app.add_log_receiver(LogReceiver {
            source: LogSource::Sdk,
            handle: 1,
        });
        app
    };
    let (plain, inspecting) = (listening(false), listening(true));
    let context = || plain.blueprint_ctx(Some(blueprint()), None, None);
    let from = |source: Option<LogSource>| {
        Some(ActiveRecording {
            store_id: store(),
            data_source: source,
        })
    };
    let recording = |more_data_is_coming: bool| {
        Some(RecordingUpdate {
            store_id: store(),
            control: ControlUpdate {
                more_data_is_coming,
                should_diff_state: true,
                has_context: true,
            },
        })
    };
    let inspected = Some(ControlUpdate {
        more_data_is_coming: true,
        should_diff_state: false,
        has_context: false,
    });
    assert!(is_listening(plain.msg_receive_set(), &LogSource::Sdk));
    assert!(!is_listening(plain.msg_receive_set(), &LogSource::Stdin));
    assert_eq!(inspecting.move_time(None, from(None)), None);
    let update = plain
        .move_time(context(), from(Some(LogSource::Sdk)))
        .unwrap();
    assert_eq!((update.recording, update.blueprint), (recording(true), None));
    let update = inspecting
        .move_time(context(), from(Some(LogSource::Stdin)))
        .unwrap();
    assert_eq!(
        (update.recording, update.blueprint),
        (recording(false), inspected)
    );
    let update = inspecting.move_time(context(), from(None)).unwrap();
    assert_eq!(update.recording, recording(false));
    let update = inspecting.move_time(context(), None).unwrap();
    assert_eq!(update.recording, None);
}
