use re_viewer::analytics::AnalyticsEvent;
use re_viewer::app::App;
use re_viewer::app::AppEnvironment;
use re_viewer::app::AppOptions;
use re_viewer::app::BuildInfo;
use re_viewer::app::Defaults;
use re_viewer::app::PreviousVersion;
use re_viewer::app::StartupOptions;
use re_viewer::app::StoredState;
use re_viewer::commands::Effect;
use re_viewer::commands::Severity;
use re_viewer::commands::SystemCommand;
use re_viewer::commands::UICommand;
use re_viewer::system::on_url_composed;
use re_viewer::system::SystemFacts;
use re_viewer::types::AuthContext;
use re_viewer::types::Chunk;
use re_viewer::types::DatasetUri;
use re_viewer::types::TimeTarget;
use re_viewer::types::TimeCursor;
use re_viewer::types::DataPath;
use re_viewer::types::DisplayMode;
use re_viewer::types::Fragment;
use re_viewer::types::Item;
use re_viewer::types::ItemCollection;
use re_viewer::types::LogDataSource;
use re_viewer::types::LogReceiver;
use re_viewer::types::LogSource;
use re_viewer::types::Platform;
use re_viewer::types::PlayState;
use re_viewer::types::RecordingOrTable;
use re_viewer::types::StoreId;
use re_viewer::types::StoreKind;
use re_viewer::types::TimeControlCommand;
use re_viewer::types::TimeControlResponse;

fn viewer(platform: Platform) -> App {
    App::with_commands(
        platform,
        BuildInfo {
            version: "1".to_owned(),
            analytics: false,
        },
        AppEnvironment::Test,
        StartupOptions {
            persist_state: true,
            is_in_notebook: false,
            expect_data_soon: None,
            hide_welcome_screen: false,
            web_history_enabled: false,
            enable_history: true,
            screenshot_to_path_then_quit: None,
            resolution_in_points: None,
            memory_limit: None,
            on_event: true,
            fullscreen_options: false,
            video_decoder_hw_acceleration: None,
        },
        Defaults {
            app_options: AppOptions {
                inspect_blueprint_timeline: false,
                show_metrics: true,
                show_notification_toasts: true,
                blueprint_gc: true,
                video_decoder_hw_acceleration: 0,
            },
            home: DisplayMode::RedapServer("home".to_owned()),
            examples_origin: "examples".to_owned(),
            welcome_screen_app_id: "welcome".to_owned(),
        },
        StoredState::NoStorage,
        PreviousVersion::Unknown,
    )
    .0
}

fn recording() -> StoreId {
    StoreId::recording("app".to_owned(), "rec".to_owned())
}

fn blueprint() -> StoreId {
    StoreId {
        kind: StoreKind::Blueprint,
        application_id: "app".to_owned(),
        recording_id: "bp".to_owned(),
    }
}

fn facts() -> SystemFacts {
    SystemFacts {
        data_source: None,
        loaded_stores: vec![],
        has_active_entry: None,
        item_page: None,
        store_sources: vec![],
        found_recording: None,
    }
}

fn uri() -> DatasetUri {
    DatasetUri {
        text: "rerun://server/x".to_owned(),
        base: "rerun://server/x".to_owned(),
        origin: "rerun://server".to_owned(),
        store_id: recording(),
        fragment: Fragment {
            selection: None,
            when: None,
            time_selection: None,
        },
    }
}

fn run(app: &mut App, cmd: SystemCommand) -> Vec<Effect> {
    app.run_system_command(cmd, &facts())
}

fn report(severity: Severity, text: &str) -> Effect {
    Effect::Report {
        severity,
        text: text.to_owned(),
    }
}

fn rx(source: LogSource, handle: u64) -> LogReceiver {
    LogReceiver { source, handle }
}

#[test]
fn time_commands_activate_their_recording() {
    let mut app = viewer(Platform::Native);
    assert_eq!(
        run(
            &mut app,
            SystemCommand::TimeControlCommands {
                store_id: recording(),
                time_commands: vec![TimeControlCommand::Restart],
            }
        ),
        vec![
            Effect::SetActiveRecording(recording()),
            Effect::ApplyTimeCommands {
                store_id: recording(),
                time_commands: vec![TimeControlCommand::Restart],
            },
        ]
    );
    assert_eq!(
        run(
            &mut app,
            SystemCommand::TimeControlCommands {
                store_id: blueprint(),
                time_commands: vec![],
            }
        ),
        vec![Effect::ApplyBlueprintTimeCommands {
            store_id: blueprint(),
            time_commands: vec![],
        }]
    );
    assert_eq!(
        app.on_time_commands_applied(&recording(), None),
        vec![report(
            Severity::Error,
            "Skipping time control command because of missing blueprint"
        )]
    );
    assert_eq!(
        app.on_time_commands_applied(
            &recording(),
            Some(TimeControlResponse {
                needs_repaint: true,
                playing_change: Some(false),
                timeline_change: None,
                time_change: None,
            })
        ),
        vec![
            Effect::RequestRepaint,
            Effect::EmitPlayStateChange(recording(), false)
        ]
    );
}

#[test]
fn addresses_are_copied() {
    let cmd = || SystemCommand::CopyViewerUrl("http://x".to_owned());
    let copied = vec![
        Effect::NotifySuccess("Copied \"http://x\" to clipboard".to_owned()),
        Effect::CopyText("http://x".to_owned()),
    ];
    assert_eq!(run(&mut viewer(Platform::Native), cmd()), copied);
    assert_eq!(
        run(&mut viewer(Platform::Web), cmd()),
        vec![Effect::CombineWithBaseUrl("http://x".to_owned())]
    );
    assert_eq!(on_url_composed(Ok("http://x".to_owned())), copied);
    assert_eq!(
        on_url_composed(Err("why".to_owned())),
        vec![report(Severity::Error, "why")]
    );
}

#[test]
fn applications_are_activated_and_closed() {
    let mut app = viewer(Platform::Native);
    assert_eq!(
        run(&mut app, SystemCommand::ActivateApp("a".to_owned())),
        vec![Effect::SetActiveApp("a".to_owned())]
    );
    app.on_app_activated(Some(recording()));
    assert_eq!(
        app.state.navigation.current,
        DisplayMode::LocalRecordings(recording())
    );
    app.on_app_activated(None);
    assert_eq!(app.state.navigation.current, app.state.navigation.home);
    assert_eq!(
        run(&mut app, SystemCommand::CloseApp("a".to_owned())),
        vec![Effect::CloseApp("a".to_owned())]
    );
}

#[test]
fn entries_are_activated() {
    let mut app = viewer(Platform::Native);
    let mode = DisplayMode::LocalRecordings(recording());
    assert_eq!(
        run(
            &mut app,
            SystemCommand::ActivateRecordingOrTable {
                entry: RecordingOrTable::Recording {
                    store_id: recording()
                },
                display_mode: mode.clone(),
            }
        ),
        vec![Effect::SetActiveRecording(recording())]
    );
    assert_eq!(app.state.navigation.current, mode);
    let table = DisplayMode::LocalTable("t".to_owned());
    assert_eq!(
        run(
            &mut app,
            SystemCommand::ActivateRecordingOrTable {
                entry: RecordingOrTable::Table {
                    table_id: "t".to_owned()
                },
                display_mode: table.clone(),
            }
        ),
        vec![]
    );
    assert_eq!(app.state.navigation.current, table);
}

#[test]
fn closing_a_recording_closes_its_file() {
    let entry = || RecordingOrTable::Recording {
        store_id: recording(),
    };
    let close = |source: LogSource, entry: RecordingOrTable| {
        let mut app = viewer(Platform::Native);
        app.add_log_receiver(rx(source.clone(), 1));
        app.add_log_receiver(rx(LogSource::Stdin, 2));
        let mut facts = facts();
        facts.data_source = Some(source);
        let effects = app.run_system_command(SystemCommand::CloseRecordingOrTable(entry), &facts);
        (effects, app.rx_log.len())
    };
    assert_eq!(
        close(LogSource::File("f".to_owned()), entry()),
        (
            vec![Effect::DropReceivers, Effect::RemoveEntry(entry())],
            1
        )
    );
    assert_eq!(
        close(LogSource::Sdk, entry()),
        (vec![Effect::RemoveEntry(entry())], 2)
    );
    let table = || RecordingOrTable::Table {
        table_id: "t".to_owned(),
    };
    assert_eq!(
        close(LogSource::File("f".to_owned()), table()),
        (vec![Effect::RemoveEntry(table())], 2)
    );
}

#[test]
fn closing_everything_goes_home() {
    let mut app = viewer(Platform::Native);
    app.add_log_receiver(rx(LogSource::File("f".to_owned()), 1));
    app.add_log_receiver(rx(LogSource::Sdk, 2));
    run(&mut app, SystemCommand::OpenSettings);
    assert_eq!(
        run(&mut app, SystemCommand::CloseAllEntries),
        vec![Effect::ClearEntries, Effect::DropReceivers]
    );
    assert_eq!(app.state.navigation.current, app.state.navigation.home);
    assert_eq!(app.rx_log, vec![rx(LogSource::Sdk, 2)]);
}

#[test]
fn receivers_are_added() {
    let mut app = viewer(Platform::Native);
    let effects = run(
        &mut app,
        SystemCommand::AddReceiver(rx(LogSource::Stdin, 9)),
    );
    assert_eq!(effects.len(), 2);
    assert_eq!(app.rx_log.len(), 1);
}

#[test]
fn what_is_shown_changes() {
    let mut app = viewer(Platform::Native);
    app.state.selection = ItemCollection::One(Item::Other(1));
    let home = app.state.navigation.home.clone();
    assert_eq!(
        run(&mut app, SystemCommand::ChangeDisplayMode(home)),
        vec![]
    );
    let table = DisplayMode::LocalTable("t".to_owned());
    assert_eq!(
        run(&mut app, SystemCommand::ChangeDisplayMode(table.clone())),
        vec![Effect::RequestRepaint]
    );
    assert_eq!(app.state.navigation.current, table);
    assert_eq!(app.state.selection, ItemCollection::One(Item::Other(1)));
    let loading = DisplayMode::Loading(LogSource::Stdin);
    assert_eq!(
        run(&mut app, SystemCommand::ChangeDisplayMode(loading.clone())),
        vec![Effect::RequestRepaint]
    );
    assert_eq!(app.state.navigation.current, loading);
    assert_eq!(app.state.selection, ItemCollection::Many(vec![]));
    assert_eq!(
        run(&mut app, SystemCommand::ResetDisplayMode),
        vec![Effect::RequestRepaint]
    );
    assert_eq!(app.state.navigation.current, app.state.navigation.home);
}

#[test]
fn loaded_datasets_need_no_loading_screen() {
    let mut app = viewer(Platform::Native);
    let loading = || {
        SystemCommand::ChangeDisplayMode(DisplayMode::Loading(LogSource::RedapGrpcStream {
            uri: uri(),
            select_when_loaded: true,
        }))
    };
    let mut loaded = facts();
    loaded.loaded_stores = vec![blueprint(), recording()];
    assert_eq!(app.run_system_command(loading(), &loaded), vec![]);
    assert_eq!(app.state.navigation.current, app.state.navigation.home);
    loaded.loaded_stores = vec![blueprint()];
    assert_eq!(
        app.run_system_command(loading(), &loaded),
        vec![Effect::RequestRepaint]
    );
}

#[test]
fn settings_and_browser_are_opened() {
    let mut app = viewer(Platform::Native);
    let home = app.state.navigation.home.clone();
    assert_eq!(run(&mut app, SystemCommand::OpenChunkStoreBrowser), vec![]);
    let browser = DisplayMode::ChunkStoreBrowser(Box::new(home));
    assert_eq!(app.state.navigation.current, browser);
    assert_eq!(run(&mut app, SystemCommand::OpenSettings), vec![]);
    assert_eq!(
        app.state.navigation.current,
        DisplayMode::Settings(Box::new(browser))
    );
}

#[test]
fn servers_become_known() {
    let mut app = viewer(Platform::Native);
    let add = |origin: &str| SystemCommand::AddRedapServer(origin.to_owned());
    assert_eq!(run(&mut app, add("examples")), vec![]);
    assert_eq!(
        run(&mut app, add("s")),
        vec![
            Effect::AddServer("s".to_owned()),
            Effect::SendUi(UICommand::ExpandBlueprintPanel),
        ]
    );
    assert_eq!(
        app.state.navigation.current,
        DisplayMode::RedapServer("s".to_owned())
    );
    assert_eq!(run(&mut app, add("s")), vec![]);
    assert_eq!(app.state.redap_servers, vec!["s"]);
    let mut busy = facts();
    busy.has_active_entry = Some(true);
    app.run_system_command(add("t"), &busy);
    assert_eq!(
        app.state.navigation.current,
        DisplayMode::RedapServer("s".to_owned())
    );
    busy.has_active_entry = Some(false);
    app.run_system_command(add("u"), &busy);
    assert_eq!(
        app.state.navigation.current,
        DisplayMode::RedapServer("u".to_owned())
    );
}

#[test]
fn data_is_loaded_on_command() {
    let mut app = viewer(Platform::Native);
    let cmd = || SystemCommand::LoadDataSource(LogDataSource::Stdin);
    assert_eq!(
        run(&mut app, cmd()),
        vec![Effect::OpenStream(LogDataSource::Stdin)]
    );
    let mut present = facts();
    present.store_sources = vec![LogSource::Sdk, LogSource::Stdin];
    assert_eq!(app.run_system_command(cmd(), &present), vec![]);
    app.add_log_receiver(rx(LogSource::Stdin, 1));
    assert_eq!(run(&mut app, cmd()), vec![]);
}

#[test]
fn datasets_are_opened_once_whatever_their_fragments() {
    let mut app = viewer(Platform::Native);
    let with_fragment = |text: &str, base: &str, select_when_loaded: bool| {
        let uri = DatasetUri {
            text: text.to_owned(),
            base: base.to_owned(),
            ..uri()
        };
        SystemCommand::LoadDataSource(LogDataSource::RedapDatasetSegment {
            uri,
            select_when_loaded,
        })
    };
    app.add_log_receiver(rx(
        LogSource::RedapGrpcStream {
            uri: uri(),
            select_when_loaded: true,
        },
        1,
    ));
    assert_eq!(
        run(
            &mut app,
            with_fragment("rerun://server/x#when", "rerun://server/x", false)
        ),
        vec![]
    );
    let effects = run(
        &mut app,
        with_fragment("rerun://server/y", "rerun://server/y", false),
    );
    assert!(matches!(effects[..], [Effect::OpenStream(_)]));
}

#[test]
fn a_reset_forgets_the_state() {
    let mut app = viewer(Platform::Native);
    app.state.redap_servers.push("s".to_owned());
    app.state.focused_item = Some(Item::Other(1));
    app.state.app_options.blueprint_gc = false;
    app.add_log_receiver(rx(LogSource::Sdk, 1));
    assert_eq!(
        run(&mut app, SystemCommand::ResetViewer),
        vec![
            Effect::ClearAllClonedBlueprints,
            Effect::ResetEguiMemory,
            Effect::ApplyStyle,
            Effect::ResetPersistence,
        ]
    );
    assert!(app.state.redap_servers.is_empty());
    assert_eq!(app.state.focused_item, None);
    assert!(app.state.app_options.blueprint_gc);
    assert_eq!(app.rx_log.len(), 1);
}

#[test]
fn blueprints_are_cleared() {
    let mut app = viewer(Platform::Native);
    assert_eq!(
        run(&mut app, SystemCommand::ClearActiveBlueprint),
        vec![Effect::ClearActiveBlueprint, Effect::RequestRepaint]
    );
    assert_eq!(
        run(
            &mut app,
            SystemCommand::ClearActiveBlueprintAndEnableHeuristics
        ),
        vec![
            Effect::ClearActiveBlueprintAndGenerate,
            Effect::RequestRepaint
        ]
    );
}

#[test]
fn opened_settings_are_recorded() {
    let mut app = viewer(Platform::Native);
    app.build_info.analytics = true;
    assert_eq!(
        run(&mut app, SystemCommand::OpenSettings),
        vec![Effect::Record(AnalyticsEvent::SettingsOpened)]
    );
}

#[test]
fn fragments_leave_the_active_recording_alone() {
    let mut app = viewer(Platform::Native);
    app.state.navigation.current = DisplayMode::LocalRecordings(StoreId::recording(
        "other".to_owned(),
        "rec".to_owned(),
    ));
    let shown = app.state.navigation.current.clone();
    let queued = run(
        &mut app,
        SystemCommand::SetUrlFragment {
            store_id: recording(),
            fragment: Fragment {
                selection: Some(DataPath {
                    entity_path: "/a".to_owned(),
                    instance: None,
                    component: None,
                }),
                when: Some(TimeCursor {
                    timeline: "frame".to_owned(),
                    time: 3,
                }),
                time_selection: None,
            },
        },
    );
    assert_eq!(queued.len(), 2);
    let mut effects = vec![];
    for effect in queued {
        match effect {
            Effect::SendSystem(command) => effects.extend(run(&mut app, command)),
            other => panic!("{other:?}"),
        }
    }
    assert_eq!(
        effects,
        vec![
            Effect::RequestRepaint,
            Effect::ApplyTimeCommandsInBackground {
                store_id: recording(),
                time_commands: vec![
                    TimeControlCommand::SetActiveTimeline("frame".to_owned()),
                    TimeControlCommand::SetPlayState(PlayState::Paused),
                    TimeControlCommand::SetTime(TimeTarget::Int(3)),
                ],
            },
        ]
    );
    assert_eq!(app.state.navigation.current, shown);
    assert_eq!(
        run(
            &mut app,
            SystemCommand::BackgroundTimeControlCommands {
                store_id: blueprint(),
                time_commands: vec![],
            }
        ),
        vec![Effect::ApplyBlueprintTimeCommands {
            store_id: blueprint(),
            time_commands: vec![],
        }]
    );
}

#[test]
fn edits_of_a_blueprint_cannot_be_redone() {
    let mut app = viewer(Platform::Native);
    let chunk = |is_static: bool| Chunk {
        handle: 1,
        is_static,
    };
    let append = |app: &mut App, store_id: StoreId, is_static: bool| {
        run(
            app,
            SystemCommand::AppendToStore(store_id, vec![chunk(true), chunk(is_static)]),
        )
    };
    assert_eq!(
        append(&mut app, recording(), false),
        vec![
            Effect::AddChunk(recording(), chunk(true)),
            Effect::AddChunk(recording(), chunk(false)),
        ]
    );
    assert_eq!(
        append(&mut app, blueprint(), true),
        vec![
            Effect::AddChunk(blueprint(), chunk(true)),
            Effect::AddChunk(blueprint(), chunk(true)),
        ]
    );
    assert_eq!(
        append(&mut app, blueprint(), false),
        vec![
            Effect::ClearRedoBuffer(blueprint()),
            Effect::AddChunk(blueprint(), chunk(true)),
            Effect::AddChunk(blueprint(), chunk(false)),
        ]
    );
    run(
        &mut app,
        SystemCommand::EnableInspectBlueprintTimeline(true),
    );
    assert_eq!(
        append(&mut app, blueprint(), false)[1],
        Effect::SendSystem(SystemCommand::TimeControlCommands {
            store_id: blueprint(),
            time_commands: vec![TimeControlCommand::SetPlayState(PlayState::Following)],
        })
    );
}

#[test]
fn selections_lead_to_their_page() {
    let mut app = viewer(Platform::Native);
    let one = || ItemCollection::One(Item::StoreId(recording()));
    let mut paged = facts();
    paged.item_page = Some(DisplayMode::LocalRecordings(recording()));
    assert_eq!(
        app.run_system_command(SystemCommand::SetSelection(one()), &paged),
        vec![
            Effect::SetActiveRecording(recording()),
            Effect::RequestRepaint
        ]
    );
    assert_eq!(
        app.state.navigation.current,
        DisplayMode::LocalRecordings(recording())
    );
    assert_eq!(app.state.selection, one());
    let two = || ItemCollection::Many(vec![Item::Other(1), Item::Other(2)]);
    paged.item_page = Some(DisplayMode::LocalTable("t".to_owned()));
    assert_eq!(
        app.run_system_command(SystemCommand::SetSelection(two()), &paged),
        vec![Effect::RequestRepaint]
    );
    assert_eq!(
        app.state.navigation.current,
        DisplayMode::LocalRecordings(recording())
    );
    assert_eq!(app.state.selection, two());
}

#[test]
fn other_commands_are_passed_on() {
    let mut app = viewer(Platform::Native);
    assert_eq!(
        run(
            &mut app,
            SystemCommand::UndoBlueprint {
                blueprint_id: blueprint()
            }
        ),
        vec![Effect::UndoBlueprint(blueprint())]
    );
    assert_eq!(
        run(
            &mut app,
            SystemCommand::RedoBlueprint {
                blueprint_id: blueprint()
            }
        ),
        vec![Effect::RedoBlueprint(blueprint())]
    );
    assert_eq!(
        run(
            &mut app,
            SystemCommand::DropEntity(blueprint(), "/a".to_owned())
        ),
        vec![Effect::DropEntity(blueprint(), "/a".to_owned())]
    );
    assert_eq!(
        run(&mut app, SystemCommand::ShowNotification(3)),
        vec![Effect::AddNotification(3)]
    );
    assert_eq!(
        run(&mut app, SystemCommand::FileSaver(4)),
        vec![Effect::SpawnFileSaver(4)]
    );
    assert_eq!(
        run(
            &mut app,
            SystemCommand::SetAuthCredentials {
                access_token: "token".to_owned(),
                email: "a@b".to_owned(),
            }
        ),
        vec![Effect::StoreCredentials {
            access_token: "token".to_owned(),
            email: "a@b".to_owned(),
        }]
    );
    assert_eq!(
        run(&mut app, SystemCommand::Logout),
        vec![Effect::ClearCredentials, Effect::LogoutServers]
    );
    assert_eq!(
        run(
            &mut app,
            SystemCommand::EditRedapServerModal {
                origin: "o".to_owned(),
                open_on_success: None,
                title: Some("t".to_owned()),
            }
        ),
        vec![Effect::OpenEditServerModal {
            origin: "o".to_owned(),
            open_on_success: None,
            title: Some("t".to_owned()),
        }]
    );
    assert_eq!(
        run(
            &mut app,
            SystemCommand::SetUrlFragment {
                store_id: recording(),
                fragment: uri().fragment,
            }
        ),
        vec![]
    );
}

#[test]
fn focus_and_login_are_kept() {
    let mut app = viewer(Platform::Native);
    assert_eq!(
        run(&mut app, SystemCommand::SetFocus(Item::Other(5))),
        vec![]
    );
    assert_eq!(app.state.focused_item, Some(Item::Other(5)));
    let auth = || {
        Some(AuthContext {
            email: "a@b".to_owned(),
        })
    };
    assert_eq!(run(&mut app, SystemCommand::OnAuthChanged(auth())), vec![]);
    assert_eq!(app.state.auth_state, auth());
}
