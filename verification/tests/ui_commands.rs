use re_viewer::app::App;
use re_viewer::app::AppEnvironment;
use re_viewer::app::AppOptions;
use re_viewer::app::BuildInfo;
use re_viewer::app::Defaults;
use re_viewer::app::PreviousVersion;
use re_viewer::app::StartupOptions;
use re_viewer::app::StoredState;
use re_viewer::app::PendingFiles;
use re_viewer::commands::Effect;
use re_viewer::commands::OpenUrlOptions;
use re_viewer::commands::Panel;
use re_viewer::commands::Severity;
use re_viewer::commands::StorePrint;
use re_viewer::commands::SystemCommand;
use re_viewer::commands::UICommand;
use re_viewer::commands::ZoomStep;
use re_viewer::types::DisplayMode;
use re_viewer::types::FileContents;
use re_viewer::types::FileSource;
use re_viewer::types::Item;
use re_viewer::types::ItemCollection;
use re_viewer::types::LogDataSource;
use re_viewer::types::Platform;
use re_viewer::types::PlayState;
use re_viewer::types::RecordingOrTable;
use re_viewer::types::StoreId;
use re_viewer::types::StoreKind;
use re_viewer::types::TimeControlCommand;
use re_viewer::ui_commands::on_files_picked;
use re_viewer::ui_commands::on_palette_action;
use re_viewer::ui_commands::CommandPaletteAction;
use re_viewer::ui_commands::StoreContext;
use re_viewer::ui_commands::UiFacts;

fn viewer(platform: Platform) -> App {
    App::with_commands(
        platform,
        BuildInfo {
            version: "1".to_owned(),
            analytics: false,
        },
        AppEnvironment::Test,
        StartupOptions {
            persist_state: true,
            is_in_notebook: false,
            expect_data_soon: None,
            hide_welcome_screen: false,
            web_history_enabled: false,
            enable_history: true,
            screenshot_to_path_then_quit: None,
            resolution_in_points: None,
            memory_limit: None,
            on_event: true,
            fullscreen_options: false,
            video_decoder_hw_acceleration: None,
        },
        Defaults {
            app_options: AppOptions {
                inspect_blueprint_timeline: false,
                show_metrics: true,
                show_notification_toasts: true,
                blueprint_gc: true,
                video_decoder_hw_acceleration: 0,
            },
            home: DisplayMode::RedapServer("home".to_owned()),
            examples_origin: "examples".to_owned(),
            welcome_screen_app_id: "welcome".to_owned(),
        },
        StoredState::NoStorage,
        PreviousVersion::Unknown,
    )
    .0
}

fn recording(app: &str, rec: &str) -> StoreId {
    StoreId::recording(app.to_owned(), rec.to_owned())
}

fn blueprint() -> StoreId {
    StoreId {
        kind: StoreKind::Blueprint,
        application_id: "app".to_owned(),
        recording_id: "bp".to_owned(),
    }
}

fn facts() -> UiFacts {
    UiFacts {
        store_context: Some(StoreContext {
            recording_id: recording("app", "rec"),
            blueprint_id: blueprint(),
        }),
        active_store_id: Some(recording("app", "rec")),
        recordings: vec![
            recording("app", "rec"),
            recording("other", "x"),
            recording("app", "rec2"),
        ],
        stores: vec![
            recording("app", "rec"),
            recording("other", "x"),
            recording("app", "rec2"),
            blueprint(),
        ],
        fresh_application_id: "fresh app".to_owned(),
        fresh_recording_id: "fresh rec".to_owned(),
        blueprint_panel_is_expanded: false,
        selection_panel_is_expanded: true,
        is_fullscreen: false,
    }
}

fn no_facts() -> UiFacts {
    UiFacts {
        store_context: None,
        active_store_id: None,
        ..facts()
    }
}

fn run(platform: Platform, cmd: UICommand) -> Vec<Effect> {
    viewer(platform).run_ui_command(cmd, &facts())
}

fn system(cmd: SystemCommand) -> Vec<Effect> {
    vec![Effect::SendSystem(cmd)]
}

fn report(severity: Severity, text: &str) -> Effect {
    Effect::Report {
        severity,
        text: text.to_owned(),
    }
}

#[test]
fn selected_recordings_are_saved() {
    let save = |items: Vec<Item>| {
        let mut app = viewer(Platform::Native);
        app.state.selection = ItemCollection::new(items);
        app.run_ui_command(UICommand::SaveRecording, &facts())
    };
    assert_eq!(
        save(vec![]),
        vec![Effect::SaveActiveRecording { cropped: false }]
    );
    assert_eq!(
        save(vec![Item::Other(1)]),
        vec![Effect::SaveActiveRecording { cropped: false }]
    );
    assert_eq!(
        save(vec![Item::StoreId(recording("other", "x"))]),
        vec![Effect::SaveRecording(recording("other", "x"))]
    );
    assert_eq!(
        save(vec![Item::StoreId(recording("gone", "x"))]),
        vec![Effect::SaveActiveRecording { cropped: false }]
    );
    assert_eq!(
        save(vec![
            Item::StoreId(blueprint()),
            Item::AppId("app".to_owned()),
            Item::TableId("t".to_owned()),
        ]),
        vec![Effect::SaveRecordingsToFolder(vec![
            blueprint(),
            recording("app", "rec"),
            recording("app", "rec2"),
        ])]
    );
}

#[test]
fn the_web_saves_the_active_recording() {
    let mut app = viewer(Platform::Web);
    app.state.selection = ItemCollection::new(vec![Item::AppId("app".to_owned())]);
    assert_eq!(
        app.run_ui_command(UICommand::SaveRecording, &facts()),
        vec![Effect::SaveActiveRecording { cropped: false }]
    );
    assert_eq!(
        app.run_ui_command(UICommand::SaveRecordingSelection, &facts()),
        vec![Effect::SaveActiveRecording { cropped: true }]
    );
}

#[test]
fn videos_are_native() {
    assert_eq!(
        run(Platform::Native, UICommand::SaveVideoSelection),
        vec![Effect::SaveVideo]
    );
    assert_eq!(
        run(Platform::Web, UICommand::SaveVideoSelection),
        vec![report(
            Severity::Warning,
            "Saving cropped videos is not supported in the web viewer."
        )]
    );
}

#[test]
fn files_are_meant_for_what_is_shown() {
    let pick = |cmd: UICommand, facts: &UiFacts| {
        viewer(Platform::Native).run_ui_command(cmd, facts)
    };
    let picked = |recommended_store_id: Option<StoreId>, force_store_info: bool| {
        vec![Effect::PickFiles {
            recommended_store_id,
            force_store_info,
        }]
    };
    assert_eq!(pick(UICommand::Open, &facts()), picked(None, false));
    assert_eq!(
        pick(UICommand::Import, &facts()),
        picked(Some(recording("app", "rec")), false)
    );
    let fresh = || Some(recording("fresh app", "fresh rec"));
    assert_eq!(pick(UICommand::Open, &no_facts()), picked(None, true));
    assert_eq!(pick(UICommand::Import, &no_facts()), picked(fresh(), true));
    let mut welcome = facts();
    welcome.store_context = Some(StoreContext {
        recording_id: recording("welcome", "w"),
        blueprint_id: blueprint(),
    });
    assert_eq!(pick(UICommand::Import, &welcome), picked(fresh(), true));
}

#[test]
fn picked_files_are_loaded() {
    let source = || FileSource::FileDialog {
        recommended_store_id: Some(recording("app", "rec")),
        force_store_info: true,
    };
    assert_eq!(
        on_files_picked(
            Some(recording("app", "rec")),
            true,
            &vec!["a".to_owned(), "b".to_owned()]
        ),
        vec![
            Effect::SendSystem(SystemCommand::LoadDataSource(LogDataSource::FilePath(
                source(),
                "a".to_owned()
            ))),
            Effect::SendSystem(SystemCommand::LoadDataSource(LogDataSource::FilePath(
                source(),
                "b".to_owned()
            ))),
        ]
    );
    let mut app = viewer(Platform::Web);
    let contents = |name: &str| FileContents {
        name: name.to_owned(),
        bytes: vec![1],
    };
    assert_eq!(app.on_files_read(vec![contents("x")]), vec![]);
    app.run_ui_command(UICommand::Import, &facts());
    assert_eq!(
        app.open_files,
        Some(PendingFiles {
            recommended_store_id: Some(recording("app", "rec")),
            force_store_info: false,
        })
    );
    let effects = app.on_files_read(vec![contents("x"), contents("y")]);
    assert_eq!(effects.len(), 2);
    assert_eq!(
        effects[1],
        Effect::SendSystem(SystemCommand::LoadDataSource(LogDataSource::FileContents(
            FileSource::FileDialog {
                recommended_store_id: Some(recording("app", "rec")),
                force_store_info: false,
            },
            contents("y")
        )))
    );
    assert_eq!(app.open_files, None);
}

#[test]
fn recordings_are_closed_on_command() {
    assert_eq!(
        run(Platform::Native, UICommand::CloseCurrentRecording),
        system(SystemCommand::CloseRecordingOrTable(
            RecordingOrTable::Recording {
                store_id: recording("app", "rec")
            }
        ))
    );
    assert_eq!(
        viewer(Platform::Native).run_ui_command(UICommand::CloseCurrentRecording, &no_facts()),
        vec![]
    );
    assert_eq!(
        run(Platform::Native, UICommand::CloseAllEntries),
        system(SystemCommand::CloseAllEntries)
    );
}

#[test]
fn blueprints_are_undone_and_redone() {
    let blueprint_id = blueprint();
    assert_eq!(
        run(Platform::Native, UICommand::Undo),
        system(SystemCommand::UndoBlueprint { blueprint_id })
    );
    let blueprint_id = blueprint();
    assert_eq!(
        run(Platform::Native, UICommand::Redo),
        system(SystemCommand::RedoBlueprint { blueprint_id })
    );
    let mut app = viewer(Platform::Native);
    assert_eq!(app.run_ui_command(UICommand::Undo, &no_facts()), vec![]);
    assert_eq!(app.run_ui_command(UICommand::Redo, &no_facts()), vec![]);
}

#[test]
fn playback_is_sent_to_the_active_recording() {
    let cases = [
        (
            UICommand::PlaybackTogglePlayPause,
            TimeControlCommand::TogglePlayPause,
        ),
        (
            UICommand::PlaybackFollow,
            TimeControlCommand::SetPlayState(PlayState::Following),
        ),
        (UICommand::PlaybackStepBack, TimeControlCommand::StepTimeBack),
        (
            UICommand::PlaybackStepForward,
            TimeControlCommand::StepTimeForward,
        ),
        (UICommand::PlaybackBack, TimeControlCommand::MoveBy(-100)),
        (UICommand::PlaybackForward, TimeControlCommand::MoveBy(100)),
        (
            UICommand::PlaybackBackFast,
            TimeControlCommand::MoveBy(-1000),
        ),
        (
            UICommand::PlaybackForwardFast,
            TimeControlCommand::MoveBy(1000),
        ),
        (
            UICommand::PlaybackBeginning,
            TimeControlCommand::MoveBeginning,
        ),
        (UICommand::PlaybackEnd, TimeControlCommand::MoveEnd),
        (UICommand::PlaybackRestart, TimeControlCommand::Restart),
        (
            UICommand::PlaybackSpeed(2f32.to_bits()),
            TimeControlCommand::SetSpeed(2f32.to_bits()),
        ),
    ];
    for (cmd, command) in cases {
        assert_eq!(
            viewer(Platform::Native).run_ui_command(cmd, &no_facts()),
            vec![]
        );
        assert_eq!(
            run(Platform::Web, cmd),
            system(SystemCommand::TimeControlCommands {
                store_id: recording("app", "rec"),
                time_commands: vec![command],
            })
        );
    }
}

#[test]
fn panels_are_toggled() {
    let panel = |panel: Panel| vec![Effect::TogglePanel(panel)];
    assert_eq!(
        run(Platform::Native, UICommand::ToggleTopPanel),
        panel(Panel::Top)
    );
    assert_eq!(
        run(Platform::Native, UICommand::ToggleBlueprintPanel),
        panel(Panel::Blueprint)
    );
    assert_eq!(
        run(Platform::Native, UICommand::ToggleSelectionPanel),
        panel(Panel::Selection)
    );
    assert_eq!(
        run(Platform::Native, UICommand::ToggleTimePanel),
        panel(Panel::Time)
    );
    assert_eq!(
        run(Platform::Native, UICommand::ExpandBlueprintPanel),
        panel(Panel::Blueprint)
    );
    assert_eq!(
        run(Platform::Native, UICommand::ExpandSelectionPanel),
        vec![]
    );
}

#[test]
fn switches_are_their_own_inverse() {
    let mut app = viewer(Platform::Native);
    for cmd in [
        UICommand::ToggleMemoryPanel,
        UICommand::TogglePanelStateOverrides,
        UICommand::ToggleEguiDebugPanel,
        UICommand::ToggleBlueprintInspectionPanel,
        UICommand::ToggleChunkStoreBrowser,
    ] {
        let state = |app: &App| {
            (
                app.memory_panel_open,
                app.panel_state_overrides_active,
                app.egui_debug_panel_open,
                app.app_options().inspect_blueprint_timeline,
                app.state.navigation.current.clone(),
            )
        };
        let before = state(&app);
        assert_eq!(app.run_ui_command(cmd, &facts()), vec![]);
        assert_ne!(state(&app), before);
        assert_eq!(app.run_ui_command(cmd, &facts()), vec![]);
        assert_eq!(state(&app), before);
    }
}

#[test]
fn full_screen_is_toggled() {
    let mut big = facts();
    assert_eq!(
        viewer(Platform::Native).run_ui_command(UICommand::ToggleFullscreen, &big),
        vec![Effect::SetFullscreen(true)]
    );
    big.is_fullscreen = true;
    assert_eq!(
        viewer(Platform::Native).run_ui_command(UICommand::ToggleFullscreen, &big),
        vec![Effect::SetFullscreen(false)]
    );
    let mut app = viewer(Platform::Web);
    assert_eq!(
        app.run_ui_command(UICommand::ToggleFullscreen, &big),
        vec![]
    );
    app.startup_options.fullscreen_options = true;
    assert_eq!(
        app.run_ui_command(UICommand::ToggleFullscreen, &big),
        vec![Effect::ToggleHostFullscreen]
    );
}

#[test]
fn some_commands_are_for_one_platform() {
    let native = [
        (UICommand::Quit, Effect::CloseWindow),
        (UICommand::OpenProfiler, Effect::StartProfiler),
        (UICommand::ZoomIn, Effect::SetZoom(ZoomStep::In)),
        (UICommand::ZoomOut, Effect::SetZoom(ZoomStep::Out)),
        (UICommand::ZoomReset, Effect::SetZoom(ZoomStep::Reset)),
        (UICommand::ScreenshotWholeApp, Effect::TakeScreenshot),
        (
            UICommand::PrintChunkStore,
            Effect::PrintStore(StorePrint::ChunkStore),
        ),
        (
            UICommand::PrintBlueprintStore,
            Effect::PrintStore(StorePrint::BlueprintStore),
        ),
        (
            UICommand::PrintPrimaryCache,
            Effect::PrintStore(StorePrint::PrimaryCache),
        ),
    ];
    for (cmd, effect) in native {
        assert_eq!(run(Platform::Native, cmd), vec![effect]);
        assert_eq!(run(Platform::Web, cmd), vec![]);
    }
    let web = [
        (
            UICommand::RestartWithWebGl,
            Effect::RestartWithRenderer("webgl".to_owned()),
        ),
        (
            UICommand::RestartWithWebGpu,
            Effect::RestartWithRenderer("webgpu".to_owned()),
        ),
    ];
    for (cmd, effect) in web {
        assert_eq!(run(Platform::Web, cmd), vec![effect]);
        assert_eq!(run(Platform::Native, cmd), vec![]);
    }
    assert_eq!(
        viewer(Platform::Native).run_ui_command(UICommand::PrintChunkStore, &no_facts()),
        vec![]
    );
}

#[test]
fn history_and_addresses_are_opened() {
    let options = |follow_if_http: bool| OpenUrlOptions {
        follow_if_http,
        select_redap_source_when_loaded: true,
        show_loader: true,
    };
    assert_eq!(
        run(Platform::Native, UICommand::NavigateBack),
        vec![Effect::OpenPreviousUrl(options(true))]
    );
    assert_eq!(
        run(Platform::Native, UICommand::NavigateForward),
        vec![Effect::OpenNextUrl(options(true))]
    );
    let app = viewer(Platform::Native);
    assert_eq!(
        app.open_url_or_file("http://x".to_owned(), Ok(())),
        Effect::OpenContentUrl {
            url: "http://x".to_owned(),
            options: options(false),
        }
    );
    assert_eq!(
        app.open_url_or_file("http://x".to_owned(), Err("bad".to_owned())),
        report(Severity::Error, "Failed to open URL http://x: bad")
    );
    assert_eq!(
        on_palette_action(CommandPaletteAction::OpenUrl("u".to_owned(), Ok(()))),
        Effect::OpenContentUrl {
            url: "u".to_owned(),
            options: options(false),
        }
    );
    assert_eq!(
        on_palette_action(CommandPaletteAction::OpenUrl(
            "u".to_owned(),
            Err("bad".to_owned())
        )),
        report(Severity::Warning, "bad")
    );
    assert_eq!(
        on_palette_action(CommandPaletteAction::UiCommand(UICommand::Quit)),
        Effect::SendUi(UICommand::Quit)
    );
}

#[test]
fn the_remaining_commands_do_as_they_say() {
    let url = |address: &str| Effect::OpenBrowserUrl {
        address: address.to_owned(),
        new_tab: true,
    };
    let cases = vec![
        (UICommand::SaveBlueprint, vec![Effect::SaveBlueprint]),
        (UICommand::OpenUrl, vec![Effect::OpenUrlModal]),
        (UICommand::NextRecording, vec![Effect::SelectNextRecording]),
        (
            UICommand::PreviousRecording,
            vec![Effect::SelectPreviousRecording],
        ),
        (
            UICommand::OpenWebHelp,
            vec![url(
                "https://www.rerun.io/docs/getting-started/navigating-the-viewer",
            )],
        ),
        (
            UICommand::OpenRerunDiscord,
            vec![url("https://discord.gg/PXtCgFBSmH")],
        ),
        (
            UICommand::ResetViewer,
            system(SystemCommand::ResetViewer),
        ),
        (
            UICommand::ClearActiveBlueprint,
            system(SystemCommand::ClearActiveBlueprint),
        ),
        (
            UICommand::ClearActiveBlueprintAndEnableHeuristics,
            system(SystemCommand::ClearActiveBlueprintAndEnableHeuristics),
        ),
        (UICommand::Settings, system(SystemCommand::OpenSettings)),
        (
            UICommand::ToggleCommandPalette,
            vec![Effect::ToggleCommandPalette],
        ),
        (
            UICommand::ResetEguiMemory,
            vec![Effect::ResetEguiMemory, Effect::ApplyStyle],
        ),
        (UICommand::Share, vec![Effect::OpenShareModal]),
        (UICommand::CopyDirectLink, vec![Effect::CopyLink]),
        (
            UICommand::CopyTimeSelectionLink,
            vec![Effect::CopyTimeSelectionLink],
        ),
        (
            UICommand::CopyEntityHierarchy,
            vec![Effect::CopyEntityHierarchy],
        ),
        (UICommand::AddRedapServer, vec![Effect::OpenAddServerModal]),
    ];
    for (cmd, effects) in cases {
        assert_eq!(run(Platform::Native, cmd), effects);
    }
    assert_eq!(
        viewer(Platform::Native).run_ui_command(UICommand::CopyEntityHierarchy, &no_facts()),
        vec![report(
            Severity::Warning,
            "Could not copy entity hierarchy: No active recording"
        )]
    );
}

#[test]
fn servers_may_ask_for_credentials() {
    assert_eq!(
        App::auth_error_handler("o".to_owned(), "o/x".to_owned()),
        SystemCommand::EditRedapServerModal {
            origin: "o".to_owned(),
            open_on_success: Some("o/x".to_owned()),
            title: Some("Authenticate to see this recording".to_owned()),
        }
    );
}
