use re_viewer::app::App;
use re_viewer::app::AppEnvironment;
use re_viewer::app::AppOptions;
use re_viewer::app::BuildInfo;
use re_viewer::app::Defaults;
use re_viewer::app::PreviousVersion;
use re_viewer::app::StartupOptions;
use re_viewer::app::StoredState;
use re_viewer::commands::Effect;
use re_viewer::commands::UICommand;
use re_viewer::frame::clear_color;
use re_viewer::frame::conflicting_commands;
use re_viewer::frame::on_keys_taken;
use re_viewer::frame::ClearColor;
use re_viewer::frame::FrameStep;
use re_viewer::frame::TakenKey;
use re_viewer::frame::UiStep;
use re_viewer::types::DisplayMode;
use re_viewer::types::Item;
use re_viewer::types::ItemCollection;
use re_viewer::types::LogReceiver;
use re_viewer::types::LogSource;
use re_viewer::types::Platform;
use re_viewer::types::RecordingOrTable;
use re_viewer::types::StoreId;

fn viewer(platform: Platform) -> App {
    App::with_commands(
        platform,
        BuildInfo {
            version: "1".to_owned(),
            analytics: false,
        },
        AppEnvironment::Test,
        StartupOptions {
            persist_state: true,
            is_in_notebook: false,
            expect_data_soon: None,
            hide_welcome_screen: false,
            web_history_enabled: false,
            enable_history: true,
            screenshot_to_path_then_quit: None,
            resolution_in_points: None,
            memory_limit: None,
            on_event: true,
            fullscreen_options: false,
            video_decoder_hw_acceleration: None,
        },
        Defaults {
            app_options: AppOptions {
                inspect_blueprint_timeline: false,
                show_metrics: true,
                show_notification_toasts: true,
                blueprint_gc: true,
                video_decoder_hw_acceleration: 0,
            },
            home: DisplayMode::RedapServer("home".to_owned()),
            examples_origin: "examples".to_owned(),
            welcome_screen_app_id: "welcome".to_owned(),
        },
        StoredState::NoStorage,
        PreviousVersion::Unknown,
    )
    .0
}

fn recording() -> StoreId {
    StoreId::recording("app".to_owned(), "rec".to_owned())
}

#[test]
fn a_native_frame_begins() {
    let mut app = viewer(Platform::Native);
    app.startup_options.resolution_in_points = Some((1, 2));
    assert_eq!(
        app.begin_frame(true, true),
        vec![
            FrameStep::MoveTime,
            FrameStep::OrderDataSources,
            FrameStep::SetWindowSize(1, 2),
            FrameStep::UpdateScreenshotter,
        ]
    );
    assert_eq!(
        app.begin_frame(false, false),
        vec![
            FrameStep::MoveTime,
            FrameStep::OrderDataSources,
            FrameStep::UpdateScreenshotter,
        ]
    );
}

#[test]
fn a_web_frame_begins() {
    let mut app = viewer(Platform::Web);
    app.startup_options.resolution_in_points = Some((1, 2));
    assert_eq!(
        app.begin_frame(true, true),
        vec![
            FrameStep::GoBack,
            FrameStep::GoForward,
            FrameStep::MoveTime,
            FrameStep::OrderDataSources,
        ]
    );
    app.startup_options.enable_history = false;
    assert_eq!(
        app.begin_frame(true, true),
        vec![FrameStep::MoveTime, FrameStep::OrderDataSources]
    );
}

#[test]
fn a_frame_goes_through_its_steps() {
    let mut app = viewer(Platform::Native);
    assert_eq!(
        app.update(false, true),
        vec![
            FrameStep::UpdateRamWarner,
            FrameStep::UpdateMemoryPanel { with_stores: false },
            FrameStep::CheckShortcuts,
            FrameStep::PurgeMemory,
            FrameStep::BeginFrameCaches,
            FrameStep::ReceiveMessages,
            FrameStep::FinishFrame,
        ]
    );
    assert_eq!(
        app.finish_frame(true),
        vec![
            FrameStep::CollectBlueprints,
            FrameStep::PurgeEmptyStores,
            FrameStep::CleanUpState,
            FrameStep::ShowFileSaverProgress,
            FrameStep::ShowVideoProgress,
            FrameStep::EnsureActiveApp,
            FrameStep::Show,
            FrameStep::PaintWindowFrame,
            FrameStep::ShowCommandPalette,
            FrameStep::HandleDroppedFiles,
            FrameStep::RunUiCommands,
            FrameStep::RunSystemCommands,
            FrameStep::UpdateHistory,
            FrameStep::ProcessScreenshots,
        ]
    );
    app.startup_options.memory_limit = Some(1);
    app.memory_panel_open = true;
    assert_eq!(
        app.update(false, false),
        vec![
            FrameStep::UpdateMemoryPanel { with_stores: true },
            FrameStep::CheckShortcuts,
            FrameStep::PurgeMemory,
            FrameStep::ReceiveMessages,
            FrameStep::FinishFrame,
        ]
    );
    assert_eq!(app.update(true, true), vec![FrameStep::CloseWindow]);
}

#[test]
fn options_count_once_messages_are_received() {
    let mut app = viewer(Platform::Native);
    app.state.app_options.blueprint_gc = false;
    assert_eq!(app.finish_frame(false)[0], FrameStep::PurgeEmptyStores);
    // A reset that was queued by a message brings the default back.
    app.reset_viewer();
    assert_eq!(app.finish_frame(false)[0], FrameStep::CollectBlueprints);
    assert!(!app
        .finish_frame(false)
        .contains(&FrameStep::PaintWindowFrame));
}

#[test]
fn what_the_user_sets_is_taken_over() {
    let mut app = viewer(Platform::Native);
    assert_eq!(app.finish_ui(), vec![UiStep::ShowToasts]);
    let mut startup_options = viewer(Platform::Native).startup_options;
    startup_options.memory_limit = Some(7);
    let mut app_options = *app.app_options();
    app_options.show_notification_toasts = false;
    app.on_state_shown(startup_options, app_options);
    assert_eq!(app.startup_options().memory_limit, Some(7));
    assert_eq!(app.app_options(), &app_options);
    assert_eq!(app.finish_ui(), vec![]);
}

#[test]
fn the_welcome_screen_is_the_last_resort() {
    let mut app = viewer(Platform::Native);
    let ids = |ids: &[&str]| -> Vec<String> { ids.iter().map(|id| (*id).to_owned()).collect() };
    assert_eq!(app.ensure_active_app(true, &ids(&["b"])), vec![]);
    assert_eq!(
        app.ensure_active_app(false, &ids(&["welcome", "b", "a", "ab"])),
        vec![Effect::SetActiveApp("a".to_owned())]
    );
    app.state
        .navigation
        .replace(DisplayMode::LocalTable("t".to_owned()));
    assert_eq!(
        app.ensure_active_app(false, &ids(&["welcome"])),
        vec![Effect::SetActiveApp("welcome".to_owned())]
    );
    assert_eq!(app.state.navigation.current, app.state.navigation.home);
}

#[test]
fn loading_screens_are_left_when_their_source_is_gone() {
    let mut app = viewer(Platform::Native);
    let loading = DisplayMode::Loading(LogSource::Stdin);
    app.state.navigation.replace(loading.clone());
    app.add_log_receiver(LogReceiver {
        source: LogSource::Stdin,
        handle: 1,
    });
    assert_eq!(app.ensure_active_app(false, &vec![]), vec![]);
    assert_eq!(app.state.navigation.current, loading);
    app.rx_log.clear();
    assert_eq!(app.ensure_active_app(false, &vec![]), vec![]);
    assert_eq!(app.state.navigation.current, app.state.navigation.home);
}

#[test]
fn what_becomes_active_is_selected() {
    let mut app = viewer(Platform::Native);
    app.on_first_app_activated(Some(RecordingOrTable::Recording {
        store_id: recording(),
    }));
    assert_eq!(
        app.state.selection,
        ItemCollection::One(Item::StoreId(recording()))
    );
    app.on_first_app_activated(None);
    assert_eq!(
        app.state.selection,
        ItemCollection::One(Item::StoreId(recording()))
    );
    app.on_first_app_activated(Some(RecordingOrTable::Table {
        table_id: "t".to_owned(),
    }));
    assert_eq!(
        app.state.selection,
        ItemCollection::One(Item::TableId("t".to_owned()))
    );
}

#[test]
fn the_viewer_is_shown_in_steps() {
    let app = viewer(Platform::Native);
    assert_eq!(
        app.ui(true, true, true),
        vec![
            UiStep::BeginRenderFrame,
            UiStep::UpdateServers,
            UiStep::CollectCaptures,
            UiStep::RequestCaptures,
            UiStep::ShowState,
            UiStep::Submit,
            UiStep::ShowTextLogs,
        ]
    );
    assert_eq!(
        app.ui(true, true, false),
        vec![
            UiStep::BeginRenderFrame,
            UiStep::ShowState,
            UiStep::Submit,
            UiStep::ShowTextLogs,
        ]
    );
    assert_eq!(app.ui(false, true, true), vec![UiStep::ShowTextLogs]);
    assert_eq!(app.ui(true, false, true), vec![]);
    assert_eq!(
        viewer(Platform::Web).ui(true, true, true)[..3],
        [
            UiStep::BeginRenderFrame,
            UiStep::UpdateServers,
            UiStep::ShowState
        ]
    );
}

#[test]
fn keys_are_taken_unless_text_is_edited() {
    assert_eq!(conflicting_commands(true), vec![]);
    let commands = conflicting_commands(false);
    assert_eq!(commands.len(), 9);
    assert_eq!(commands[0], UICommand::PlaybackTogglePlayPause);
    assert_eq!(commands[8], UICommand::PlaybackBack);
    let key = |command: UICommand, is_sideways: bool| TakenKey {
        command,
        is_sideways,
    };
    assert_eq!(on_keys_taken(&vec![]), (vec![], false));
    assert_eq!(
        on_keys_taken(&vec![key(UICommand::PlaybackEnd, false)]),
        (vec![Effect::SendUi(UICommand::PlaybackEnd)], false)
    );
    assert_eq!(
        on_keys_taken(&vec![
            key(UICommand::PlaybackBack, true),
            key(UICommand::PlaybackEnd, false)
        ]),
        (
            vec![
                Effect::SendUi(UICommand::PlaybackBack),
                Effect::SendUi(UICommand::PlaybackEnd)
            ],
            true
        )
    );
}

#[test]
fn the_window_is_cleared() {
    assert_eq!(clear_color(true, false), ClearColor::Transparent);
    assert_eq!(clear_color(false, true), ClearColor::Black);
    assert_eq!(clear_color(false, false), ClearColor::White);
}
