use re_viewer::app::App;
use re_viewer::app::AppEnvironment;
use re_viewer::app::AppOptions;
use re_viewer::app::BuildInfo;
use re_viewer::app::Defaults;
use re_viewer::app::PreviousVersion;
use re_viewer::app::StartupOptions;
use re_viewer::app::StoredState;
use re_viewer::commands::Effect;
use re_viewer::commands::Severity;
use re_viewer::history::strip_fragment;
use re_viewer::history::time_selection_for_link;
use re_viewer::history::web_history_change;
use re_viewer::history::web_history_time;
use re_viewer::history::HistoryChange;
use re_viewer::history::HistoryUpdate;
use re_viewer::history::PausedTime;
use re_viewer::types::DisplayMode;
use re_viewer::types::Platform;
use re_viewer::types::TimeCursor;
use re_viewer::types::TimeRange;
use re_viewer::types::TimeSelection;

fn viewer(platform: Platform, web_history_enabled: bool) -> App {
    App::with_commands(
        platform,
        BuildInfo {
            version: "1".to_owned(),
            analytics: false,
        },
        AppEnvironment::Test,
        StartupOptions {
            persist_state: false,
            is_in_notebook: false,
            expect_data_soon: None,
            hide_welcome_screen: false,
            web_history_enabled,
            enable_history: false,
            screenshot_to_path_then_quit: None,
            resolution_in_points: None,
            memory_limit: None,
            on_event: false,
            fullscreen_options: false,
            video_decoder_hw_acceleration: None,
        },
        Defaults {
            app_options: AppOptions {
                inspect_blueprint_timeline: false,
                show_metrics: true,
                show_notification_toasts: true,
                blueprint_gc: true,
                video_decoder_hw_acceleration: 0,
            },
            home: DisplayMode::RedapServer("home".to_owned()),
            examples_origin: "examples".to_owned(),
            welcome_screen_app_id: "welcome".to_owned(),
        },
        StoredState::NoStorage,
        PreviousVersion::Unknown,
    )
    .0
}

#[test]
fn the_browser_history_waits_for_the_user() {
    let native = viewer(Platform::Native, false);
    assert_eq!(
        native.update_history(true, true, true),
        HistoryUpdate::Viewer
    );
    let web = viewer(Platform::Web, true);
    assert_eq!(web.update_history(false, false, false), HistoryUpdate::Web);
    assert_eq!(
        web.update_history(true, false, false),
        HistoryUpdate::Nothing
    );
    assert_eq!(
        web.update_history(false, true, false),
        HistoryUpdate::Nothing
    );
    assert_eq!(
        web.update_history(false, false, true),
        HistoryUpdate::Nothing
    );
    assert_eq!(
        viewer(Platform::Native, true).update_history(false, false, false),
        HistoryUpdate::Nothing
    );
}

#[test]
fn fragments_are_stripped() {
    assert_eq!(strip_fragment("?url=a%23b"), "?url=a");
    assert_eq!(strip_fragment("?url=a%23b%23c"), "?url=a%23b");
    assert_eq!(strip_fragment("?url=a"), "?url=a");
    assert_eq!(strip_fragment("%23"), "");
}

#[test]
fn entries_are_replaced_where_only_the_fragment_is_new() {
    let queries = |a: &str, b: &str| Some((a.to_owned(), b.to_owned()));
    assert_eq!(
        web_history_change(true, queries("a", "b")),
        HistoryChange::Nothing
    );
    assert_eq!(
        web_history_change(false, queries("a%23x", "a%23y")),
        HistoryChange::ReplaceEntry
    );
    assert_eq!(
        web_history_change(false, queries("a", "a%23y")),
        HistoryChange::ReplaceEntry
    );
    assert_eq!(
        web_history_change(false, queries("a%23x", "b%23x")),
        HistoryChange::PushEntry
    );
    assert_eq!(web_history_change(false, None), HistoryChange::PushEntry);
}

#[test]
fn the_address_holds_the_last_paused_time() {
    let paused = |has_type: bool, last_paused_time: Option<i64>| {
        web_history_time(Some(PausedTime {
            timeline: "frame".to_owned(),
            has_type,
            last_paused_time,
        }))
    };
    assert_eq!(
        paused(true, Some(5)),
        Some(TimeCursor {
            timeline: "frame".to_owned(),
            time: 5
        })
    );
    assert_eq!(paused(false, Some(5)), None);
    assert_eq!(paused(true, None), None);
    assert_eq!(web_history_time(None), None);
}

#[test]
fn links_hold_the_time_selection() {
    let range = TimeRange { min: 1, max: 2 };
    let warning = |text: &str| {
        vec![Effect::Report {
            severity: Severity::Warning,
            text: text.to_owned(),
        }]
    };
    assert_eq!(
        time_selection_for_link(true, Some(range), Some("frame".to_owned())),
        (
            Some(TimeSelection {
                timeline: "frame".to_owned(),
                range
            }),
            vec![]
        )
    );
    assert_eq!(
        time_selection_for_link(true, None, Some("frame".to_owned())),
        (None, warning("No timeline selection to copy"))
    );
    assert_eq!(
        time_selection_for_link(true, Some(range), None),
        (None, warning("No timeline selection to copy"))
    );
    assert_eq!(
        time_selection_for_link(false, Some(range), Some("frame".to_owned())),
        (
            None,
            warning("The current recording doesn't support sharing a time range")
        )
    );
}
