use re_viewer::app::App;
use re_viewer::app::AppEnvironment;
use re_viewer::app::AppOptions;
use re_viewer::app::BuildInfo;
use re_viewer::app::Defaults;
use re_viewer::app::PreviousVersion;
use re_viewer::app::StartupOptions;
use re_viewer::app::StoredState;
use re_viewer::commands::Effect;
use re_viewer::commands::Severity;
use re_viewer::persistence::blueprint_loader;
use re_viewer::persistence::blueprints_not_saved;
use re_viewer::persistence::check_loaded_blueprint;
use re_viewer::persistence::LoadedStore;
use re_viewer::persistence::SaveStep;
use re_viewer::types::DisplayMode;
use re_viewer::types::Platform;
use re_viewer::types::StoreKind;

fn viewer(platform: Platform) -> App {
    App::with_commands(
        platform,
        BuildInfo {
            version: "1".to_owned(),
            analytics: false,
        },
        AppEnvironment::Test,
        StartupOptions {
            persist_state: true,
            is_in_notebook: false,
            expect_data_soon: None,
            hide_welcome_screen: false,
            web_history_enabled: false,
            enable_history: true,
            screenshot_to_path_then_quit: None,
            resolution_in_points: None,
            memory_limit: None,
            on_event: true,
            fullscreen_options: false,
            video_decoder_hw_acceleration: None,
        },
        Defaults {
            app_options: AppOptions {
                inspect_blueprint_timeline: false,
                show_metrics: true,
                show_notification_toasts: true,
                blueprint_gc: true,
                video_decoder_hw_acceleration: 0,
            },
            home: DisplayMode::RedapServer("home".to_owned()),
            examples_origin: "examples".to_owned(),
            welcome_screen_app_id: "welcome".to_owned(),
        },
        StoredState::NoStorage,
        PreviousVersion::Unknown,
    )
    .0
}

#[test]
fn blueprints_are_always_checked() {
    let native = blueprint_loader(Platform::Native);
    assert!(native.loader.is_some() && native.saver.is_some() && native.validator.is_some());
    let web = blueprint_loader(Platform::Web);
    assert!(web.loader.is_none() && web.saver.is_none() && web.validator.is_some());
}

#[test]
fn broken_blueprint_files_are_ignored() {
    let store = |kind: StoreKind, is_valid: bool| LoadedStore { kind, is_valid };
    let check = |stores: Option<Vec<LoadedStore>>| check_loaded_blueprint("app", "/x.rbl", stores);
    assert_eq!(check(None), (false, vec![]));
    assert_eq!(check(Some(vec![])), (true, vec![]));
    assert_eq!(
        check(Some(vec![
            store(StoreKind::Blueprint, true),
            store(StoreKind::Recording, false)
        ])),
        (true, vec![])
    );
    assert_eq!(
        check(Some(vec![
            store(StoreKind::Blueprint, true),
            store(StoreKind::Blueprint, false)
        ])),
        (
            false,
            vec![Effect::ReportOnce {
                severity: Severity::Warning,
                text: "Blueprint for app at \"/x.rbl\" appears invalid - will ignore. This is expected if you have just upgraded Rerun versions."
                    .to_owned(),
            }]
        )
    );
}

#[test]
fn the_state_is_saved_in_steps() {
    let mut app = viewer(Platform::Native);
    let state = vec![SaveStep::Version, SaveStep::State, SaveStep::Tokens];
    let with = |steps: &[SaveStep]| -> Vec<SaveStep> {
        state.iter().chain(steps).copied().collect()
    };
    assert_eq!(
        app.save(true),
        with(&[SaveStep::CollectBlueprints, SaveStep::Blueprints])
    );
    assert_eq!(app.save(false), with(&[SaveStep::NoBlueprints]));
    app.state.app_options.blueprint_gc = false;
    assert_eq!(app.save(true), with(&[SaveStep::Blueprints]));
    app.startup_options.persist_state = false;
    assert_eq!(app.save(true), vec![]);
}

#[test]
fn blueprints_that_are_not_saved_are_told() {
    let told = |failure: Option<&str>| blueprints_not_saved(failure.map(str::to_owned));
    let error = |text: &str| {
        vec![Effect::Report {
            severity: Severity::Error,
            text: text.to_owned(),
        }]
    };
    assert_eq!(
        told(Some("why")),
        error("Saving blueprints failed: why")
    );
    assert_eq!(
        told(None),
        error("Could not save blueprints: the store hub is not available")
    );
}
