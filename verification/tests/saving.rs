use re_viewer::commands::Effect;
use re_viewer::commands::Severity;
use re_viewer::saving::copy_entity_hierarchy_to_clipboard;
use re_viewer::saving::no_folder_selected;
use re_viewer::saving::process_screenshot_result;
use re_viewer::saving::recording_stem;
use re_viewer::saving::rrd_file_name;
use re_viewer::saving::rrd_version;
use re_viewer::saving::save_active_recording;
use re_viewer::saving::save_blueprint;
use re_viewer::saving::save_recording;
use re_viewer::saving::FileProposal;
use re_viewer::saving::ManySaves;
use re_viewer::saving::RecordingFile;
use re_viewer::saving::RrdVersion;
use re_viewer::saving::ScreenshotStep;
use re_viewer::saving::ScreenshotTarget;
use re_viewer::types::Platform;
use re_viewer::types::StoreId;
use re_viewer::types::StoreKind;

fn recording() -> StoreId {
    StoreId::recording("app".to_owned(), "rec".to_owned())
}

fn file(cropped: bool, title: &str) -> RecordingFile {
    RecordingFile {
        store_id: recording(),
        cropped,
        proposal: proposal("data.rrd", title),
    }
}

fn proposal(file_name: &str, title: &str) -> FileProposal {
    FileProposal {
        file_name: file_name.to_owned(),
        title: title.to_owned(),
    }
}

fn report(severity: Severity, text: &str) -> Effect {
    Effect::Report {
        severity,
        text: text.to_owned(),
    }
}

#[test]
fn stores_keep_their_version() {
    assert_eq!(
        rrd_version(Some("0.20.0".to_owned())),
        RrdVersion::Store("0.20.0".to_owned())
    );
    assert_eq!(rrd_version(None), RrdVersion::Local);
}

#[test]
fn recordings_are_named_after_themselves() {
    assert_eq!(
        save_recording(Some("run".to_owned()), false),
        proposal("run.rrd", "Save recording")
    );
    assert_eq!(
        save_recording(None, true),
        proposal("data.rrd", "Save cropped recording")
    );
    assert_eq!(
        save_active_recording(Some(recording()), None, false, true),
        Ok(file(false, "Save recording"))
    );
    assert_eq!(
        save_active_recording(Some(recording()), None, true, false),
        Ok(file(false, "Save recording"))
    );
    assert_eq!(
        save_active_recording(Some(recording()), None, true, true),
        Ok(file(true, "Save cropped recording"))
    );
    assert_eq!(
        save_active_recording(None, None, true, true),
        Err("No recording data to save".to_owned())
    );
}

#[test]
fn saved_blueprints_get_another_id() {
    let blueprint = StoreId {
        kind: StoreKind::Blueprint,
        application_id: "app".to_owned(),
        recording_id: "bp".to_owned(),
    };
    let file = save_blueprint(Some(blueprint), "fresh".to_owned(), "app").unwrap();
    assert_eq!(file.store_id.kind, StoreKind::Blueprint);
    assert_eq!(file.store_id.application_id, "app");
    assert_eq!(file.store_id.recording_id, "fresh");
    assert_eq!(file.proposal, proposal("app.rbl", "Save blueprint"));
    assert_eq!(
        save_blueprint(None, "fresh".to_owned(), "app"),
        Err("No blueprint to save".to_owned())
    );
}

#[test]
fn recordings_in_a_folder_have_names() {
    assert_eq!(recording_stem(Some("run".to_owned()), &recording()), "run");
    assert_eq!(recording_stem(None, &recording()), "app-rec");
    assert_eq!(rrd_file_name("app-rec"), "app-rec.rrd");
    assert_eq!(
        no_folder_selected(),
        report(Severity::Info, "No folder selected - recordings not saved.")
    );
}

#[test]
fn the_user_is_told_once_about_many_recordings() {
    for failing in 0..4 {
        let (mut saves, effect) = ManySaves::start(3, "/home/x".to_owned());
        assert_eq!(
            effect,
            report(Severity::Info, "Saving 3 recordings to /home/x\u{2026}")
        );
        let told: Vec<Effect> = (0..3).filter_map(|i| saves.on_saved(i != failing)).collect();
        let expected = if failing < 3 {
            report(Severity::Error, "Some recordings failed to save.")
        } else {
            report(
                Severity::Info,
                "3 recordings successfully saved to /home/x",
            )
        };
        assert_eq!(told, vec![expected]);
        assert_eq!(saves.num_remaining, 0);
    }
}

#[test]
fn the_entities_are_copied() {
    assert_eq!(
        copy_entity_hierarchy_to_clipboard(&recording(), "/a\n/b"),
        vec![
            Effect::CopyText("Application ID: app\nRecording ID: rec\n\n/a\n/b".to_owned()),
            Effect::NotifySuccess("Copied entity hierarchy with schema to clipboard".to_owned()),
        ]
    );
}

#[test]
fn screenshots_go_where_they_were_asked_for() {
    let data = vec![255u8; 16];
    let process = |platform: Platform, asked_for: Option<(String, ScreenshotTarget)>| {
        process_screenshot_result(platform, asked_for, 2, 2, &data)
    };
    assert_eq!(
        process(
            Platform::Web,
            Some(("shot".to_owned(), ScreenshotTarget::CopyToClipboard))
        ),
        ScreenshotStep::CopyImage
    );
    assert_eq!(process(Platform::Web, None), ScreenshotStep::Nothing);
    assert_eq!(
        process(Platform::Native, None),
        ScreenshotStep::SaveWholeApp
    );
    match process(
        Platform::Native,
        Some(("shot".to_owned(), ScreenshotTarget::SaveToDisk)),
    ) {
        ScreenshotStep::SaveFile {
            proposal: proposed,
            png,
        } => {
            assert_eq!(proposed, proposal("shot.png", "Save screenshot"));
            let decoded = image::load_from_memory(&png).unwrap().to_rgba8();
            assert_eq!(decoded.dimensions(), (2, 2));
            assert_eq!(decoded.into_raw(), data);
        }
        other => panic!("unexpected: {other:?}"),
    }
}

#[test]
fn empty_screenshots_cannot_be_encoded() {
    let step = process_screenshot_result(
        Platform::Native,
        Some(("shot".to_owned(), ScreenshotTarget::SaveToDisk)),
        0,
        0,
        &vec![],
    );
    match step {
        ScreenshotStep::Report(Effect::Report { severity, text }) => {
            assert_eq!(severity, Severity::Error);
            assert!(text.starts_with("Failed to encode screenshot as PNG: "));
        }
        other => panic!("unexpected: {other:?}"),
    }
}
