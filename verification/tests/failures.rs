use re_viewer::commands::Effect;
use re_viewer::commands::Severity;
use re_viewer::failures::on_chunk_added;
use re_viewer::failures::on_file_saved;
use re_viewer::failures::renderer_not_set;
use re_viewer::failures::report_failure;
use re_viewer::failures::url_not_opened;
use re_viewer::failures::Failure;

fn report(severity: Severity, text: &str) -> Effect {
    Effect::Report {
        severity,
        text: text.to_owned(),
    }
}

#[test]
fn failures_give_their_reason() {
    let cases = [
        (Failure::SaveRecording, "Failed to save recording: why"),
        (Failure::SaveVideo, "Failed to save cropped video: why"),
        (Failure::SaveBlueprint, "Failed to save blueprint: why"),
        (Failure::SaveFile, "Failed to save file: why"),
        (Failure::WriteFile, "File saving failed: why"),
        (
            Failure::EncodeScreenshot,
            "Failed to encode screenshot as PNG: why",
        ),
        (
            Failure::ShareLink,
            "Cannot share link to current screen: why",
        ),
        (
            Failure::CreateCredentials,
            "Failed to create credentials: why",
        ),
        (Failure::StoreCredentials, "Failed to store credentials: why"),
        (Failure::Logout, "Failed to logout: why"),
        (
            Failure::CreateViewClasses,
            "Failed to create view class registry: why",
        ),
        (
            Failure::CreateDefaultValues,
            "Failed to create list of serialized default values for components: why",
        ),
    ];
    for (failure, text) in cases {
        assert_eq!(report_failure(failure, "why"), report(Severity::Error, text));
    }
    assert_eq!(
        report_failure(Failure::ResetViewer, "why"),
        report(Severity::Warning, "Failed to reset viewer: why")
    );
}

#[test]
fn other_failures_are_told() {
    assert_eq!(
        on_chunk_added(Err("why".to_owned())),
        vec![Effect::ReportOnce {
            severity: Severity::Warning,
            text: "Failed to append chunk: why".to_owned(),
        }]
    );
    assert_eq!(on_chunk_added(Ok(())), vec![]);
    assert_eq!(
        renderer_not_set("webgl"),
        report(
            Severity::Error,
            "Failed to set URL parameter `renderer=webgl` & refresh page."
        )
    );
}

#[test]
fn addresses_are_named_once() {
    assert_eq!(
        url_not_opened("http://x", "bad url http://x"),
        report(Severity::Error, "bad url http://x")
    );
    assert_eq!(
        url_not_opened("http://x", "bad url"),
        report(Severity::Error, "Failed to open URL http://x: bad url")
    );
}

#[test]
fn saved_files_are_told() {
    assert_eq!(
        on_file_saved(Ok("a b.rrd".to_owned())),
        report(Severity::Info, "File saved to \"a b.rrd\".")
    );
    assert_eq!(
        on_file_saved(Err("why".to_owned())),
        report(Severity::Error, "why")
    );
}
