//! What the user is told when something fails.
use crate::commands;
use crate::commands::Effect;
use crate::commands::EffectView;
use crate::commands::Severity;
use crate::text;
use vstd::prelude::*;
use vstd::string::*;

verus! {

/// What failed, for a reason.
#[derive(Clone, Copy, Debug, PartialEq, Eq, Structural)]
pub enum Failure {
    SaveRecording,
    SaveVideo,
    SaveBlueprint,
    SaveFile,
    WriteFile,
    EncodeScreenshot,
    ShareLink,
    CreateCredentials,
    StoreCredentials,
    Logout,
    ResetViewer,
    CreateViewClasses,
    CreateDefaultValues,
}

/// What comes before the reason.
pub open spec fn failure_text(failure: Failure) -> Seq<char> {
    match failure {
        Failure::SaveRecording => "Failed to save recording: "@,
        Failure::SaveVideo => "Failed to save cropped video: "@,
        Failure::SaveBlueprint => "Failed to save blueprint: "@,
        Failure::SaveFile => "Failed to save file: "@,
        Failure::WriteFile => "File saving failed: "@,
        Failure::EncodeScreenshot => "Failed to encode screenshot as PNG: "@,
        Failure::ShareLink => "Cannot share link to current screen: "@,
        Failure::CreateCredentials => "Failed to create credentials: "@,
        Failure::StoreCredentials => "Failed to store credentials: "@,
        Failure::Logout => "Failed to logout: "@,
        Failure::ResetViewer => "Failed to reset viewer: "@,
        Failure::CreateViewClasses => "Failed to create view class registry: "@,
        Failure::CreateDefaultValues =>
            "Failed to create list of serialized default values for components: "@,
    }
}

/// A failed reset is worth a warning; everything else is an error.
pub open spec fn failure_severity(failure: Failure) -> Severity {
    if failure == Failure::ResetViewer {
        Severity::Warning
    } else {
        Severity::Error
    }
}

/// Tells the user what failed, and for what reason.
pub fn report_failure(failure: Failure, reason: &str) -> (res: Effect)
    ensures
        res@ == commands::reported(
            failure_severity(failure),
            failure_text(failure) + reason@,
        ),
{
    let what = match failure {
        Failure::SaveRecording => "Failed to save recording: ",
        Failure::SaveVideo => "Failed to save cropped video: ",
        Failure::SaveBlueprint => "Failed to save blueprint: ",
        Failure::SaveFile => "Failed to save file: ",
        Failure::WriteFile => "File saving failed: ",
        Failure::EncodeScreenshot => "Failed to encode screenshot as PNG: ",
        Failure::ShareLink => "Cannot share link to current screen: ",
        Failure::CreateCredentials => "Failed to create credentials: ",
        Failure::StoreCredentials => "Failed to store credentials: ",
        Failure::Logout => "Failed to logout: ",
        Failure::ResetViewer => "Failed to reset viewer: ",
        Failure::CreateViewClasses => "Failed to create view class registry: ",
        Failure::CreateDefaultValues => {
            "Failed to create list of serialized default values for components: "
        },
    };
    let severity = if failure == Failure::ResetViewer {
        Severity::Warning
    } else {
        Severity::Error
    };
    commands::report(severity, what.to_owned().concat(reason))
}

/// The effects of a chunk that was added to a store, or could not be.
pub open spec fn chunk_added_effects(added: Result<(), String>) -> Seq<EffectView> {
    match added {
        Ok(()) => Seq::empty(),
        Err(err) => seq![
            commands::reported_once(Severity::Warning, "Failed to append chunk: "@ + err@),
        ],
    }
}

/// Tells the user, once, that a chunk could not be added to a store. The chunks after it are
/// offered to the store all the same.
pub fn on_chunk_added(added: Result<(), String>) -> (res: Vec<Effect>)
    ensures
        commands::viewed(res@) == chunk_added_effects(added),
{
    match added {
        Ok(()) => commands::nothing(),
        Err(err) => {
            let text = "Failed to append chunk: ".to_owned().concat(err.as_str());
            commands::just(commands::report_once(Severity::Warning, text))
        },
    }
}

/// Tells the user that the page could not be reloaded with another renderer.
pub fn renderer_not_set(renderer: &str) -> (res: Effect)
    ensures
        res@ == commands::reported(
            Severity::Error,
            "Failed to set URL parameter `renderer="@ + renderer@ + "` & refresh page."@,
        ),
{
    let text = "Failed to set URL parameter `renderer=".to_owned().concat(renderer).concat(
        "` & refresh page.",
    );
    commands::report(Severity::Error, text)
}

/// The error of an address that could not be opened names the address.
pub open spec fn unopened_text(url: Seq<char>, err: Seq<char>) -> Seq<char> {
    if text::contains_text(err, url) {
        err
    } else {
        "Failed to open URL "@ + url + ": "@ + err
    }
}

/// Tells the user that an address could not be opened.
pub fn url_not_opened(url: &str, err: &str) -> (res: Effect)
    ensures
        res@ == commands::reported(Severity::Error, unopened_text(url@, err@)),
{
    let text = if text::has_text(err, url) {
        err.to_owned()
    } else {
        "Failed to open URL ".to_owned().concat(url).concat(": ").concat(err)
    };
    commands::report(Severity::Error, text)
}

/// Whatever is told about an address that could not be opened, the address is in it.
pub proof fn unopened_addresses_are_named(url: Seq<char>, err: Seq<char>)
    ensures
        text::contains_text(unopened_text(url, err), url),
{
    if !text::contains_text(err, url) {
        let head = "Failed to open URL "@;
        let all = unopened_text(url, err);
        let at = head.len() as int;
        assert(all.subrange(at, at + url.len()) =~= url);
        assert(text::occurs_at(all, url, at));
    }
}

/// What the user is told about a file that was saved in the background, or could not be.
pub open spec fn file_saved_effect(saved: Result<String, String>) -> EffectView {
    match saved {
        Ok(path) => commands::reported(
            Severity::Info,
            "File saved to "@ + text::quoted_path(path@) + "."@,
        ),
        Err(err) => commands::reported(Severity::Error, err@),
    }
}

/// Tells the user about a file that was saved in the background, or could not be.
pub fn on_file_saved(saved: Result<String, String>) -> (res: Effect)
    ensures
        res@ == file_saved_effect(saved),
{
    match saved {
        Ok(path) => {
            let text = "File saved to ".to_owned().concat(
                text::quote_path(path.as_str()).as_str(),
            ).concat(".");
            commands::report(Severity::Info, text)
        },
        Err(err) => commands::report(Severity::Error, err),
    }
}

/// Whatever fails is told as an error, but for a reset. A chunk that could not be added is told once,
/// as a warning with the reason, and one that was added not at all.
pub proof fn failures_are_told(failure: Failure, added: Result<(), String>)
    ensures
        failure_severity(failure) == Severity::Error <==> !(failure is ResetViewer),
        failure_severity(failure) != Severity::Info,
        added is Ok <==> chunk_added_effects(added).len() == 0,
        added matches Err(err) ==> chunk_added_effects(added) == seq![
            EffectView::ReportOnce {
                severity: Severity::Warning,
                text: "Failed to append chunk: "@ + err@,
            },
        ],
{
}

/// A file that was saved is told about with its path, and one that was not as an error, with the
/// reason.
pub proof fn saved_files_are_told_about(saved: Result<String, String>)
    ensures
        match saved {
            Ok(path) => file_saved_effect(saved) == EffectView::Report {
                severity: Severity::Info,
                text: "File saved to "@ + text::quoted_path(path@) + "."@,
            },
            Err(err) => file_saved_effect(saved) == EffectView::Report {
                severity: Severity::Error,
                text: err@,
            },
        },
{
}

/// What failed is told in its own words, and then the reason, whatever it is.
pub proof fn failures_are_told_in_their_own_words()
    ensures
        failure_text(Failure::SaveRecording) == "Failed to save recording: "@,
        failure_text(Failure::SaveVideo) == "Failed to save cropped video: "@,
        failure_text(Failure::SaveBlueprint) == "Failed to save blueprint: "@,
        failure_text(Failure::SaveFile) == "Failed to save file: "@,
        failure_text(Failure::WriteFile) == "File saving failed: "@,
        failure_text(Failure::EncodeScreenshot) == "Failed to encode screenshot as PNG: "@,
        failure_text(Failure::ShareLink) == "Cannot share link to current screen: "@,
        failure_text(Failure::CreateCredentials) == "Failed to create credentials: "@,
        failure_text(Failure::StoreCredentials) == "Failed to store credentials: "@,
        failure_text(Failure::Logout) == "Failed to logout: "@,
        failure_text(Failure::ResetViewer) == "Failed to reset viewer: "@,
        failure_text(Failure::CreateViewClasses) == "Failed to create view class registry: "@,
        failure_text(Failure::CreateDefaultValues)
            == "Failed to create list of serialized default values for components: "@,
{
}

} // verus!
