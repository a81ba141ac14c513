//! What is written to files, and under what names.
use crate::commands;
use crate::commands::Effect;
use crate::commands::EffectOf;
use crate::commands::EffectView;
use crate::commands::Severity;
use crate::failures;
use crate::failures::Failure;
use crate::rgba;
use crate::text;
use crate::types::Platform;
use crate::types::StoreId;
use vstd::prelude::*;
use vstd::string::*;

verus! {

/// The version that a file of a store is marked with.
#[derive(Debug, PartialEq, Eq)]
pub enum RrdVersion {
    /// The version that wrote the store.
    Store(String),
    /// The version of this program.
    Local,
}

/// The version that a file of a store is marked with: the one that wrote the store, if known.
pub fn rrd_version(store_version: Option<String>) -> (res: RrdVersion)
    ensures
        res == written_version(store_version),
{
    match store_version {
        Some(version) => RrdVersion::Store(version),
        None => RrdVersion::Local,
    }
}

/// What is proposed to the user for a file.
#[derive(Debug, PartialEq, Eq)]
pub struct FileProposal {
    pub file_name: String,
    pub title: String,
}

/// The file name that is proposed for a recording: its own name, if it has one.
pub open spec fn recording_file_name(sanitized_name: Option<String>) -> Seq<char> {
    match sanitized_name {
        Some(name) => name@ + ".rrd"@,
        None => "data.rrd"@,
    }
}

/// What the user is asked when a recording is saved.
pub open spec fn recording_title(cropped: bool) -> Seq<char> {
    if cropped {
        "Save cropped recording"@
    } else {
        "Save recording"@
    }
}

/// What is proposed for the file of a recording, whose sanitized name is given if it has one.
pub fn save_recording(sanitized_name: Option<String>, cropped: bool) -> (res: FileProposal)
    ensures
        res.file_name@ == recording_file_name(sanitized_name),
        res.title@ == recording_title(cropped),
{
    let file_name = match sanitized_name {
        Some(name) => name.concat(".rrd"),
        None => "data.rrd".to_owned(),
    };
    let title = if cropped {
        "Save cropped recording"
    } else {
        "Save recording"
    };
    FileProposal { file_name, title: title.to_owned() }
}

/// A recording that is saved.
#[derive(Debug, PartialEq, Eq)]
pub struct RecordingFile {
    pub store_id: StoreId,
    /// Whether only the loop selection is saved.
    pub cropped: bool,
    pub proposal: FileProposal,
}

/// How a recording is saved that is there, or why none is.
pub open spec fn recording_is_saved(
    active_recording: Option<StoreId>,
    sanitized_name: Option<String>,
    wants_selection: bool,
    has_loop_selection: bool,
    saved: Result<RecordingFile, String>,
) -> bool {
    match active_recording {
        Some(store_id) => {
            &&& saved matches Ok(file)
            &&& file.store_id == store_id
            &&& file.cropped == (wants_selection && has_loop_selection)
            &&& file.proposal.file_name@ == recording_file_name(sanitized_name)
            &&& file.proposal.title@ == recording_title(file.cropped)
        },
        None => saved matches Err(text) && text@ == "No recording data to save"@,
    }
}

/// Which recording is saved, or why none can be. It is cropped if the loop selection is to be saved
/// and there is one.
pub fn save_active_recording(
    active_recording: Option<StoreId>,
    sanitized_name: Option<String>,
    wants_selection: bool,
    has_loop_selection: bool,
) -> (res: Result<RecordingFile, String>)
    ensures
        recording_is_saved(
            active_recording,
            sanitized_name,
            wants_selection,
            has_loop_selection,
            res,
        ),
{
    match active_recording {
        Some(store_id) => {
            let cropped = wants_selection && has_loop_selection;
            let proposal = save_recording(sanitized_name, cropped);
            Ok(RecordingFile { store_id, cropped, proposal })
        },
        None => Err("No recording data to save".to_owned()),
    }
}

/// A blueprint that is saved.
#[derive(Debug, PartialEq, Eq)]
pub struct BlueprintFile {
    /// The id that the blueprint has in the file.
    pub store_id: StoreId,
    pub proposal: FileProposal,
}

/// How a blueprint is saved that is there, or why none is.
pub open spec fn blueprint_is_saved(
    blueprint_id: Option<StoreId>,
    fresh_recording_id: String,
    sanitized_app_id: Seq<char>,
    saved: Result<BlueprintFile, String>,
) -> bool {
    match blueprint_id {
        Some(blueprint_id) => {
            &&& saved matches Ok(file)
            &&& file.store_id == (StoreId { recording_id: fresh_recording_id, ..blueprint_id })
            &&& file.proposal.file_name@ == sanitized_app_id + ".rbl"@
            &&& file.proposal.title@ == "Save blueprint"@
        },
        None => saved matches Err(text) && text@ == "No blueprint to save"@,
    }
}

/// How a blueprint is saved, or why it cannot be. In the file it gets another recording id, so that
/// it does not get mixed up with the active one when it is loaded again.
pub fn save_blueprint(
    blueprint_id: Option<StoreId>,
    fresh_recording_id: String,
    sanitized_app_id: &str,
) -> (res: Result<BlueprintFile, String>)
    ensures
        blueprint_is_saved(blueprint_id, fresh_recording_id, sanitized_app_id@, res),
{
    match blueprint_id {
        Some(blueprint_id) => {
            let proposal = FileProposal {
                file_name: sanitized_app_id.to_owned().concat(".rbl"),
                title: "Save blueprint".to_owned(),
            };
            Ok(
                BlueprintFile {
                    store_id: blueprint_id.with_recording_id(fresh_recording_id),
                    proposal,
                },
            )
        },
        None => Err("No blueprint to save".to_owned()),
    }
}

/// The name of a recording among several, before it is made a file name: its own name, or else
/// its ids.
pub fn recording_stem(name: Option<String>, store_id: &StoreId) -> (res: String)
    ensures
        res@ == stem(name, *store_id),
{
    match name {
        Some(name) => name,
        None => store_id.application_id.clone().concat("-").concat(
            store_id.recording_id.as_str(),
        ),
    }
}

/// The name of the file of a recording among several.
pub fn rrd_file_name(sanitized_stem: &str) -> (res: String)
    ensures
        res@ == sanitized_stem@ + ".rrd"@,
{
    sanitized_stem.to_owned().concat(".rrd")
}

/// How far the saving of several recordings is.
#[derive(Debug, PartialEq, Eq)]
pub struct ManySaves {
    pub folder: String,
    pub num_stores: usize,
    pub num_remaining: usize,
    pub any_error: bool,
}

/// What the user is told once all recordings are done with.
pub open spec fn all_saved_effect(folder: Seq<char>, num_stores: nat, any_error: bool) -> EffectView {
    if any_error {
        commands::reported(Severity::Error, "Some recordings failed to save."@)
    } else {
        commands::reported(
            Severity::Info,
            text::decimal(num_stores) + " recordings successfully saved to "@ + folder,
        )
    }
}

/// The saves after one more recording is done with.
pub open spec fn after_save(saves: ManySaves, success: bool) -> ManySaves {
    ManySaves {
        num_remaining: (saves.num_remaining - 1) as usize,
        any_error: saves.any_error || !success,
        ..saves
    }
}

impl ManySaves {
    /// Starts to save several recordings, and tells the user about it.
    pub fn start(num_stores: usize, folder: String) -> (res: (Self, Effect))
        ensures
            res.0 == (ManySaves {
                folder,
                num_stores,
                num_remaining: num_stores,
                any_error: false,
            }),
            res.1@ == commands::reported(
                Severity::Info,
                "Saving "@ + text::decimal(num_stores as nat) + " recordings to "@ + folder@
                    + "\u{2026}"@,
            ),
    {
        let text = "Saving ".to_owned().concat(
            text::decimal_text(num_stores as u128).as_str(),
        ).concat(" recordings to ").concat(folder.as_str()).concat("\u{2026}");
        let saves = ManySaves { folder, num_stores, num_remaining: num_stores, any_error: false };
        (saves, commands::report(Severity::Info, text))
    }

    /// Notes that one of the recordings is done with. The user is told how it went when it was the
    /// last one.
    pub fn on_saved(&mut self, success: bool) -> (res: Option<Effect>)
        requires
            old(self).num_remaining > 0,
        ensures
            *final(self) == after_save(*old(self), success),
            match res {
                Some(effect) => final(self).num_remaining == 0 && effect@ == all_saved_effect(
                    old(self).folder@,
                    old(self).num_stores as nat,
                    final(self).any_error,
                ),
                None => final(self).num_remaining > 0,
            },
    {
        if !success {
            self.any_error = true;
        }
        self.num_remaining = self.num_remaining - 1;
        if self.num_remaining > 0 {
            return None;
        }
        if self.any_error {
            return Some(
                commands::report(
                    Severity::Error,
                    "Some recordings failed to save.".to_owned(),
                ),
            );
        }
        let text = text::decimal_text(self.num_stores as u128).concat(
            " recordings successfully saved to ",
        ).concat(self.folder.as_str());
        Some(commands::report(Severity::Info, text))
    }
}

/// The saves after some more recordings are done with.
pub open spec fn after_saves(saves: ManySaves, successes: Seq<bool>) -> ManySaves
    decreases successes.len(),
{
    if successes.len() == 0 {
        saves
    } else {
        after_save(after_saves(saves, successes.drop_last()), successes.last())
    }
}

/// The user is told exactly once how the saving of several recordings went: after the last one, in
/// whatever order they are done with, and as an error if and only if one of them failed.
pub proof fn the_outcome_is_told_once(saves: ManySaves, successes: Seq<bool>)
    requires
        saves.num_remaining == saves.num_stores,
        !saves.any_error,
        successes.len() <= saves.num_stores,
    ensures
        after_saves(saves, successes).num_remaining == saves.num_stores - successes.len(),
        after_saves(saves, successes).num_remaining == 0 <==> successes.len() == saves.num_stores,
        after_saves(saves, successes).any_error <==> exists|i: int|
            0 <= i < successes.len() && !#[trigger] successes[i],
        after_saves(saves, successes).num_stores == saves.num_stores,
        after_saves(saves, successes).folder == saves.folder,
    decreases successes.len(),
{
    if successes.len() > 0 {
        let before = successes.drop_last();
        the_outcome_is_told_once(saves, before);
        if after_saves(saves, before).any_error {
            let i = choose|i: int| 0 <= i < before.len() && !#[trigger] before[i];
            assert(!successes[i]);
        }
        if exists|i: int| 0 <= i < successes.len() && !#[trigger] successes[i] {
            let i = choose|i: int| 0 <= i < successes.len() && !#[trigger] successes[i];
            if i < before.len() {
                assert(!before[i]);
            }
        }
        if !successes.last() {
            assert(!successes[successes.len() - 1]);
        }
    }
}

/// What the user is told who did not pick a folder.
pub fn no_folder_selected() -> (res: Effect)
    ensures
        res@ == commands::reported(
            Severity::Info,
            "No folder selected - recordings not saved."@,
        ),
{
    commands::report(Severity::Info, "No folder selected - recordings not saved.".to_owned())
}

/// The text that shows the entities of a recording: its ids, and then the entities as given.
pub open spec fn hierarchy_text(store_id: StoreId, entities: Seq<char>) -> Seq<char> {
    "Application ID: "@ + store_id.application_id@ + "\nRecording ID: "@ + store_id.recording_id@
        + "\n\n"@ + entities
}

/// Copies the entities of a recording to the clipboard, and tells the user about it.
pub fn copy_entity_hierarchy_to_clipboard(store_id: &StoreId, entities: &str) -> (res: Vec<Effect>)
    ensures
        commands::viewed(res@) == seq![
            EffectView::CopyText(hierarchy_text(*store_id, entities@)),
            EffectOf::NotifySuccess("Copied entity hierarchy with schema to clipboard"@),
        ],
{
    let text = "Application ID: ".to_owned().concat(store_id.application_id.as_str()).concat(
        "\nRecording ID: ",
    ).concat(store_id.recording_id.as_str()).concat("\n\n").concat(entities);
    commands::both(
        EffectOf::CopyText(text),
        EffectOf::NotifySuccess("Copied entity hierarchy with schema to clipboard".to_owned()),
    )
}

/// What a screenshot is for.
#[derive(Debug, PartialEq, Eq)]
pub enum ScreenshotTarget {
    CopyToClipboard,
    SaveToDisk,
}

/// What is done with a screenshot.
#[derive(Debug, PartialEq, Eq)]
pub enum ScreenshotStep {
    CopyImage,
    SaveFile { proposal: FileProposal, png: Vec<u8> },
    Report(Effect),
    /// Hand it to who asked for a picture of the whole window.
    SaveWholeApp,
    Nothing,
}

/// What becomes of a screenshot.
pub open spec fn screenshot_becomes(
    platform: Platform,
    asked_for: Option<(String, ScreenshotTarget)>,
    width: u32,
    height: u32,
    data: Seq<u8>,
    step: ScreenshotStep,
) -> bool {
    match asked_for {
        Some((_, ScreenshotTarget::CopyToClipboard)) => step is CopyImage,
        Some((name, ScreenshotTarget::SaveToDisk)) => match rgba::png_encoded(width, height, data) {
            Ok(bytes) => {
                &&& step matches ScreenshotStep::SaveFile { proposal, png }
                &&& proposal.file_name@ == name@ + ".png"@
                &&& proposal.title@ == "Save screenshot"@
                &&& png@ == bytes
            },
            Err(err) => {
                &&& step matches ScreenshotStep::Report(effect)
                &&& effect@ == commands::reported(
                    Severity::Error,
                    "Failed to encode screenshot as PNG: "@ + err,
                )
            },
        },
        None => if platform == Platform::Native {
            step is SaveWholeApp
        } else {
            step is Nothing
        },
    }
}

/// What is done with a screenshot, given by its size and its bytes, that somebody asked for by
/// name and for a target. Otherwise it shows the whole window, which is not taken on the web.
pub fn process_screenshot_result(
    platform: Platform,
    asked_for: Option<(String, ScreenshotTarget)>,
    width: u32,
    height: u32,
    data: &Vec<u8>,
) -> (res: ScreenshotStep)
    requires
        data@.len() == rgba::frame_bytes(width as nat, height as nat),
    ensures
        screenshot_becomes(platform, asked_for, width, height, data@, res),
{
    match asked_for {
        Some((_, ScreenshotTarget::CopyToClipboard)) => ScreenshotStep::CopyImage,
        Some((name, ScreenshotTarget::SaveToDisk)) => match rgba::encode_png(width, height, data) {
            Ok(png) => {
                let proposal = FileProposal {
                    file_name: name.concat(".png"),
                    title: "Save screenshot".to_owned(),
                };
                ScreenshotStep::SaveFile { proposal, png }
            },
            Err(err) => ScreenshotStep::Report(
                failures::report_failure(Failure::EncodeScreenshot, err.as_str()),
            ),
        },
        None => match platform {
            Platform::Native => ScreenshotStep::SaveWholeApp,
            Platform::Web => ScreenshotStep::Nothing,
        },
    }
}

/// What is told in the end is an error if and only if some recording was not saved, and otherwise
/// says how many were saved, and where.
pub proof fn the_outcome_is_told_as_it_is(folder: Seq<char>, num_stores: nat, any_error: bool)
    ensures
        all_saved_effect(folder, num_stores, any_error) matches EffectOf::Report { severity, text }
            && {
            &&& severity == if any_error {
                Severity::Error
            } else {
                Severity::Info
            }
            &&& !any_error ==> text == text::decimal(num_stores)
                + " recordings successfully saved to "@ + folder
        },
{
}

/// The text of the entities names the recording, and then holds the entities unchanged.
pub proof fn hierarchies_name_their_recording(store_id: StoreId, entities: Seq<char>)
    ensures
        ({
            let text = hierarchy_text(store_id, entities);
            &&& text::contains_text(text, store_id.application_id@)
            &&& text::contains_text(text, store_id.recording_id@)
            &&& text.len() >= entities.len()
            &&& text.skip(text.len() - entities.len()) == entities
        }),
{
    let text = hierarchy_text(store_id, entities);
    let (app, recording) = (store_id.application_id@, store_id.recording_id@);
    let at = "Application ID: "@.len() as int;
    let then = at + app.len() + "\nRecording ID: "@.len();
    assert(text.subrange(at, at + app.len()) =~= app);
    assert(text::occurs_at(text, app, at));
    assert(text.subrange(then, then + recording.len()) =~= recording);
    assert(text::occurs_at(text, recording, then));
    assert(text.skip(text.len() - entities.len()) =~= entities);
}

/// The active recording is saved under its name if there is one, and only what is selected of it if
/// that was wanted and something is. That is all that saving depends on.
pub proof fn the_active_recording_is_saved(
    active_recording: Option<StoreId>,
    sanitized_name: Option<String>,
    wants_selection: bool,
    has_loop_selection: bool,
    saved: Result<RecordingFile, String>,
)
    requires
        recording_is_saved(
            active_recording,
            sanitized_name,
            wants_selection,
            has_loop_selection,
            saved,
        ),
    ensures
        saved is Ok <==> active_recording is Some,
        saved matches Ok(file) ==> {
            &&& Some(file.store_id) == active_recording
            &&& file.cropped ==> wants_selection && has_loop_selection
            &&& wants_selection && has_loop_selection ==> file.cropped
            &&& sanitized_name matches Some(name) ==> file.proposal.file_name@ == name@ + ".rrd"@
            &&& sanitized_name is None ==> file.proposal.file_name@ == "data.rrd"@
            &&& file.proposal.title@ == if file.cropped {
                "Save cropped recording"@
            } else {
                "Save recording"@
            }
        },
{
}

/// A blueprint is saved under the name of its application, as a blueprint of that application. In the
/// file it has an id of its own, so that it does not get mixed up with the one that is shown.
pub proof fn saved_blueprints_stay_apart(
    blueprint_id: StoreId,
    fresh_recording_id: String,
    sanitized_app_id: Seq<char>,
    saved: Result<BlueprintFile, String>,
)
    requires
        blueprint_is_saved(Some(blueprint_id), fresh_recording_id, sanitized_app_id, saved),
        fresh_recording_id@ != blueprint_id.recording_id@,
    ensures
        saved matches Ok(file) && {
            &&& file.store_id.recording_id@ != blueprint_id.recording_id@
            &&& file.store_id.kind == blueprint_id.kind
            &&& file.store_id.application_id == blueprint_id.application_id
            &&& file.proposal.file_name@ == sanitized_app_id + ".rbl"@
            &&& file.proposal.title@ == "Save blueprint"@
        },
{
}

/// Where there is nothing to save, nothing is, and the user is told what is missing.
pub proof fn nothing_is_saved_without_data(
    name: Option<String>,
    wants_selection: bool,
    has_loop_selection: bool,
    recording: Result<RecordingFile, String>,
    fresh_recording_id: String,
    app_id: Seq<char>,
    blueprint: Result<BlueprintFile, String>,
)
    requires
        recording_is_saved(None, name, wants_selection, has_loop_selection, recording),
        blueprint_is_saved(None, fresh_recording_id, app_id, blueprint),
    ensures
        recording matches Err(text) && text@ == "No recording data to save"@,
        blueprint matches Err(text) && text@ == "No blueprint to save"@,
{
}

/// Somebody who asked for a screenshot gets it, wherever the viewer runs: on the clipboard, or as a file
/// of that name. One that nobody asked for by name shows the window, on native alone.
pub proof fn screenshots_go_to_who_asked(
    platform: Platform,
    other: Platform,
    asked_for: Option<(String, ScreenshotTarget)>,
    width: u32,
    height: u32,
    data: Seq<u8>,
    step: ScreenshotStep,
)
    requires
        screenshot_becomes(platform, asked_for, width, height, data, step),
    ensures
        asked_for is Some ==> screenshot_becomes(other, asked_for, width, height, data, step),
        asked_for is Some ==> !(step is Nothing) && !(step is SaveWholeApp),
        step is CopyImage <==> (asked_for matches Some((_, target)) && target is CopyToClipboard),
        step matches ScreenshotStep::SaveFile { proposal, png } ==> (asked_for matches Some(
            (name, target),
        ) && target is SaveToDisk && proposal.file_name@ == name@ + ".png"@ && proposal.title@
            == "Save screenshot"@ && rgba::png_encoded(width, height, data) == Ok::<
            Seq<u8>,
            Seq<char>,
        >(png@)),
        step matches ScreenshotStep::Report(effect) ==> (rgba::png_encoded(
            width,
            height,
            data,
        ) matches Err(err) && effect@ == (EffectView::Report {
            severity: Severity::Error,
            text: "Failed to encode screenshot as PNG: "@ + err,
        })),
        step is SaveWholeApp <==> asked_for is None && platform == Platform::Native,
{
}

/// The version that a file is written with: the store's own, if that is known.
pub open spec fn written_version(store_version: Option<String>) -> RrdVersion {
    match store_version {
        Some(version) => RrdVersion::Store(version),
        None => RrdVersion::Local,
    }
}

/// What the file of one of several recordings is called, without its extension.
pub open spec fn stem(name: Option<String>, store_id: StoreId) -> Seq<char> {
    match name {
        Some(name) => name@,
        None => store_id.application_id@ + "-"@ + store_id.recording_id@,
    }
}

/// A store keeps the version it came with; a store that came with none gets this viewer's.
pub proof fn stores_keep_their_version(version: String)
    ensures
        written_version(Some(version)) == RrdVersion::Store(version),
        written_version(None) == RrdVersion::Local,
{
}

/// A recording with a name is called by it. One without is called by its application and its id.
pub proof fn recordings_are_called_by_name(name: String, store_id: StoreId)
    ensures
        stem(Some(name), store_id) == name@,
        stem(None, store_id) == store_id.application_id@ + "-"@ + store_id.recording_id@,
{
}

} // verus!
