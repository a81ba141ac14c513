//! Files that are dropped on the window, and what can be picked in a dialog.
use crate::commands;
use crate::commands::Effect;
use crate::commands::EffectOf;
use crate::commands::EffectView;
use crate::commands::SystemCommandOf;
use crate::types::FileContents;
use crate::types::FileSource;
use crate::types::LogDataSource;
use crate::types::Platform;
use crate::types::StoreId;
use crate::types::StoreKind;
use vstd::prelude::*;
use vstd::string::*;

verus! {

/// A file that was dropped on the window. In the browser, there are bytes in place of a path.
#[derive(Debug, PartialEq, Eq)]
pub struct DroppedFile {
    pub path: Option<String>,
    pub name: String,
    pub bytes: Option<Vec<u8>>,
}

/// The active recording, unless it belongs to the welcome screen: nothing is added to that.
pub open spec fn receiving_recording(
    active_store_id: Option<StoreId>,
    welcome_screen_app_id: Seq<char>,
) -> Option<StoreId> {
    match active_store_id {
        Some(store_id) => if store_id.application_id@ != welcome_screen_app_id {
            Some(store_id)
        } else {
            None
        },
        None => None,
    }
}

/// The name of a file: its path if it has one.
pub open spec fn file_label(file: DroppedFile) -> String {
    match file.path {
        Some(path) => path,
        None => file.name,
    }
}

/// The recording that files are meant for that were dropped together: the one that receives
/// everything, or else a new one, whose application is named after the first file.
pub open spec fn dropped_into(
    files: Seq<DroppedFile>,
    receiving: Option<StoreId>,
    fresh_recording_id: String,
) -> StoreId {
    match receiving {
        Some(store_id) => store_id,
        None => StoreId {
            kind: StoreKind::Recording,
            application_id: file_label(files[0]),
            recording_id: fresh_recording_id,
        },
    }
}

/// The effects of a dropped file: its bytes are loaded, or else its path on native.
pub open spec fn drop_effects(
    platform: Platform,
    file: DroppedFile,
    store_id: StoreId,
    force_store_info: bool,
) -> Seq<EffectView> {
    let source = FileSource::DragAndDrop {
        recommended_store_id: Some(store_id),
        force_store_info,
    };
    match (file.bytes, file.path) {
        (Some(bytes), _) => seq![
            EffectOf::SendSystem(
                SystemCommandOf::LoadDataSource(
                    LogDataSource::FileContents(
                        source,
                        FileContents { name: file.name, bytes },
                    ),
                ),
            ),
        ],
        (None, Some(path)) => if platform == Platform::Native {
            seq![
                EffectOf::SendSystem(
                    SystemCommandOf::LoadDataSource(LogDataSource::FilePath(source, path)),
                ),
            ]
        } else {
            Seq::empty()
        },
        (None, None) => Seq::empty(),
    }
}

/// The effects of files that are all meant for one recording, in order.
pub open spec fn all_drop_effects(
    platform: Platform,
    files: Seq<DroppedFile>,
    store_id: StoreId,
    force_store_info: bool,
) -> Seq<EffectView>
    decreases files.len(),
{
    if files.len() == 0 {
        Seq::empty()
    } else {
        all_drop_effects(platform, files.drop_last(), store_id, force_store_info) + drop_effects(
            platform,
            files.last(),
            store_id,
            force_store_info,
        )
    }
}

fn load_dropped(
    platform: Platform,
    file: DroppedFile,
    store_id: &StoreId,
    force_store_info: bool,
) -> (res: Vec<Effect>)
    ensures
        commands::viewed(res@) == drop_effects(platform, file, *store_id, force_store_info),
{
    let source = FileSource::DragAndDrop {
        recommended_store_id: Some(store_id.clone()),
        force_store_info,
    };
    if let Some(bytes) = file.bytes {
        let contents = FileContents { name: file.name, bytes };
        return commands::just(
            EffectOf::SendSystem(
                SystemCommandOf::LoadDataSource(LogDataSource::FileContents(source, contents)),
            ),
        );
    }
    match (platform, file.path) {
        (Platform::Native, Some(path)) => commands::just(
            EffectOf::SendSystem(
                SystemCommandOf::LoadDataSource(LogDataSource::FilePath(source, path)),
            ),
        ),
        _ => commands::nothing(),
    }
}

fn find_receiving_recording(
    active_store_id: Option<StoreId>,
    welcome_screen_app_id: &String,
) -> (res: Option<StoreId>)
    ensures
        res == receiving_recording(active_store_id, welcome_screen_app_id@),
{
    match active_store_id {
        Some(store_id) => if store_id.application_id != *welcome_screen_app_id {
            Some(store_id)
        } else {
            None
        },
        None => None,
    }
}

/// Loads the files that were dropped on the window, in order, into the active recording. Where
/// there is none, or only the welcome screen, all of them get one new recording, so that things
/// that are dropped together stay together.
pub fn handle_dropping_files(
    platform: Platform,
    files: Vec<DroppedFile>,
    active_store_id: Option<StoreId>,
    welcome_screen_app_id: &String,
    fresh_recording_id: &String,
) -> (res: Vec<Effect>)
    ensures
        commands::viewed(res@) == dropped_effects(
            platform,
            files@,
            active_store_id,
            welcome_screen_app_id@,
            *fresh_recording_id,
        ),
{
    let ghost all = files@;
    let mut effects = commands::nothing();
    if files.len() == 0 {
        return effects;
    }
    let receiving = find_receiving_recording(active_store_id, welcome_screen_app_id);
    let force_store_info = receiving.is_none();
    let store_id = match receiving {
        Some(store_id) => store_id,
        None => {
            let application_id = match &files[0].path {
                Some(path) => path.clone(),
                None => files[0].name.clone(),
            };
            StoreId::recording(application_id, fresh_recording_id.clone())
        },
    };
    let mut rest = files;
    let ghost mut done: int = 0;
    assert(all.take(0).len() == 0);
    assert(all.skip(0) =~= all);
    while rest.len() > 0
        invariant
            0 <= done <= all.len(),
            rest@ == all.skip(done),
            commands::viewed(effects@) == all_drop_effects(
                platform,
                all.take(done),
                store_id,
                force_store_info,
            ),
        decreases rest@.len(),
    {
        let file = rest.remove(0);
        let more = load_dropped(platform, file, &store_id, force_store_info);
        commands::put_all(&mut effects, more);
        proof {
            assert(all.take(done + 1).drop_last() =~= all.take(done));
            assert(all.take(done + 1).last() == all[done]);
            assert(rest@ =~= all.skip(done + 1));
            done = done + 1;
        }
    }
    assert(all.take(done) =~= all);
    effects
}

/// The file source that something is loaded from, if it is one.
pub open spec fn file_source_of(effect: EffectView) -> Option<FileSource> {
    match effect {
        EffectOf::SendSystem(
            SystemCommandOf::LoadDataSource(LogDataSource::FileContents(source, _)),
        ) => Some(source),
        EffectOf::SendSystem(
            SystemCommandOf::LoadDataSource(LogDataSource::FilePath(source, _)),
        ) => Some(source),
        _ => None,
    }
}

proof fn drops_are_meant_for(
    platform: Platform,
    files: Seq<DroppedFile>,
    store_id: StoreId,
    force_store_info: bool,
    i: int,
)
    requires
        0 <= i < all_drop_effects(platform, files, store_id, force_store_info).len(),
    ensures
        file_source_of(all_drop_effects(platform, files, store_id, force_store_info)[i]) == Some(
            FileSource::DragAndDrop {
                recommended_store_id: Some(store_id),
                force_store_info,
            },
        ),
    decreases files.len(),
{
    if files.len() > 0 {
        let before = all_drop_effects(platform, files.drop_last(), store_id, force_store_info);
        if i < before.len() {
            drops_are_meant_for(platform, files.drop_last(), store_id, force_store_info, i);
        }
    }
}

/// Files that are dropped together end up in the same recording, which is none of the welcome screen
/// unless the first file is named like that. It is created if and only if nothing else receives
/// them.
pub proof fn files_dropped_together_stay_together(
    platform: Platform,
    files: Seq<DroppedFile>,
    active_store_id: Option<StoreId>,
    welcome_screen_app_id: Seq<char>,
    fresh_recording_id: String,
    i: int,
)
    requires
        active_store_id matches Some(store_id) ==> store_id.kind == StoreKind::Recording,
        0 <= i < ({
            let receiving = receiving_recording(active_store_id, welcome_screen_app_id);
            let store_id = dropped_into(files, receiving, fresh_recording_id);
            all_drop_effects(platform, files, store_id, receiving is None).len()
        }),
    ensures
        ({
            let receiving = receiving_recording(active_store_id, welcome_screen_app_id);
            let store_id = dropped_into(files, receiving, fresh_recording_id);
            let effects = all_drop_effects(platform, files, store_id, receiving is None);
            &&& file_source_of(effects[i]) == Some(
                FileSource::DragAndDrop {
                    recommended_store_id: Some(store_id),
                    force_store_info: receiving is None,
                },
            )
            &&& store_id.kind == StoreKind::Recording
            &&& file_label(files[0])@ != welcome_screen_app_id ==> store_id.application_id@
                != welcome_screen_app_id
        }),
{
    let receiving = receiving_recording(active_store_id, welcome_screen_app_id);
    let store_id = dropped_into(files, receiving, fresh_recording_id);
    drops_are_meant_for(platform, files, store_id, receiving is None, i);
}

/// Dropped files are only ever loaded: each gives at most one effect.
pub proof fn each_file_is_loaded_at_most_once(
    platform: Platform,
    files: Seq<DroppedFile>,
    store_id: StoreId,
    force_store_info: bool,
)
    ensures
        all_drop_effects(platform, files, store_id, force_store_info).len() <= files.len(),
    decreases files.len(),
{
    if files.len() > 0 {
        each_file_is_loaded_at_most_once(
            platform,
            files.drop_last(),
            store_id,
            force_store_info,
        );
    }
}

/// A file that hovers over the window.
#[derive(Debug, PartialEq, Eq)]
pub struct HoveredFile {
    pub path: Option<String>,
    pub mime: String,
}

/// The line that stands for a hovering file.
pub open spec fn hover_line(file: HoveredFile) -> Seq<char> {
    match file.path {
        Some(path) => "\n"@ + path@,
        None => if file.mime@.len() > 0 {
            "\n"@ + file.mime@
        } else {
            Seq::empty()
        },
    }
}

/// The text that is shown while files hover over the window.
pub open spec fn hover_text(files: Seq<HoveredFile>) -> Seq<char>
    decreases files.len(),
{
    if files.len() == 0 {
        "Drop to load:\n"@
    } else {
        hover_text(files.drop_last()) + hover_line(files.last())
    }
}

/// The text that is shown while files hover over the window.
pub fn preview_files_being_dropped(files: &Vec<HoveredFile>) -> (res: Option<String>)
    ensures
        match res {
            Some(text) => files@.len() > 0 && text@ == hover_text(files@),
            None => files@.len() == 0,
        },
{
    if files.len() == 0 {
        return None;
    }
    let mut text = "Drop to load:\n".to_owned();
    let mut i: usize = 0;
    assert(files@.take(0).len() == 0);
    while i < files.len()
        invariant
            i <= files@.len(),
            text@ == hover_text(files@.take(i as int)),
        decreases files@.len() - i,
    {
        proof {
            assert(files@.take(i + 1).drop_last() =~= files@.take(i as int));
            assert(files@.take(i + 1).last() == files@[i as int]);
        }
        let ghost before = text@;
        if let Some(path) = &files[i].path {
            text = text.concat("\n").concat(path.as_str());
            assert(text@ =~= before + hover_line(files@[i as int]));
        } else if files[i].mime.as_str().unicode_len() > 0 {
            text = text.concat("\n").concat(files[i].mime.as_str());
            assert(text@ =~= before + hover_line(files@[i as int]));
        } else {
            assert(text@ =~= before + hover_line(files@[i as int]));
        }
        i = i + 1;
    }
    assert(files@.take(i as int) =~= files@);
    Some(text)
}

/// Which files a dialog offers: those with a supported extension. Where programs are registered
/// that load other files, anything goes; that is not so in the browser.
pub fn dialog_extensions(
    platform: Platform,
    num_external_loaders: usize,
    supported: Vec<String>,
) -> (res: Option<Vec<String>>)
    ensures
        res == (if shows_all_files(platform, num_external_loaders as nat, supported@.len()) {
            None
        } else {
            Some(supported)
        }),
{
    match platform {
        Platform::Web => Some(supported),
        Platform::Native => if num_external_loaders > 0 || supported.len() == 0 {
            None
        } else {
            Some(supported)
        },
    }
}

/// What is loaded when files are dropped.
pub open spec fn dropped_effects(
    platform: Platform,
    files: Seq<DroppedFile>,
    active_store_id: Option<StoreId>,
    welcome_screen_app_id: Seq<char>,
    fresh_recording_id: String,
) -> Seq<EffectView> {
    let receiving = receiving_recording(active_store_id, welcome_screen_app_id);
    all_drop_effects(
        platform,
        files,
        dropped_into(files, receiving, fresh_recording_id),
        receiving is None,
    )
}

proof fn drops_start_with_earlier_drops(
    platform: Platform,
    files: Seq<DroppedFile>,
    store_id: StoreId,
    force_store_info: bool,
    n: int,
)
    requires
        0 <= n <= files.len(),
    ensures
        ({
            let some = all_drop_effects(platform, files.take(n), store_id, force_store_info);
            let all = all_drop_effects(platform, files, store_id, force_store_info);
            some.len() <= all.len() && all.take(some.len() as int) == some
        }),
    decreases files.len() - n,
{
    let some = all_drop_effects(platform, files.take(n), store_id, force_store_info);
    let all = all_drop_effects(platform, files, store_id, force_store_info);
    if n == files.len() {
        assert(files.take(n) =~= files);
        assert(all.take(all.len() as int) =~= all);
    } else {
        assert(files.take(n + 1).drop_last() =~= files.take(n));
        let more = all_drop_effects(platform, files.take(n + 1), store_id, force_store_info);
        drops_start_with_earlier_drops(platform, files, store_id, force_store_info, n + 1);
        assert(all.take(some.len() as int) =~= more.take(some.len() as int));
        assert(more.take(some.len() as int) =~= some);
    }
}

/// Every dropped file is loaded, in order, wherever the viewer runs: one with bytes as a file with
/// its name and just these bytes, and on native one without bytes by its path. All are meant for the
/// recording that is active, unless that is the welcome screen's or there is none: then they are
/// meant for a new one. Nothing else is loaded.
pub proof fn every_dropped_file_is_loaded(
    platform: Platform,
    files: Seq<DroppedFile>,
    active_store_id: Option<StoreId>,
    welcome_screen_app_id: Seq<char>,
    fresh_recording_id: String,
    i: int,
)
    requires
        0 <= i < files.len(),
    ensures
        ({
            let effects = dropped_effects(
                platform,
                files,
                active_store_id,
                welcome_screen_app_id,
                fresh_recording_id,
            );
            let receives = active_store_id is Some && (active_store_id->0).application_id@
                != welcome_screen_app_id;
            let store_id = if receives {
                active_store_id->0
            } else {
                StoreId {
                    kind: StoreKind::Recording,
                    application_id: match files[0].path {
                        Some(path) => path,
                        None => files[0].name,
                    },
                    recording_id: fresh_recording_id,
                }
            };
            let source = FileSource::DragAndDrop {
                recommended_store_id: Some(store_id),
                force_store_info: !receives,
            };
            let at = all_drop_effects(platform, files.take(i), store_id, !receives).len() as int;
            let after = all_drop_effects(
                platform,
                files.take(i + 1),
                store_id,
                !receives,
            ).len() as int;
            &&& 0 <= at <= after <= effects.len()
            &&& i == 0 ==> at == 0
            &&& i == files.len() - 1 ==> after == effects.len()
            &&& files[i].bytes is Some ==> {
                &&& after == at + 1
                &&& effects[at] == EffectView::SendSystem(
                    SystemCommandOf::LoadDataSource(
                        LogDataSource::FileContents(
                            source,
                            FileContents { name: files[i].name, bytes: files[i].bytes->0 },
                        ),
                    ),
                )
            }
            &&& files[i].bytes is None && files[i].path is Some && platform == Platform::Native
                ==> {
                &&& after == at + 1
                &&& effects[at] == EffectView::SendSystem(
                    SystemCommandOf::LoadDataSource(
                        LogDataSource::FilePath(source, files[i].path->0),
                    ),
                )
            }
            &&& files[i].bytes is None && (files[i].path is None || platform == Platform::Web)
                ==> after == at
        }),
{
    let receiving = receiving_recording(active_store_id, welcome_screen_app_id);
    let store_id = dropped_into(files, receiving, fresh_recording_id);
    let force = receiving is None;
    let all = all_drop_effects(platform, files, store_id, force);
    let before = all_drop_effects(platform, files.take(i), store_id, force);
    let after = all_drop_effects(platform, files.take(i + 1), store_id, force);
    assert(files.take(i + 1).drop_last() =~= files.take(i));
    assert(files.take(i + 1).last() == files[i]);
    drops_start_with_earlier_drops(platform, files, store_id, force, i + 1);
    assert(files.take(files.len() as int) =~= files);
    if after.len() > before.len() {
        assert(all[before.len() as int] == all.take(after.len() as int)[before.len() as int]);
    }
}

/// The text that is shown while files hover over the window names each of them: by its path, or else
/// by what is known of its type. It grows with the files.
pub proof fn hovering_files_are_named(files: Seq<HoveredFile>, file: HoveredFile)
    ensures
        ({
            let before = hover_text(files);
            let after = hover_text(files.push(file));
            &&& hover_text(Seq::<HoveredFile>::empty()) == "Drop to load:\n"@
            &&& match file.path {
                Some(path) => after == before + "\n"@ + path@,
                None => if file.mime@.len() > 0 {
                    after == before + "\n"@ + file.mime@
                } else {
                    after == before
                },
            }
        }),
{
    assert(files.push(file).drop_last() =~= files);
    let line = hover_line(file);
    match file.path {
        Some(path) => assert(hover_text(files) + line =~= hover_text(files) + "\n"@ + path@),
        None => if file.mime@.len() > 0 {
            assert(hover_text(files) + line =~= hover_text(files) + "\n"@ + file.mime@);
        } else {
            assert(hover_text(files) + line =~= hover_text(files));
        },
    }
}

/// Whether the dialog shows all files: on native, if other programs could load them, or if there is
/// nothing to filter by.
pub open spec fn shows_all_files(platform: Platform, num_loaders: nat, num_supported: nat) -> bool {
    platform == Platform::Native && (num_loaders > 0 || num_supported == 0)
}

/// In the browser the dialog always filters. On native it does not if other programs could load what
/// is picked.
pub proof fn dialogs_filter_what_can_be_loaded(num_loaders: nat, num_supported: nat)
    ensures
        !shows_all_files(Platform::Web, num_loaders, num_supported),
        num_loaders > 0 ==> shows_all_files(Platform::Native, num_loaders, num_supported),
        num_loaders == 0 && num_supported > 0 ==> !shows_all_files(
            Platform::Native,
            num_loaders,
            num_supported,
        ),
        shows_all_files(Platform::Native, num_loaders, 0),
{
}

} // verus!
