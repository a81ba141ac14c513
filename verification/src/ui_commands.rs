//! The commands of the user.
use crate::app::App;
use crate::app::AppModel;
use crate::app::AppOptions;
use crate::app::PendingFiles;
use crate::app::StateModel;
use crate::commands;
use crate::commands::Effect;
use crate::commands::EffectOf;
use crate::commands::EffectView;
use crate::commands::OpenUrlOptions;
use crate::commands::Panel;
use crate::commands::Severity;
use crate::commands::StorePrint;
use crate::commands::SystemCommand;
use crate::commands::SystemCommandOf;
use crate::commands::SystemCommandView;
use crate::commands::UICommand;
use crate::commands::ZoomStep;
use crate::failures;
use crate::navigation;
use crate::navigation::Navigation;
use crate::types;
use crate::types::FileContents;
use crate::types::FileSource;
use crate::types::Item;
use crate::types::ItemCollection;
use crate::types::LogDataSource;
use crate::types::Platform;
use crate::types::PlayState;
use crate::types::RecordingOrTable;
use crate::types::StoreId;
use crate::types::TimeControlCommand;
use vstd::prelude::*;
use vstd::string::*;

verus! {

/// The stores that are shown.
#[derive(Debug, PartialEq, Eq)]
pub struct StoreContext {
    pub recording_id: StoreId,
    pub blueprint_id: StoreId,
}

/// What is known of the surroundings when a command of the user is run.
#[derive(Debug, PartialEq, Eq)]
pub struct UiFacts {
    pub store_context: Option<StoreContext>,
    pub active_store_id: Option<StoreId>,
    /// The recordings that are there, in order.
    pub recordings: Vec<StoreId>,
    /// All stores that are there.
    pub stores: Vec<StoreId>,
    /// Ids that nothing has yet.
    pub fresh_application_id: String,
    pub fresh_recording_id: String,
    pub blueprint_panel_is_expanded: bool,
    pub selection_panel_is_expanded: bool,
    pub is_fullscreen: bool,
}

/// The recording that opened files are meant for, and whether it has to be created: the one that
/// is shown, but never the welcome screen.
pub open spec fn target_recording(facts: UiFacts, welcome_screen_app_id: Seq<char>) -> (
    StoreId,
    bool,
) {
    let fresh = StoreId {
        kind: types::StoreKind::Recording,
        application_id: facts.fresh_application_id,
        recording_id: facts.fresh_recording_id,
    };
    match facts.store_context {
        Some(context) => if context.recording_id.application_id@ != welcome_screen_app_id {
            (context.recording_id, false)
        } else {
            (fresh, true)
        },
        None => (fresh, true),
    }
}

fn find_target_recording(facts: &UiFacts, welcome_screen_app_id: &String) -> (res: (StoreId, bool))
    ensures
        res == target_recording(*facts, welcome_screen_app_id@),
{
    if let Some(context) = &facts.store_context {
        if context.recording_id.application_id != *welcome_screen_app_id {
            return (context.recording_id.clone(), false);
        }
    }
    let fresh = StoreId::recording(
        facts.fresh_application_id.clone(),
        facts.fresh_recording_id.clone(),
    );
    (fresh, true)
}

/// The stores of an application, in order.
pub open spec fn stores_of_app(stores: Seq<StoreId>, app_id: Seq<char>) -> Seq<StoreId> {
    stores.filter(|store_id: StoreId| store_id.application_id@ == app_id)
}

/// The stores that an item stands for.
pub open spec fn stores_of_item(item: Item, recordings: Seq<StoreId>) -> Seq<StoreId> {
    match item {
        Item::AppId(app_id) => stores_of_app(recordings, app_id@),
        Item::StoreId(store_id) => seq![store_id],
        _ => Seq::empty(),
    }
}

/// The stores that items stand for, in order.
pub open spec fn stores_of_items(items: Seq<Item>, recordings: Seq<StoreId>) -> Seq<StoreId>
    decreases items.len(),
{
    if items.len() == 0 {
        Seq::empty()
    } else {
        stores_of_items(items.drop_last(), recordings) + stores_of_item(items.last(), recordings)
    }
}

/// The selected stores that are there, in order.
pub open spec fn selected_stores(
    items: Seq<Item>,
    recordings: Seq<StoreId>,
    stores: Seq<StoreId>,
) -> Seq<StoreId> {
    stores_of_items(items, recordings).filter(|store_id: StoreId| types::is_among(stores, store_id))
}

fn push_if_there(found: &mut Vec<StoreId>, store_id: &StoreId, stores: &Vec<StoreId>)
    ensures
        final(found)@ == if types::is_among(stores@, *store_id) {
            old(found)@.push(*store_id)
        } else {
            old(found)@
        },
{
    if types::contains_store(stores, store_id) {
        found.push(store_id.clone());
    }
}

fn push_stores_of_app(
    found: &mut Vec<StoreId>,
    app_id: &String,
    recordings: &Vec<StoreId>,
    stores: &Vec<StoreId>,
)
    ensures
        final(found)@ == old(found)@ + stores_of_app(recordings@, app_id@).filter(
            |store_id: StoreId| types::is_among(stores@, store_id),
        ),
{
    let ghost there = |store_id: StoreId| types::is_among(stores@, store_id);
    let ghost of_app = |store_id: StoreId| store_id.application_id@ == app_id@;
    let ghost before = found@;
    let mut i: usize = 0;
    proof {
        reveal(Seq::filter);
        assert(recordings@.take(0).filter(of_app) =~= Seq::<StoreId>::empty());
        assert(found@ =~= before + recordings@.take(0).filter(of_app).filter(there));
    }
    while i < recordings.len()
        invariant
            i <= recordings@.len(),
            there == (|store_id: StoreId| types::is_among(stores@, store_id)),
            of_app == (|store_id: StoreId| store_id.application_id@ == app_id@),
            found@ == before + recordings@.take(i as int).filter(of_app).filter(there),
        decreases recordings@.len() - i,
    {
        let recording = &recordings[i];
        let ghost mine = recordings@.take(i as int).filter(of_app);
        proof {
            assert(recordings@.take(i + 1).drop_last() =~= recordings@.take(i as int));
            reveal(Seq::filter);
            assert(recordings@.take(i + 1).filter(of_app) =~= if of_app(*recording) {
                mine.push(*recording)
            } else {
                mine
            });
            assert(mine.push(*recording).drop_last() =~= mine);
        }
        if recording.application_id == *app_id {
            push_if_there(found, recording, stores);
            assert(mine.push(*recording).filter(there) =~= if there(*recording) {
                mine.filter(there).push(*recording)
            } else {
                mine.filter(there)
            }) by {
                reveal(Seq::filter);
            }
            assert(found@ =~= before + mine.push(*recording).filter(there));
        }
        i = i + 1;
    }
    assert(recordings@.take(i as int) =~= recordings@);
}

fn items_of(selection: &ItemCollection) -> (res: Vec<&Item>)
    ensures
        res@.len() == selection.items().len(),
        forall|i: int| 0 <= i < res@.len() ==> *(#[trigger] res@[i]) == selection.items()[i],
{
    let mut res: Vec<&Item> = Vec::new();
    match selection {
        ItemCollection::One(item) => {
            res.push(item);
        },
        ItemCollection::Many(items) => {
            let mut i: usize = 0;
            while i < items.len()
                invariant
                    i <= items@.len(),
                    selection.items() == items@,
                    res@.len() == i,
                    forall|k: int| 0 <= k < i ==> *(#[trigger] res@[k]) == items@[k],
                decreases items@.len() - i,
            {
                res.push(&items[i]);
                i = i + 1;
            }
        },
    }
    res
}

proof fn filter_of_one(store_id: StoreId, keep: spec_fn(StoreId) -> bool)
    ensures
        Seq::<StoreId>::empty().filter(keep) == Seq::<StoreId>::empty(),
        seq![store_id].filter(keep) == if keep(store_id) {
            seq![store_id]
        } else {
            Seq::<StoreId>::empty()
        },
{
    reveal(Seq::filter);
    let none = Seq::<StoreId>::empty();
    let one = seq![store_id];
    assert(none.filter(keep) =~= none);
    assert(one.drop_last() =~= none);
    assert(one.last() == store_id);
    assert(one.filter(keep) == if keep(store_id) {
        none.filter(keep).push(store_id)
    } else {
        none.filter(keep)
    });
    assert(none.push(store_id) =~= one);
}

fn find_selected_stores(
    selection: &ItemCollection,
    recordings: &Vec<StoreId>,
    stores: &Vec<StoreId>,
) -> (res: Vec<StoreId>)
    ensures
        res@ == selected_stores(selection.items(), recordings@, stores@),
{
    let ghost there = |store_id: StoreId| types::is_among(stores@, store_id);
    let ghost all = selection.items();
    let items = items_of(selection);
    let mut found: Vec<StoreId> = Vec::new();
    let mut i: usize = 0;
    proof {
        reveal(Seq::filter);
        assert(all.take(0).len() == 0);
        assert(found@ =~= stores_of_items(all.take(0), recordings@).filter(there));
    }
    while i < items.len()
        invariant
            i <= items@.len(),
            all == selection.items(),
            there == (|store_id: StoreId| types::is_among(stores@, store_id)),
            items@.len() == all.len(),
            forall|k: int| 0 <= k < items@.len() ==> *(#[trigger] items@[k]) == all[k],
            found@ == stores_of_items(all.take(i as int), recordings@).filter(there),
        decreases items@.len() - i,
    {
        let ghost before = stores_of_items(all.take(i as int), recordings@);
        let ghost more = stores_of_item(all[i as int], recordings@);
        proof {
            assert(all.take(i + 1).drop_last() =~= all.take(i as int));
            assert(all.take(i + 1).last() == all[i as int]);
            assert(stores_of_items(all.take(i + 1), recordings@) == before + more);
            Seq::filter_distributes_over_add(before, more, there);
        }
        match items[i] {
            Item::AppId(app_id) => {
                push_stores_of_app(&mut found, app_id, recordings, stores);
            },
            Item::StoreId(store_id) => {
                push_if_there(&mut found, store_id, stores);
                proof {
                    filter_of_one(*store_id, there);
                    assert(found@ =~= before.filter(there) + more.filter(there));
                }
            },
            _ => {
                assert(more.filter(there) =~= Seq::<StoreId>::empty()) by {
                    reveal(Seq::filter);
                }
                assert(found@ =~= before.filter(there) + more.filter(there));
            },
        }
        i = i + 1;
    }
    assert(all.take(i as int) =~= all);
    found
}

/// What is saved when the user saves recordings: the active one if nothing is selected, a file for
/// a single one, and a folder for several.
pub open spec fn saving_effects(stores: Seq<StoreId>) -> Seq<EffectView> {
    if stores.len() == 0 {
        seq![EffectOf::SaveActiveRecording { cropped: false }]
    } else if stores.len() == 1 {
        seq![EffectOf::SaveRecording(stores[0])]
    } else {
        seq![EffectOf::SaveRecordingsToFolder(stores)]
    }
}

/// What the time control is told by a command of the user.
pub open spec fn playback(cmd: UICommand) -> Option<TimeControlCommand> {
    match cmd {
        UICommand::PlaybackTogglePlayPause => Some(TimeControlCommand::TogglePlayPause),
        UICommand::PlaybackFollow => Some(TimeControlCommand::SetPlayState(PlayState::Following)),
        UICommand::PlaybackStepBack => Some(TimeControlCommand::StepTimeBack),
        UICommand::PlaybackStepForward => Some(TimeControlCommand::StepTimeForward),
        UICommand::PlaybackBack => Some(TimeControlCommand::MoveBy(-100i64)),
        UICommand::PlaybackForward => Some(TimeControlCommand::MoveBy(100)),
        UICommand::PlaybackBackFast => Some(TimeControlCommand::MoveBy(-1000i64)),
        UICommand::PlaybackForwardFast => Some(TimeControlCommand::MoveBy(1000)),
        UICommand::PlaybackBeginning => Some(TimeControlCommand::MoveBeginning),
        UICommand::PlaybackEnd => Some(TimeControlCommand::MoveEnd),
        UICommand::PlaybackRestart => Some(TimeControlCommand::Restart),
        UICommand::PlaybackSpeed(speed) => Some(TimeControlCommand::SetSpeed(speed)),
        _ => None,
    }
}

fn playback_command(cmd: UICommand) -> (res: Option<TimeControlCommand>)
    ensures
        res == playback(cmd),
{
    match cmd {
        UICommand::PlaybackTogglePlayPause => Some(TimeControlCommand::TogglePlayPause),
        UICommand::PlaybackFollow => Some(TimeControlCommand::SetPlayState(PlayState::Following)),
        UICommand::PlaybackStepBack => Some(TimeControlCommand::StepTimeBack),
        UICommand::PlaybackStepForward => Some(TimeControlCommand::StepTimeForward),
        UICommand::PlaybackBack => Some(TimeControlCommand::MoveBy(-100)),
        UICommand::PlaybackForward => Some(TimeControlCommand::MoveBy(100)),
        UICommand::PlaybackBackFast => Some(TimeControlCommand::MoveBy(-1000)),
        UICommand::PlaybackForwardFast => Some(TimeControlCommand::MoveBy(1000)),
        UICommand::PlaybackBeginning => Some(TimeControlCommand::MoveBeginning),
        UICommand::PlaybackEnd => Some(TimeControlCommand::MoveEnd),
        UICommand::PlaybackRestart => Some(TimeControlCommand::Restart),
        UICommand::PlaybackSpeed(speed) => Some(TimeControlCommand::SetSpeed(speed)),
        _ => None,
    }
}

/// How the addresses of the history are opened.
pub open spec fn history_options() -> OpenUrlOptions {
    OpenUrlOptions {
        follow_if_http: true,
        select_redap_source_when_loaded: true,
        show_loader: true,
    }
}

/// How other addresses are opened.
pub open spec fn address_options() -> OpenUrlOptions {
    OpenUrlOptions {
        follow_if_http: false,
        select_redap_source_when_loaded: true,
        show_loader: true,
    }
}

/// The effect of a command that is there on native only.
pub open spec fn on_native(platform: Platform, effect: EffectView) -> Seq<EffectView> {
    if platform == Platform::Native {
        seq![effect]
    } else {
        Seq::empty()
    }
}

/// The effect of a command that is there on the web only.
pub open spec fn on_web(platform: Platform, effect: EffectView) -> Seq<EffectView> {
    if platform == Platform::Web {
        seq![effect]
    } else {
        Seq::empty()
    }
}

/// The effect of a command that toggles a panel unless it is in the wanted state.
pub open spec fn toggled_unless(fulfilled: bool, panel: Panel) -> Seq<EffectView> {
    if fulfilled {
        Seq::empty()
    } else {
        seq![EffectOf::TogglePanel(panel)]
    }
}

/// What a command of the user brings about in the surroundings, in order.
pub open spec fn ui_effects(app: AppModel, cmd: UICommand, facts: UiFacts) -> Seq<EffectView> {
    let platform = app.platform;
    let (target, force_store_info) = target_recording(facts, app.defaults.welcome_screen_app_id@);
    match cmd {
        UICommand::SaveRecording => if platform == Platform::Web {
            saving_effects(Seq::empty())
        } else {
            saving_effects(
                selected_stores(app.state.selection, facts.recordings@, facts.stores@),
            )
        },
        UICommand::SaveRecordingSelection => seq![EffectOf::SaveActiveRecording { cropped: true }],
        UICommand::SaveVideoSelection => if platform == Platform::Web {
            seq![
                commands::reported(
                    Severity::Warning,
                    "Saving cropped videos is not supported in the web viewer."@,
                ),
            ]
        } else {
            seq![EffectOf::SaveVideo]
        },
        UICommand::SaveBlueprint => seq![EffectOf::SaveBlueprint],
        UICommand::Open => seq![
            EffectOf::PickFiles { recommended_store_id: None, force_store_info },
        ],
        UICommand::Import => seq![
            EffectOf::PickFiles { recommended_store_id: Some(target), force_store_info },
        ],
        UICommand::OpenUrl => seq![EffectOf::OpenUrlModal],
        UICommand::CloseCurrentRecording => match facts.store_context {
            Some(context) => seq![
                EffectOf::SendSystem(
                    SystemCommandOf::CloseRecordingOrTable(
                        RecordingOrTable::Recording { store_id: context.recording_id },
                    ),
                ),
            ],
            None => Seq::empty(),
        },
        UICommand::CloseAllEntries => seq![
            EffectOf::SendSystem(SystemCommandOf::CloseAllEntries),
        ],
        UICommand::NextRecording => seq![EffectOf::SelectNextRecording],
        UICommand::PreviousRecording => seq![EffectOf::SelectPreviousRecording],
        UICommand::NavigateBack => seq![EffectOf::OpenPreviousUrl(history_options())],
        UICommand::NavigateForward => seq![EffectOf::OpenNextUrl(history_options())],
        UICommand::Undo => match facts.store_context {
            Some(context) => seq![
                EffectOf::SendSystem(
                    SystemCommandOf::UndoBlueprint { blueprint_id: context.blueprint_id },
                ),
            ],
            None => Seq::empty(),
        },
        UICommand::Redo => match facts.store_context {
            Some(context) => seq![
                EffectOf::SendSystem(
                    SystemCommandOf::RedoBlueprint { blueprint_id: context.blueprint_id },
                ),
            ],
            None => Seq::empty(),
        },
        UICommand::Quit => on_native(platform, EffectOf::CloseWindow),
        UICommand::OpenWebHelp => seq![
            EffectOf::OpenBrowserUrl {
                address: "https://www.rerun.io/docs/getting-started/navigating-the-viewer"@,
                new_tab: true,
            },
        ],
        UICommand::OpenRerunDiscord => seq![
            EffectOf::OpenBrowserUrl {
                address: "https://discord.gg/PXtCgFBSmH"@,
                new_tab: true,
            },
        ],
        UICommand::ResetViewer => seq![EffectOf::SendSystem(SystemCommandOf::ResetViewer)],
        UICommand::ClearActiveBlueprint => seq![
            EffectOf::SendSystem(SystemCommandOf::ClearActiveBlueprint),
        ],
        UICommand::ClearActiveBlueprintAndEnableHeuristics => seq![
            EffectOf::SendSystem(SystemCommandOf::ClearActiveBlueprintAndEnableHeuristics),
        ],
        UICommand::OpenProfiler => on_native(platform, EffectOf::StartProfiler),
        UICommand::ToggleTopPanel => seq![EffectOf::TogglePanel(Panel::Top)],
        UICommand::ToggleBlueprintPanel => seq![EffectOf::TogglePanel(Panel::Blueprint)],
        UICommand::ExpandBlueprintPanel => toggled_unless(
            facts.blueprint_panel_is_expanded,
            Panel::Blueprint,
        ),
        UICommand::ToggleSelectionPanel => seq![EffectOf::TogglePanel(Panel::Selection)],
        UICommand::ExpandSelectionPanel => toggled_unless(
            facts.selection_panel_is_expanded,
            Panel::Selection,
        ),
        UICommand::ToggleTimePanel => seq![EffectOf::TogglePanel(Panel::Time)],
        UICommand::ToggleFullscreen => if platform == Platform::Native {
            seq![EffectOf::SetFullscreen(!facts.is_fullscreen)]
        } else if app.startup_options.fullscreen_options {
            seq![EffectOf::ToggleHostFullscreen]
        } else {
            Seq::empty()
        },
        UICommand::Settings => seq![EffectOf::SendSystem(SystemCommandOf::OpenSettings)],
        UICommand::ZoomIn => on_native(platform, EffectOf::SetZoom(ZoomStep::In)),
        UICommand::ZoomOut => on_native(platform, EffectOf::SetZoom(ZoomStep::Out)),
        UICommand::ZoomReset => on_native(platform, EffectOf::SetZoom(ZoomStep::Reset)),
        UICommand::ToggleCommandPalette => seq![EffectOf::ToggleCommandPalette],
        UICommand::ScreenshotWholeApp => on_native(platform, EffectOf::TakeScreenshot),
        UICommand::PrintChunkStore => if facts.store_context is Some {
            on_native(platform, EffectOf::PrintStore(StorePrint::ChunkStore))
        } else {
            Seq::empty()
        },
        UICommand::PrintBlueprintStore => if facts.store_context is Some {
            on_native(platform, EffectOf::PrintStore(StorePrint::BlueprintStore))
        } else {
            Seq::empty()
        },
        UICommand::PrintPrimaryCache => if facts.store_context is Some {
            on_native(platform, EffectOf::PrintStore(StorePrint::PrimaryCache))
        } else {
            Seq::empty()
        },
        UICommand::ResetEguiMemory => seq![EffectOf::ResetEguiMemory, EffectOf::ApplyStyle],
        UICommand::Share => seq![EffectOf::OpenShareModal],
        UICommand::CopyDirectLink => seq![EffectOf::CopyLink],
        UICommand::CopyTimeSelectionLink => seq![EffectOf::CopyTimeSelectionLink],
        UICommand::RestartWithWebGl => on_web(platform, EffectOf::RestartWithRenderer("webgl"@)),
        UICommand::RestartWithWebGpu => on_web(platform, EffectOf::RestartWithRenderer("webgpu"@)),
        UICommand::CopyEntityHierarchy => if facts.store_context is Some {
            seq![EffectOf::CopyEntityHierarchy]
        } else {
            seq![
                commands::reported(
                    Severity::Warning,
                    "Could not copy entity hierarchy: No active recording"@,
                ),
            ]
        },
        UICommand::AddRedapServer => seq![EffectOf::OpenAddServerModal],
        UICommand::ToggleMemoryPanel
        | UICommand::TogglePanelStateOverrides
        | UICommand::ToggleChunkStoreBrowser
        | UICommand::ToggleBlueprintInspectionPanel
        | UICommand::ToggleEguiDebugPanel => Seq::empty(),
        _ => match (playback(cmd), facts.active_store_id) {
            (Some(command), Some(store_id)) => seq![
                commands::time_commands_sent(store_id, seq![command]),
            ],
            _ => Seq::empty(),
        },
    }
}

/// The viewer after a command of the user.
pub open spec fn ui_state(app: AppModel, cmd: UICommand, facts: UiFacts) -> AppModel {
    let (target, force_store_info) = target_recording(facts, app.defaults.welcome_screen_app_id@);
    match cmd {
        UICommand::Open => if app.platform == Platform::Web {
            AppModel {
                open_files: Some(PendingFiles { recommended_store_id: None, force_store_info }),
                ..app
            }
        } else {
            app
        },
        UICommand::Import => if app.platform == Platform::Web {
            AppModel {
                open_files: Some(
                    PendingFiles { recommended_store_id: Some(target), force_store_info },
                ),
                ..app
            }
        } else {
            app
        },
        UICommand::ToggleMemoryPanel => AppModel {
            memory_panel_open: !app.memory_panel_open,
            ..app
        },
        UICommand::TogglePanelStateOverrides => AppModel {
            panel_state_overrides_active: !app.panel_state_overrides_active,
            ..app
        },
        UICommand::ToggleChunkStoreBrowser => AppModel {
            state: StateModel {
                navigation: Navigation {
                    current: navigation::browser_toggled(app.state.navigation.current),
                    ..app.state.navigation
                },
                ..app.state
            },
            ..app
        },
        UICommand::ToggleBlueprintInspectionPanel => AppModel {
            state: StateModel {
                app_options: AppOptions {
                    inspect_blueprint_timeline: !app.state.app_options.inspect_blueprint_timeline,
                    ..app.state.app_options
                },
                ..app.state
            },
            ..app
        },
        UICommand::ToggleEguiDebugPanel => AppModel {
            egui_debug_panel_open: !app.egui_debug_panel_open,
            ..app
        },
        _ => app,
    }
}

fn native_only(platform: Platform, effect: Effect) -> (res: Vec<Effect>)
    ensures
        commands::viewed(res@) == on_native(platform, effect@),
{
    match platform {
        Platform::Native => commands::just(effect),
        Platform::Web => commands::nothing(),
    }
}

fn web_only(platform: Platform, effect: Effect) -> (res: Vec<Effect>)
    ensures
        commands::viewed(res@) == on_web(platform, effect@),
{
    match platform {
        Platform::Native => commands::nothing(),
        Platform::Web => commands::just(effect),
    }
}

fn toggle_unless(fulfilled: bool, panel: Panel) -> (res: Vec<Effect>)
    ensures
        commands::viewed(res@) == toggled_unless(fulfilled, panel),
{
    if fulfilled {
        commands::nothing()
    } else {
        commands::just(EffectOf::TogglePanel(panel))
    }
}

impl App {
    fn save_selected_recordings(&self, facts: &UiFacts) -> (res: Vec<Effect>)
        ensures
            commands::viewed(res@) == ui_effects(self@, UICommand::SaveRecording, *facts),
    {
        if let Platform::Web = self.platform {
            return commands::just(EffectOf::SaveActiveRecording { cropped: false });
        }
        let mut found = find_selected_stores(
            &self.state.selection,
            &facts.recordings,
            &facts.stores,
        );
        if found.len() == 0 {
            commands::just(EffectOf::SaveActiveRecording { cropped: false })
        } else if found.len() == 1 {
            commands::just(EffectOf::SaveRecording(found.remove(0)))
        } else {
            commands::just(EffectOf::SaveRecordingsToFolder(found))
        }
    }

    fn pick_files(&mut self, imports: bool, facts: &UiFacts) -> (res: Vec<Effect>)
        ensures
            old(self).wf() ==> final(self).wf(),
            final(self)@ == ui_state(
                old(self)@,
                if imports {
                    UICommand::Import
                } else {
                    UICommand::Open
                },
                *facts,
            ),
            commands::viewed(res@) == ui_effects(
                old(self)@,
                if imports {
                    UICommand::Import
                } else {
                    UICommand::Open
                },
                *facts,
            ),
    {
        let (target, force_store_info) = find_target_recording(
            facts,
            &self.defaults.welcome_screen_app_id,
        );
        let recommended_store_id = if imports {
            Some(target)
        } else {
            None
        };
        if let Platform::Web = self.platform {
            self.open_files = Some(
                PendingFiles {
                    recommended_store_id: recommended_store_id.clone(),
                    force_store_info,
                },
            );
        }
        commands::just(EffectOf::PickFiles { recommended_store_id, force_store_info })
    }

    fn toggle_fullscreen(&self, is_fullscreen: bool) -> (res: Vec<Effect>)
        ensures
            commands::viewed(res@) == if self@.platform == Platform::Native {
                seq![EffectOf::SetFullscreen(!is_fullscreen)]
            } else if self@.startup_options.fullscreen_options {
                seq![EffectOf::ToggleHostFullscreen]
            } else {
                Seq::<EffectView>::empty()
            },
    {
        match self.platform {
            Platform::Native => commands::just(EffectOf::SetFullscreen(!is_fullscreen)),
            Platform::Web => if self.startup_options.fullscreen_options {
                commands::just(EffectOf::ToggleHostFullscreen)
            } else {
                commands::nothing()
            },
        }
    }

    fn print_store(&self, what: StorePrint, facts: &UiFacts) -> (res: Vec<Effect>)
        ensures
            commands::viewed(res@) == if facts.store_context is Some {
                on_native(self@.platform, EffectOf::PrintStore(what))
            } else {
                Seq::<EffectView>::empty()
            },
    {
        if facts.store_context.is_none() {
            return commands::nothing();
        }
        native_only(self.platform, EffectOf::PrintStore(what))
    }

    fn play_back(&self, cmd: UICommand, facts: &UiFacts) -> (res: Vec<Effect>)
        ensures
            commands::viewed(res@) == match (playback(cmd), facts.active_store_id) {
                (Some(command), Some(store_id)) => seq![
                    commands::time_commands_sent(store_id, seq![command]),
                ],
                _ => Seq::<EffectView>::empty(),
            },
    {
        match (playback_command(cmd), &facts.active_store_id) {
            (Some(command), Some(store_id)) => commands::just(
                commands::send_time_commands(
                    store_id.clone(),
                    commands::one_time_command(command),
                ),
            ),
            _ => commands::nothing(),
        }
    }

    /// Runs a command of the user.
    #[verifier::spinoff_prover]
    #[verifier::rlimit(60)]
    pub fn run_ui_command(&mut self, cmd: UICommand, facts: &UiFacts) -> (res: Vec<Effect>)
        requires
            old(self).wf(),
        ensures
            final(self).wf(),
            final(self)@ == ui_state(old(self)@, cmd, *facts),
            commands::viewed(res@) == ui_effects(old(self)@, cmd, *facts),
    {
        let platform = self.platform;
        match cmd {
            UICommand::SaveRecording => self.save_selected_recordings(facts),
            UICommand::SaveRecordingSelection => commands::just(
                EffectOf::SaveActiveRecording { cropped: true },
            ),
            UICommand::SaveVideoSelection => match platform {
                Platform::Web => commands::just(
                    commands::report(
                        Severity::Warning,
                        "Saving cropped videos is not supported in the web viewer.".to_owned(),
                    ),
                ),
                Platform::Native => commands::just(EffectOf::SaveVideo),
            },
            UICommand::SaveBlueprint => commands::just(EffectOf::SaveBlueprint),
            UICommand::Open => self.pick_files(false, facts),
            UICommand::Import => self.pick_files(true, facts),
            UICommand::OpenUrl => commands::just(EffectOf::OpenUrlModal),
            UICommand::CloseCurrentRecording => match &facts.store_context {
                Some(context) => commands::just(
                    EffectOf::SendSystem(
                        SystemCommandOf::CloseRecordingOrTable(
                            RecordingOrTable::Recording { store_id: context.recording_id.clone() },
                        ),
                    ),
                ),
                None => commands::nothing(),
            },
            UICommand::CloseAllEntries => commands::just(
                EffectOf::SendSystem(SystemCommandOf::CloseAllEntries),
            ),
            UICommand::NextRecording => commands::just(EffectOf::SelectNextRecording),
            UICommand::PreviousRecording => commands::just(EffectOf::SelectPreviousRecording),
            UICommand::NavigateBack => {
                let options = OpenUrlOptions {
                    follow_if_http: true,
                    select_redap_source_when_loaded: true,
                    show_loader: true,
                };
                commands::just(EffectOf::OpenPreviousUrl(options))
            },
            UICommand::NavigateForward => {
                let options = OpenUrlOptions {
                    follow_if_http: true,
                    select_redap_source_when_loaded: true,
                    show_loader: true,
                };
                commands::just(EffectOf::OpenNextUrl(options))
            },
            UICommand::Undo => match &facts.store_context {
                Some(context) => commands::just(
                    EffectOf::SendSystem(
                        SystemCommandOf::UndoBlueprint {
                            blueprint_id: context.blueprint_id.clone(),
                        },
                    ),
                ),
                None => commands::nothing(),
            },
            UICommand::Redo => match &facts.store_context {
                Some(context) => commands::just(
                    EffectOf::SendSystem(
                        SystemCommandOf::RedoBlueprint {
                            blueprint_id: context.blueprint_id.clone(),
                        },
                    ),
                ),
                None => commands::nothing(),
            },
            UICommand::Quit => native_only(platform, EffectOf::CloseWindow),
            UICommand::OpenWebHelp => commands::just(
                EffectOf::OpenBrowserUrl {
                    address:
                        "https://www.rerun.io/docs/getting-started/navigating-the-viewer".to_owned(),
                    new_tab: true,
                },
            ),
            UICommand::OpenRerunDiscord => commands::just(
                EffectOf::OpenBrowserUrl {
                    address: "https://discord.gg/PXtCgFBSmH".to_owned(),
                    new_tab: true,
                },
            ),
            UICommand::ResetViewer => commands::just(
                EffectOf::SendSystem(SystemCommandOf::ResetViewer),
            ),
            UICommand::ClearActiveBlueprint => commands::just(
                EffectOf::SendSystem(SystemCommandOf::ClearActiveBlueprint),
            ),
            UICommand::ClearActiveBlueprintAndEnableHeuristics => commands::just(
                EffectOf::SendSystem(SystemCommandOf::ClearActiveBlueprintAndEnableHeuristics),
            ),
            UICommand::OpenProfiler => native_only(platform, EffectOf::StartProfiler),
            UICommand::ToggleMemoryPanel => {
                self.memory_panel_open = !self.memory_panel_open;
                commands::nothing()
            },
            UICommand::TogglePanelStateOverrides => {
                self.panel_state_overrides_active = !self.panel_state_overrides_active;
                commands::nothing()
            },
            UICommand::ToggleTopPanel => commands::just(EffectOf::TogglePanel(Panel::Top)),
            UICommand::ToggleBlueprintPanel => commands::just(
                EffectOf::TogglePanel(Panel::Blueprint),
            ),
            UICommand::ExpandBlueprintPanel => toggle_unless(
                facts.blueprint_panel_is_expanded,
                Panel::Blueprint,
            ),
            UICommand::ToggleSelectionPanel => commands::just(
                EffectOf::TogglePanel(Panel::Selection),
            ),
            UICommand::ExpandSelectionPanel => toggle_unless(
                facts.selection_panel_is_expanded,
                Panel::Selection,
            ),
            UICommand::ToggleTimePanel => commands::just(EffectOf::TogglePanel(Panel::Time)),
            UICommand::ToggleChunkStoreBrowser => {
                self.state.navigation.toggle_chunk_store_browser();
                commands::nothing()
            },
            UICommand::ToggleBlueprintInspectionPanel => {
                self.state.app_options.inspect_blueprint_timeline =
                !self.state.app_options.inspect_blueprint_timeline;
                commands::nothing()
            },
            UICommand::ToggleEguiDebugPanel => {
                self.egui_debug_panel_open = !self.egui_debug_panel_open;
                commands::nothing()
            },
            UICommand::ToggleFullscreen => self.toggle_fullscreen(facts.is_fullscreen),
            UICommand::Settings => commands::just(
                EffectOf::SendSystem(SystemCommandOf::OpenSettings),
            ),
            UICommand::ZoomIn => native_only(platform, EffectOf::SetZoom(ZoomStep::In)),
            UICommand::ZoomOut => native_only(platform, EffectOf::SetZoom(ZoomStep::Out)),
            UICommand::ZoomReset => native_only(platform, EffectOf::SetZoom(ZoomStep::Reset)),
            UICommand::ToggleCommandPalette => commands::just(EffectOf::ToggleCommandPalette),
            UICommand::ScreenshotWholeApp => native_only(platform, EffectOf::TakeScreenshot),
            UICommand::PrintChunkStore => self.print_store(StorePrint::ChunkStore, facts),
            UICommand::PrintBlueprintStore => self.print_store(StorePrint::BlueprintStore, facts),
            UICommand::PrintPrimaryCache => self.print_store(StorePrint::PrimaryCache, facts),
            UICommand::ResetEguiMemory => commands::both(
                EffectOf::ResetEguiMemory,
                EffectOf::ApplyStyle,
            ),
            UICommand::Share => commands::just(EffectOf::OpenShareModal),
            UICommand::CopyDirectLink => commands::just(EffectOf::CopyLink),
            UICommand::CopyTimeSelectionLink => commands::just(EffectOf::CopyTimeSelectionLink),
            UICommand::RestartWithWebGl => web_only(
                platform,
                EffectOf::RestartWithRenderer("webgl".to_owned()),
            ),
            UICommand::RestartWithWebGpu => web_only(
                platform,
                EffectOf::RestartWithRenderer("webgpu".to_owned()),
            ),
            UICommand::CopyEntityHierarchy => if facts.store_context.is_some() {
                commands::just(EffectOf::CopyEntityHierarchy)
            } else {
                commands::just(
                    commands::report(
                        Severity::Warning,
                        "Could not copy entity hierarchy: No active recording".to_owned(),
                    ),
                )
            },
            UICommand::AddRedapServer => commands::just(EffectOf::OpenAddServerModal),
            UICommand::PlaybackTogglePlayPause
            | UICommand::PlaybackFollow
            | UICommand::PlaybackStepBack
            | UICommand::PlaybackStepForward
            | UICommand::PlaybackBack
            | UICommand::PlaybackForward
            | UICommand::PlaybackBackFast
            | UICommand::PlaybackForwardFast
            | UICommand::PlaybackBeginning
            | UICommand::PlaybackEnd
            | UICommand::PlaybackRestart
            | UICommand::PlaybackSpeed(_) => self.play_back(cmd, facts),
        }
    }
}

/// The command switches something on or off.
pub open spec fn is_toggle(cmd: UICommand) -> bool {
    ||| cmd is ToggleMemoryPanel
    ||| cmd is TogglePanelStateOverrides
    ||| cmd is ToggleBlueprintInspectionPanel
    ||| cmd is ToggleEguiDebugPanel
}

/// Switching twice changes nothing.
pub proof fn switching_twice_is_nothing(
    app: AppModel,
    cmd: UICommand,
    facts: UiFacts,
    later_facts: UiFacts,
)
    requires
        is_toggle(cmd),
    ensures
        ui_state(ui_state(app, cmd, facts), cmd, later_facts) == app,
{
}

/// No command of the user touches the connections or an export: what it wants done to them is
/// queued.
pub proof fn users_touch_neither_connections_nor_exports(
    app: AppModel,
    cmd: UICommand,
    facts: UiFacts,
)
    ensures
        ui_state(app, cmd, facts).rx_log == app.rx_log,
        ui_state(app, cmd, facts).export == app.export,
        ui_state(app, cmd, facts).next_export_id == app.next_export_id,
{
}

/// Opened files are never meant for the welcome screen.
pub proof fn files_are_not_meant_for_the_welcome_screen(
    facts: UiFacts,
    welcome_screen_app_id: Seq<char>,
)
    requires
        facts.fresh_application_id@ != welcome_screen_app_id,
    ensures
        target_recording(facts, welcome_screen_app_id).0.application_id@ != welcome_screen_app_id,
{
}

/// The effect of loading a file that the user picked.
pub open spec fn picked_file_effect(
    recommended_store_id: Option<StoreId>,
    force_store_info: bool,
    path: String,
) -> EffectView {
    EffectOf::SendSystem(
        SystemCommandOf::LoadDataSource(
            LogDataSource::FilePath(
                FileSource::FileDialog { recommended_store_id, force_store_info },
                path,
            ),
        ),
    )
}

/// Loads the files that the user picked, in order.
pub fn on_files_picked(
    recommended_store_id: Option<StoreId>,
    force_store_info: bool,
    paths: &Vec<String>,
) -> (res: Vec<Effect>)
    ensures
        commands::viewed(res@) == paths@.map_values(
            |path: String| picked_file_effect(recommended_store_id, force_store_info, path),
        ),
{
    let mut effects = commands::nothing();
    let ghost wanted = paths@.map_values(
        |path: String| picked_file_effect(recommended_store_id, force_store_info, path),
    );
    let mut i: usize = 0;
    while i < paths.len()
        invariant
            i <= paths@.len(),
            wanted == paths@.map_values(
                |path: String| picked_file_effect(recommended_store_id, force_store_info, path),
            ),
            commands::viewed(effects@) == wanted.take(i as int),
        decreases paths@.len() - i,
    {
        commands::put(
            &mut effects,
            EffectOf::SendSystem(
                SystemCommandOf::LoadDataSource(
                    LogDataSource::FilePath(
                        FileSource::FileDialog {
                            recommended_store_id: recommended_store_id.clone(),
                            force_store_info,
                        },
                        paths[i].clone(),
                    ),
                ),
            ),
        );
        assert(commands::viewed(effects@) =~= wanted.take(i + 1));
        i = i + 1;
    }
    assert(commands::viewed(effects@) =~= wanted);
    effects
}

/// The effect of loading the contents of a file that the user picked in the browser.
pub open spec fn read_file_effect(pending: PendingFiles, contents: FileContents) -> EffectView {
    EffectOf::SendSystem(
        SystemCommandOf::LoadDataSource(
            LogDataSource::FileContents(
                FileSource::FileDialog {
                    recommended_store_id: pending.recommended_store_id,
                    force_store_info: pending.force_store_info,
                },
                contents,
            ),
        ),
    )
}

impl App {
    /// Loads the files that the user picked in the browser, in order. Nothing is pending
    /// afterwards.
    pub fn on_files_read(&mut self, files: Vec<FileContents>) -> (res: Vec<Effect>)
        requires
            old(self).wf(),
        ensures
            final(self).wf(),
            final(self)@ == (AppModel { open_files: None, ..old(self)@ }),
            commands::viewed(res@) == read_effects(old(self)@.open_files, files@),
    {
        let pending = match self.open_files.take() {
            Some(pending) => pending,
            None => {
                return commands::nothing();
            },
        };
        let mut effects = commands::nothing();
        let mut rest = files;
        let ghost wanted = files@.map_values(
            |contents: FileContents| read_file_effect(pending, contents),
        );
        let ghost mut done: int = 0;
        assert(files@.skip(0) =~= files@);
        while rest.len() > 0
            invariant
                0 <= done <= files@.len(),
                wanted == files@.map_values(
                    |contents: FileContents| read_file_effect(pending, contents),
                ),
                rest@ == files@.skip(done),
                commands::viewed(effects@) == wanted.take(done),
            decreases rest@.len(),
        {
            let contents = rest.remove(0);
            commands::put(
                &mut effects,
                EffectOf::SendSystem(
                    SystemCommandOf::LoadDataSource(
                        LogDataSource::FileContents(
                            FileSource::FileDialog {
                                recommended_store_id: pending.recommended_store_id.clone(),
                                force_store_info: pending.force_store_info,
                            },
                            contents,
                        ),
                    ),
                ),
            );
            proof {
                assert(commands::viewed(effects@) =~= wanted.take(done + 1));
                assert(rest@ =~= files@.skip(done + 1));
                done = done + 1;
            }
        }
        assert(commands::viewed(effects@) =~= wanted);
        effects
    }

    /// Opens an address in the viewer if it could be parsed, and tells the user if not.
    pub fn open_url_or_file(&self, url: String, parsed: Result<(), String>) -> (res: Effect)
        ensures
            res@ == address_effect(url, parsed),
    {
        match parsed {
            Ok(()) => {
                let options = OpenUrlOptions {
                    follow_if_http: false,
                    select_redap_source_when_loaded: true,
                    show_loader: true,
                };
                EffectOf::OpenContentUrl { url, options }
            },
            Err(err) => failures::url_not_opened(url.as_str(), err.as_str()),
        }
    }

    /// What follows when a server refuses to answer without credentials: the user is asked for
    /// them, and the address is opened once they are there.
    pub fn auth_error_handler(origin: String, url: String) -> (res: SystemCommand)
        ensures
            res@ == (SystemCommandView::EditRedapServerModal {
                origin,
                open_on_success: Some(url),
                title: Some("Authenticate to see this recording"@),
            }),
    {
        SystemCommandOf::EditRedapServerModal {
            origin,
            open_on_success: Some(url),
            title: Some("Authenticate to see this recording".to_owned()),
        }
    }
}

/// What the user picked in the command palette.
#[derive(Debug, PartialEq, Eq)]
pub enum CommandPaletteAction {
    UiCommand(UICommand),
    /// An address, and how parsing it went.
    OpenUrl(String, Result<(), String>),
}

/// Runs what the user picked in the command palette.
pub fn on_palette_action(action: CommandPaletteAction) -> (res: Effect)
    ensures
        res@ == palette_effect(action),
{
    match action {
        CommandPaletteAction::UiCommand(cmd) => EffectOf::SendUi(cmd),
        CommandPaletteAction::OpenUrl(url, Ok(())) => {
            let options = OpenUrlOptions {
                follow_if_http: false,
                select_redap_source_when_loaded: true,
                show_loader: true,
            };
            EffectOf::OpenContentUrl { url, options }
        },
        CommandPaletteAction::OpenUrl(_, Err(err)) => commands::report(Severity::Warning, err),
    }
}

/// The store is selected: as such, or together with its application.
pub open spec fn is_selected(
    items: Seq<Item>,
    recordings: Seq<StoreId>,
    store_id: StoreId,
) -> bool {
    ||| exists|i: int| 0 <= i < items.len() && #[trigger] items[i] == Item::StoreId(store_id)
    ||| recordings.contains(store_id) && exists|i: int|
        0 <= i < items.len() && (#[trigger] items[i] matches Item::AppId(app_id) && app_id@
            == store_id.application_id@)
}

/// The stores that an effect saves.
pub open spec fn saved_stores(effect: EffectView) -> Seq<StoreId> {
    match effect {
        EffectOf::SaveRecording(store_id) => seq![store_id],
        EffectOf::SaveRecordingsToFolder(stores) => stores,
        _ => Seq::empty(),
    }
}

proof fn items_stand_for_what_is_selected(
    items: Seq<Item>,
    recordings: Seq<StoreId>,
    store_id: StoreId,
)
    ensures
        stores_of_items(items, recordings).contains(store_id) <==> is_selected(
            items,
            recordings,
            store_id,
        ),
    decreases items.len(),
{
    if items.len() > 0 {
        let rest = items.drop_last();
        let last = items.last();
        let n = items.len() - 1;
        let before = stores_of_items(rest, recordings);
        let more = stores_of_item(last, recordings);
        items_stand_for_what_is_selected(rest, recordings, store_id);
        vstd::seq_lib::lemma_seq_concat_contains_all_elements(before, more, store_id);
        match last {
            Item::AppId(app_id) => {
                let mine = |s: StoreId| s.application_id@ == app_id@;
                filter_holds(recordings, mine, store_id);
            },
            Item::StoreId(id) => {
                assert(more[0] == id);
            },
            _ => {},
        }
        if is_selected(rest, recordings, store_id) {
            if exists|i: int| 0 <= i < rest.len() && #[trigger] rest[i] == Item::StoreId(store_id) {
                let i = choose|i: int|
                    0 <= i < rest.len() && #[trigger] rest[i] == Item::StoreId(store_id);
                assert(items[i] == Item::StoreId(store_id));
            } else {
                let i = choose|i: int|
                    0 <= i < rest.len() && (#[trigger] rest[i] matches Item::AppId(app_id)
                        && app_id@ == store_id.application_id@);
                assert(items[i] == rest[i]);
            }
        }
        if more.contains(store_id) {
            assert(items[n] == last);
        }
        if is_selected(items, recordings, store_id) && !more.contains(store_id) {
            if exists|i: int| 0 <= i < items.len() && #[trigger] items[i] == Item::StoreId(store_id) {
                let i = choose|i: int|
                    0 <= i < items.len() && #[trigger] items[i] == Item::StoreId(store_id);
                assert(i < n);
                assert(rest[i] == Item::StoreId(store_id));
            } else {
                let i = choose|i: int|
                    0 <= i < items.len() && (#[trigger] items[i] matches Item::AppId(app_id)
                        && app_id@ == store_id.application_id@);
                assert(i < n);
                assert(rest[i] == items[i]);
            }
        }
    }
}

proof fn filter_holds(all: Seq<StoreId>, keep: spec_fn(StoreId) -> bool, store_id: StoreId)
    ensures
        all.filter(keep).contains(store_id) <==> all.contains(store_id) && keep(store_id),
{
    let kept = all.filter(keep);
    if kept.contains(store_id) {
        let i = choose|i: int| 0 <= i < kept.len() && kept[i] == store_id;
        all.lemma_filter_pred(keep, i);
        all.lemma_filter_contains_rev(keep, store_id);
    }
    if all.contains(store_id) && keep(store_id) {
        let i = choose|i: int| 0 <= i < all.len() && all[i] == store_id;
        all.lemma_filter_contains(keep, i);
    }
}

/// On native, a single effect saves every selected store that is there and no other one: a single
/// store to a file, and several to a folder. The active recording is saved if there is none, and
/// always on the web.
pub proof fn every_selected_recording_is_saved(app: AppModel, facts: UiFacts, store_id: StoreId)
    ensures
        ({
            let effects = ui_effects(app, UICommand::SaveRecording, facts);
            let saved = saved_stores(effects[0]);
            let active = EffectView::SaveActiveRecording { cropped: false };
            let selected = is_selected(app.state.selection, facts.recordings@, store_id)
                && exists|i: int|
                0 <= i < facts.stores@.len() && types::same_store(
                    #[trigger] facts.stores@[i],
                    store_id,
                );
            &&& effects.len() == 1
            &&& app.platform == Platform::Web ==> effects[0] == active
            &&& app.platform == Platform::Native ==> (saved.contains(store_id) <==> selected)
            &&& app.platform == Platform::Native && saved.len() == 0 ==> effects[0] == active
            &&& saved.len() > 0 ==> (effects[0] is SaveRecording <==> saved.len() == 1)
            &&& effects[0] is SaveActiveRecording || effects[0] is SaveRecording
                || effects[0] is SaveRecordingsToFolder
        }),
{
    let items = app.state.selection;
    let there = |s: StoreId| types::is_among(facts.stores@, s);
    let all = stores_of_items(items, facts.recordings@);
    items_stand_for_what_is_selected(items, facts.recordings@, store_id);
    filter_holds(all, there, store_id);
    let found = selected_stores(items, facts.recordings@, facts.stores@);
    assert(found == all.filter(there));
    if found.len() == 1 {
        assert(seq![found[0]] =~= found);
    } else if found.len() == 0 {
        assert(found =~= Seq::<StoreId>::empty());
    }
}

/// Stores are saved in the order in which they were selected, and those of an application in the
/// order in which they are there.
pub proof fn selected_stores_stay_in_order(
    items: Seq<Item>,
    recordings: Seq<StoreId>,
    stores: Seq<StoreId>,
    item: Item,
)
    ensures
        ({
            let before = selected_stores(items, recordings, stores);
            let after = selected_stores(items.push(item), recordings, stores);
            match item {
                Item::StoreId(store_id) => after == if types::is_among(stores, store_id) {
                    before.push(store_id)
                } else {
                    before
                },
                Item::AppId(app_id) => after == before + recordings.filter(
                    |s: StoreId| s.application_id@ == app_id@,
                ).filter(|s: StoreId| types::is_among(stores, s)),
                _ => after == before,
            }
        }),
{
    let there = |s: StoreId| types::is_among(stores, s);
    let all = stores_of_items(items, recordings);
    let more = stores_of_item(item, recordings);
    assert(items.push(item).drop_last() =~= items);
    assert(stores_of_items(items.push(item), recordings) == all + more);
    Seq::filter_distributes_over_add(all, more, there);
    match item {
        Item::StoreId(store_id) => {
            filter_of_one(store_id, there);
            assert(all.filter(there) + more.filter(there) =~= if there(store_id) {
                all.filter(there).push(store_id)
            } else {
                all.filter(there)
            });
        },
        Item::AppId(app_id) => {
            assert((|s: StoreId| s.application_id@ == app_id@) =~= (|store_id: StoreId|
                store_id.application_id@ == app_id@));
        },
        _ => {
            assert(more.filter(there) =~= Seq::<StoreId>::empty()) by {
                reveal(Seq::filter);
            }
            assert(all.filter(there) + more.filter(there) =~= all.filter(there));
        },
    }
}

/// The command works on one platform only, or differently on both.
pub open spec fn depends_on_platform(cmd: UICommand) -> bool {
    ||| cmd is SaveRecording
    ||| cmd is SaveVideoSelection
    ||| cmd is Quit
    ||| cmd is OpenProfiler
    ||| cmd is ToggleFullscreen
    ||| cmd is ZoomIn
    ||| cmd is ZoomOut
    ||| cmd is ZoomReset
    ||| cmd is ScreenshotWholeApp
    ||| cmd is PrintChunkStore
    ||| cmd is PrintBlueprintStore
    ||| cmd is PrintPrimaryCache
    ||| cmd is RestartWithWebGl
    ||| cmd is RestartWithWebGpu
}

/// Most commands of the user do the same wherever the viewer runs.
#[verifier::spinoff_prover]
#[verifier::rlimit(60)]
pub proof fn users_get_the_same_everywhere(
    app: AppModel,
    platform: Platform,
    cmd: UICommand,
    facts: UiFacts,
)
    requires
        !depends_on_platform(cmd),
    ensures
        ui_effects(AppModel { platform, ..app }, cmd, facts) == ui_effects(app, cmd, facts),
        ui_state(AppModel { platform, ..app }, cmd, facts).state == ui_state(
            app,
            cmd,
            facts,
        ).state,
        ui_state(AppModel { platform, ..app }, cmd, facts).memory_panel_open == ui_state(
            app,
            cmd,
            facts,
        ).memory_panel_open,
        ui_state(AppModel { platform, ..app }, cmd, facts).egui_debug_panel_open == ui_state(
            app,
            cmd,
            facts,
        ).egui_debug_panel_open,
        ui_state(AppModel { platform, ..app }, cmd, facts).panel_state_overrides_active == ui_state(
            app,
            cmd,
            facts,
        ).panel_state_overrides_active,
{
}

/// What needs a window, a console or a profiler works on native and does nothing on the web; what
/// needs a browser works on the web and does nothing on native.
pub proof fn some_commands_need_their_platform(app: AppModel, cmd: UICommand, facts: UiFacts)
    ensures
        ({
            let effects = ui_effects(app, cmd, facts);
            let native = app.platform == Platform::Native;
            let shown = facts.store_context is Some;
            match cmd {
                UICommand::Quit => effects == if native {
                    seq![EffectView::CloseWindow]
                } else {
                    Seq::empty()
                },
                UICommand::OpenProfiler => effects == if native {
                    seq![EffectView::StartProfiler]
                } else {
                    Seq::empty()
                },
                UICommand::ZoomIn => effects == if native {
                    seq![EffectView::SetZoom(ZoomStep::In)]
                } else {
                    Seq::empty()
                },
                UICommand::ZoomOut => effects == if native {
                    seq![EffectView::SetZoom(ZoomStep::Out)]
                } else {
                    Seq::empty()
                },
                UICommand::ZoomReset => effects == if native {
                    seq![EffectView::SetZoom(ZoomStep::Reset)]
                } else {
                    Seq::empty()
                },
                UICommand::ScreenshotWholeApp => effects == if native {
                    seq![EffectView::TakeScreenshot]
                } else {
                    Seq::empty()
                },
                UICommand::SaveVideoSelection => {
                    &&& effects.len() == 1
                    &&& native ==> effects[0] == EffectView::SaveVideo
                    &&& !native ==> (effects[0] matches EffectOf::Report { severity, .. }
                        && severity == Severity::Warning)
                },
                UICommand::PrintChunkStore => effects == if native && shown {
                    seq![EffectView::PrintStore(StorePrint::ChunkStore)]
                } else {
                    Seq::empty()
                },
                UICommand::PrintBlueprintStore => effects == if native && shown {
                    seq![EffectView::PrintStore(StorePrint::BlueprintStore)]
                } else {
                    Seq::empty()
                },
                UICommand::PrintPrimaryCache => effects == if native && shown {
                    seq![EffectView::PrintStore(StorePrint::PrimaryCache)]
                } else {
                    Seq::empty()
                },
                UICommand::RestartWithWebGl => effects == if native {
                    Seq::empty()
                } else {
                    seq![EffectView::RestartWithRenderer("webgl"@)]
                },
                UICommand::RestartWithWebGpu => effects == if native {
                    Seq::empty()
                } else {
                    seq![EffectView::RestartWithRenderer("webgpu"@)]
                },
                UICommand::ToggleFullscreen => {
                    &&& native ==> effects == seq![EffectView::SetFullscreen(!facts.is_fullscreen)]
                    &&& !native ==> effects == if app.startup_options.fullscreen_options {
                        seq![EffectView::ToggleHostFullscreen]
                    } else {
                        Seq::empty()
                    }
                },
                _ => true,
            }
        }),
{
}

/// Undoing and redoing is about the blueprint that is shown, and closing about the recording that is
/// shown. Nothing happens if nothing is shown.
pub proof fn commands_are_about_what_is_shown(app: AppModel, facts: UiFacts)
    ensures
        ({
            let undo = ui_effects(app, UICommand::Undo, facts);
            let redo = ui_effects(app, UICommand::Redo, facts);
            let close = ui_effects(app, UICommand::CloseCurrentRecording, facts);
            match facts.store_context {
                Some(context) => {
                    &&& undo == seq![
                        EffectView::SendSystem(
                            SystemCommandOf::UndoBlueprint { blueprint_id: context.blueprint_id },
                        ),
                    ]
                    &&& redo == seq![
                        EffectView::SendSystem(
                            SystemCommandOf::RedoBlueprint { blueprint_id: context.blueprint_id },
                        ),
                    ]
                    &&& close == seq![
                        EffectView::SendSystem(
                            SystemCommandOf::CloseRecordingOrTable(
                                RecordingOrTable::Recording { store_id: context.recording_id },
                            ),
                        ),
                    ]
                },
                None => undo.len() == 0 && redo.len() == 0 && close.len() == 0,
            }
        }),
{
}

/// Files that are opened are on their own. Files that are imported go to the recording that is shown,
/// unless that is the welcome screen's or nothing is shown: then to a new one, which has to be
/// created. The web viewer remembers that until the files are read.
pub proof fn imported_files_go_to_what_is_shown(app: AppModel, facts: UiFacts)
    ensures
        ({
            let opened = ui_effects(app, UICommand::Open, facts);
            let imported = ui_effects(app, UICommand::Import, facts);
            let goes_there = facts.store_context is Some
                && (facts.store_context->0).recording_id.application_id@
                != app.defaults.welcome_screen_app_id@;
            let store_id = if goes_there {
                (facts.store_context->0).recording_id
            } else {
                StoreId {
                    kind: types::StoreKind::Recording,
                    application_id: facts.fresh_application_id,
                    recording_id: facts.fresh_recording_id,
                }
            };
            &&& opened == seq![
                EffectView::PickFiles { recommended_store_id: None, force_store_info: !goes_there },
            ]
            &&& imported == seq![
                EffectView::PickFiles {
                    recommended_store_id: Some(store_id),
                    force_store_info: !goes_there,
                },
            ]
            &&& app.platform == Platform::Native ==> {
                &&& ui_state(app, UICommand::Open, facts).open_files == app.open_files
                &&& ui_state(app, UICommand::Import, facts).open_files == app.open_files
            }
            &&& app.platform == Platform::Web ==> {
                &&& ui_state(app, UICommand::Open, facts).open_files == Some(
                    PendingFiles { recommended_store_id: None, force_store_info: !goes_there },
                )
                &&& ui_state(app, UICommand::Import, facts).open_files == Some(
                    PendingFiles {
                        recommended_store_id: Some(store_id),
                        force_store_info: !goes_there,
                    },
                )
            }
        }),
{
}

/// What the user picked is loaded as it was picked, for the recording that it was picked for.
pub proof fn picked_files_are_loaded(
    recommended_store_id: Option<StoreId>,
    force_store_info: bool,
    path: String,
    contents: FileContents,
)
    ensures
        ({
            let source = FileSource::FileDialog { recommended_store_id, force_store_info };
            let pending = PendingFiles { recommended_store_id, force_store_info };
            &&& picked_file_effect(recommended_store_id, force_store_info, path)
                == EffectView::SendSystem(
                SystemCommandOf::LoadDataSource(LogDataSource::FilePath(source, path)),
            )
            &&& read_file_effect(pending, contents) == EffectView::SendSystem(
                SystemCommandOf::LoadDataSource(LogDataSource::FileContents(source, contents)),
            )
        }),
{
}

/// Playing is about the active recording alone, and nothing happens without one. Forwards and
/// backwards are opposite ways of the same length, and fast is ten times as far.
pub proof fn playback_is_of_the_active_recording(app: AppModel, cmd: UICommand, facts: UiFacts)
    requires
        playback(cmd) is Some,
    ensures
        match facts.active_store_id {
            Some(store_id) => ui_effects(app, cmd, facts) == seq![
                EffectView::SendSystem(
                    SystemCommandOf::TimeControlCommands {
                        store_id,
                        time_commands: seq![playback(cmd)->0],
                    },
                ),
            ],
            None => ui_effects(app, cmd, facts).len() == 0,
        },
        playback(UICommand::PlaybackForward) == Some(TimeControlCommand::MoveBy(100)),
        playback(UICommand::PlaybackBack) == Some(TimeControlCommand::MoveBy(-100i64)),
        playback(UICommand::PlaybackForwardFast) == Some(TimeControlCommand::MoveBy(1000)),
        playback(UICommand::PlaybackBackFast) == Some(TimeControlCommand::MoveBy(-1000i64)),
        cmd matches UICommand::PlaybackSpeed(speed) ==> playback(cmd) == Some(
            TimeControlCommand::SetSpeed(speed),
        ),
{
}

/// What each of the keys for playing does.
pub proof fn keys_for_playing_do_what_they_say()
    ensures
        playback(UICommand::PlaybackTogglePlayPause) == Some(TimeControlCommand::TogglePlayPause),
        playback(UICommand::PlaybackFollow) == Some(
            TimeControlCommand::SetPlayState(PlayState::Following),
        ),
        playback(UICommand::PlaybackStepBack) == Some(TimeControlCommand::StepTimeBack),
        playback(UICommand::PlaybackStepForward) == Some(TimeControlCommand::StepTimeForward),
        playback(UICommand::PlaybackBeginning) == Some(TimeControlCommand::MoveBeginning),
        playback(UICommand::PlaybackEnd) == Some(TimeControlCommand::MoveEnd),
        playback(UICommand::PlaybackRestart) == Some(TimeControlCommand::Restart),
{
}

/// Switching changes what is switched, and nothing else.
pub proof fn switching_changes_what_is_switched(app: AppModel, facts: UiFacts)
    ensures
        ({
            let memory = ui_state(app, UICommand::ToggleMemoryPanel, facts);
            let overrides = ui_state(app, UICommand::TogglePanelStateOverrides, facts);
            let debug = ui_state(app, UICommand::ToggleEguiDebugPanel, facts);
            let inspector = ui_state(app, UICommand::ToggleBlueprintInspectionPanel, facts);
            &&& memory.memory_panel_open != app.memory_panel_open
            &&& memory == AppModel { memory_panel_open: memory.memory_panel_open, ..app }
            &&& overrides.panel_state_overrides_active != app.panel_state_overrides_active
            &&& overrides == AppModel {
                panel_state_overrides_active: overrides.panel_state_overrides_active,
                ..app
            }
            &&& debug.egui_debug_panel_open != app.egui_debug_panel_open
            &&& debug == AppModel { egui_debug_panel_open: debug.egui_debug_panel_open, ..app }
            &&& inspector.state.app_options.inspect_blueprint_timeline
                != app.state.app_options.inspect_blueprint_timeline
            &&& inspector.state.app_options.blueprint_gc == app.state.app_options.blueprint_gc
            &&& inspector.state.app_options.show_metrics == app.state.app_options.show_metrics
            &&& inspector.state.app_options.show_notification_toasts
                == app.state.app_options.show_notification_toasts
            &&& inspector.state.selection == app.state.selection
            &&& inspector.state.navigation == app.state.navigation
        }),
{
}

/// Commands of the user leave the viewer as it is, but for those that switch something or open
/// files: the rest is brought about by what is queued.
pub proof fn most_commands_leave_the_state(app: AppModel, cmd: UICommand, facts: UiFacts)
    requires
        !is_toggle(cmd),
        !(cmd is ToggleChunkStoreBrowser),
        !(cmd is Open),
        !(cmd is Import),
    ensures
        ui_state(app, cmd, facts) == app,
{
}

/// Panels are toggled one by one, and expanding a panel toggles it only if it is not expanded.
pub proof fn panels_are_toggled_one_by_one(app: AppModel, facts: UiFacts)
    ensures
        ui_effects(app, UICommand::ToggleTopPanel, facts) == seq![
            EffectView::TogglePanel(Panel::Top),
        ],
        ui_effects(app, UICommand::ToggleBlueprintPanel, facts) == seq![
            EffectView::TogglePanel(Panel::Blueprint),
        ],
        ui_effects(app, UICommand::ToggleSelectionPanel, facts) == seq![
            EffectView::TogglePanel(Panel::Selection),
        ],
        ui_effects(app, UICommand::ToggleTimePanel, facts) == seq![
            EffectView::TogglePanel(Panel::Time),
        ],
        ui_effects(app, UICommand::ExpandBlueprintPanel, facts) == if facts.blueprint_panel_is_expanded {
            Seq::empty()
        } else {
            ui_effects(app, UICommand::ToggleBlueprintPanel, facts)
        },
        ui_effects(app, UICommand::ExpandSelectionPanel, facts) == if facts.selection_panel_is_expanded {
            Seq::empty()
        } else {
            ui_effects(app, UICommand::ToggleSelectionPanel, facts)
        },
{
}

/// Commands that are carried out elsewhere are handed on, whatever the state of the viewer is.
pub proof fn other_commands_are_handed_on(app: AppModel, cmd: UICommand, facts: UiFacts)
    ensures
        ({
            let effects = ui_effects(app, cmd, facts);
            match cmd {
                UICommand::SaveRecordingSelection => effects == seq![
                    EffectView::SaveActiveRecording { cropped: true },
                ],
                UICommand::SaveBlueprint => effects == seq![EffectView::SaveBlueprint],
                UICommand::OpenUrl => effects == seq![EffectView::OpenUrlModal],
                UICommand::CloseAllEntries => effects == seq![
                    EffectView::SendSystem(SystemCommandOf::CloseAllEntries),
                ],
                UICommand::NextRecording => effects == seq![EffectView::SelectNextRecording],
                UICommand::PreviousRecording => effects == seq![
                    EffectView::SelectPreviousRecording,
                ],
                UICommand::NavigateBack => effects.len() == 1 && effects[0] is OpenPreviousUrl,
                UICommand::NavigateForward => effects.len() == 1 && effects[0] is OpenNextUrl,
                UICommand::ResetViewer => effects == seq![
                    EffectView::SendSystem(SystemCommandOf::ResetViewer),
                ],
                UICommand::ClearActiveBlueprint => effects == seq![
                    EffectView::SendSystem(SystemCommandOf::ClearActiveBlueprint),
                ],
                UICommand::ClearActiveBlueprintAndEnableHeuristics => effects == seq![
                    EffectView::SendSystem(
                        SystemCommandOf::ClearActiveBlueprintAndEnableHeuristics,
                    ),
                ],
                UICommand::Settings => effects == seq![
                    EffectView::SendSystem(SystemCommandOf::OpenSettings),
                ],
                UICommand::ToggleCommandPalette => effects == seq![
                    EffectView::ToggleCommandPalette,
                ],
                UICommand::ResetEguiMemory => effects == seq![
                    EffectView::ResetEguiMemory,
                    EffectOf::ApplyStyle,
                ],
                UICommand::Share => effects == seq![EffectView::OpenShareModal],
                UICommand::CopyDirectLink => effects == seq![EffectView::CopyLink],
                UICommand::CopyTimeSelectionLink => effects == seq![
                    EffectView::CopyTimeSelectionLink,
                ],
                UICommand::AddRedapServer => effects == seq![EffectView::OpenAddServerModal],
                UICommand::CopyEntityHierarchy => effects.len() == 1 && if facts.store_context is Some {
                    effects[0] == EffectView::CopyEntityHierarchy
                } else {
                    effects[0] is Report
                },
                _ => true,
            }
        }),
{
}

/// What becomes of the files that a user has picked, once they are read.
pub open spec fn read_effects(open_files: Option<PendingFiles>, files: Seq<FileContents>) -> Seq<
    EffectView,
> {
    match open_files {
        Some(pending) => files.map_values(
            |contents: FileContents| read_file_effect(pending, contents),
        ),
        None => Seq::<EffectView>::empty(),
    }
}

/// What becomes of an address.
pub open spec fn address_effect(url: String, parsed: Result<(), String>) -> EffectView {
    match parsed {
        Ok(()) => EffectView::OpenContentUrl { url, options: address_options() },
        Err(err) => commands::reported(Severity::Error, failures::unopened_text(url@, err@)),
    }
}

/// What becomes of what was chosen in the command palette.
pub open spec fn palette_effect(action: CommandPaletteAction) -> EffectView {
    match action {
        CommandPaletteAction::UiCommand(cmd) => EffectView::SendUi(cmd),
        CommandPaletteAction::OpenUrl(url, Ok(())) => EffectView::OpenContentUrl {
            url,
            options: address_options(),
        },
        CommandPaletteAction::OpenUrl(_, Err(err)) => commands::reported(Severity::Warning, err@),
    }
}

/// Every file that was read is loaded, in order, for the recording that it was picked for. Files that
/// nobody waits for are not.
pub proof fn files_that_were_read_are_loaded(
    pending: PendingFiles,
    files: Seq<FileContents>,
    i: int,
)
    ensures
        read_effects(None, files).len() == 0,
        read_effects(Some(pending), files).len() == files.len(),
        0 <= i < files.len() ==> read_effects(Some(pending), files)[i] == EffectView::SendSystem(
            SystemCommandOf::LoadDataSource(
                LogDataSource::FileContents(
                    FileSource::FileDialog {
                        recommended_store_id: pending.recommended_store_id,
                        force_store_info: pending.force_store_info,
                    },
                    files[i],
                ),
            ),
        ),
{
}

/// An address that is understood is opened, from wherever it comes: in this viewer, with the loading
/// screen, and selected once it is there. Of another one the user is told why not.
pub proof fn addresses_are_opened(url: String, err: String)
    ensures
        address_effect(url, Ok(())) == palette_effect(
            CommandPaletteAction::OpenUrl(url, Ok(())),
        ),
        address_effect(url, Ok(())) matches EffectOf::OpenContentUrl { url: opened, options }
            && opened == url && !options.follow_if_http
            && options.select_redap_source_when_loaded && options.show_loader,
        address_effect(url, Err(err)) matches EffectOf::Report { severity, .. } && severity
            == Severity::Error,
        palette_effect(CommandPaletteAction::OpenUrl(url, Err(err))) == (EffectView::Report {
            severity: Severity::Warning,
            text: err@,
        }),
{
}

/// A command from the palette is the same command as from anywhere else.
pub proof fn the_palette_sends_commands(cmd: UICommand)
    ensures
        palette_effect(CommandPaletteAction::UiCommand(cmd)) == EffectView::SendUi(cmd),
{
}

/// Help is found in the browser, in a new tab.
pub proof fn help_is_found_in_the_browser(app: AppModel, facts: UiFacts)
    ensures
        ui_effects(app, UICommand::OpenWebHelp, facts) == seq![
            EffectView::OpenBrowserUrl {
                address: "https://www.rerun.io/docs/getting-started/navigating-the-viewer"@,
                new_tab: true,
            },
        ],
        ui_effects(app, UICommand::OpenRerunDiscord, facts) == seq![
            EffectView::OpenBrowserUrl {
                address: "https://discord.gg/PXtCgFBSmH"@,
                new_tab: true,
            },
        ],
{
}

/// Going back and going forward follow links as a user who clicks them would.
pub proof fn history_is_followed_like_links(app: AppModel, facts: UiFacts)
    ensures
        ui_effects(app, UICommand::NavigateBack, facts).len() == 1,
        ui_effects(app, UICommand::NavigateBack, facts)[0] matches EffectOf::OpenPreviousUrl(options)
            && options.follow_if_http && options.select_redap_source_when_loaded
            && options.show_loader,
        ui_effects(app, UICommand::NavigateForward, facts).len() == 1,
        ui_effects(app, UICommand::NavigateForward, facts)[0] matches EffectOf::OpenNextUrl(options)
            && options.follow_if_http && options.select_redap_source_when_loaded
            && options.show_loader,
{
}

/// Commands about a recording, or about the page around the viewer, do nothing where there is none.
/// Panels that show what the viewer itself does are a matter of its state alone.
pub proof fn commands_without_a_subject_do_nothing(app: AppModel, cmd: UICommand, facts: UiFacts)
    ensures
        facts.store_context is None && (cmd is CloseCurrentRecording || cmd is Undo || cmd is Redo
            || cmd is PrintChunkStore || cmd is PrintBlueprintStore || cmd is PrintPrimaryCache)
            ==> ui_effects(app, cmd, facts).len() == 0,
        app.platform == Platform::Web && !app.startup_options.fullscreen_options
            && cmd is ToggleFullscreen ==> ui_effects(app, cmd, facts).len() == 0,
        cmd is ToggleMemoryPanel || cmd is TogglePanelStateOverrides
            || cmd is ToggleChunkStoreBrowser || cmd is ToggleBlueprintInspectionPanel
            || cmd is ToggleEguiDebugPanel ==> ui_effects(app, cmd, facts).len() == 0,
        facts.store_context is None ==> ui_effects(app, UICommand::CopyEntityHierarchy, facts)
            == seq![
            EffectView::Report {
                severity: Severity::Warning,
                text: "Could not copy entity hierarchy: No active recording"@,
            },
        ],
        facts.store_context is Some ==> ui_effects(app, UICommand::CopyEntityHierarchy, facts)
            == seq![EffectView::CopyEntityHierarchy],
{
}

} // verus!
