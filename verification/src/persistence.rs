//! What is kept on disk: blueprints and the state of the viewer.
use crate::app::App;
use crate::commands;
use crate::commands::Effect;
use crate::commands::EffectView;
use crate::commands::Severity;
use crate::text;
use crate::types::Platform;
use crate::types::StoreKind;
use vstd::prelude::*;
use vstd::string::*;

verus! {

/// A place that blueprints are kept in.
#[derive(Clone, Copy, Debug, PartialEq, Eq, Structural)]
pub enum BlueprintPlace {
    /// The file that belongs to the application by default.
    DefaultFile,
}

/// A check that blueprints have to pass.
#[derive(Clone, Copy, Debug, PartialEq, Eq, Structural)]
pub enum BlueprintCheck {
    /// Everything in the blueprint can be decoded.
    IsValidBlueprint,
}

/// How blueprints are loaded, saved and checked.
#[derive(Clone, Copy, Debug, PartialEq, Eq, Structural)]
pub struct BlueprintPersistence {
    pub loader: Option<BlueprintPlace>,
    pub saver: Option<BlueprintPlace>,
    pub validator: Option<BlueprintCheck>,
}

/// How blueprints are loaded, saved and checked: they are always checked, and kept on disk where
/// there is one.
pub fn blueprint_loader(platform: Platform) -> (res: BlueprintPersistence)
    ensures
        res.validator == Some(BlueprintCheck::IsValidBlueprint),
        res.loader == blueprint_place(platform),
        res.saver == blueprint_place(platform),
{
    match platform {
        Platform::Web => BlueprintPersistence {
            loader: None,
            saver: None,
            validator: Some(BlueprintCheck::IsValidBlueprint),
        },
        Platform::Native => BlueprintPersistence {
            loader: Some(BlueprintPlace::DefaultFile),
            saver: Some(BlueprintPlace::DefaultFile),
            validator: Some(BlueprintCheck::IsValidBlueprint),
        },
    }
}

/// A store that was read from a blueprint file.
#[derive(Clone, Copy, Debug, PartialEq, Eq, Structural)]
pub struct LoadedStore {
    pub kind: StoreKind,
    /// Whether it passed the check of blueprints.
    pub is_valid: bool,
}

/// The store is a blueprint that did not pass the check.
pub open spec fn is_broken(store: LoadedStore) -> bool {
    store.kind == StoreKind::Blueprint && !store.is_valid
}

/// One of the stores is a broken blueprint.
pub open spec fn any_broken(stores: Seq<LoadedStore>) -> bool {
    exists|i: int| 0 <= i < stores.len() && is_broken(#[trigger] stores[i])
}

/// What the user is told about a blueprint file that holds a broken blueprint.
pub open spec fn broken_blueprint_text(app_id: Seq<char>, path: Seq<char>) -> Seq<char> {
    "Blueprint for "@ + app_id + " at "@ + text::quoted_path(path)
        + " appears invalid - will ignore. This is expected if you have just upgraded Rerun versions."@
}

/// Whether the stores of an application's blueprint file can be used: all of them or none. There
/// are none if there is no file, or if nothing could be read.
pub fn check_loaded_blueprint(app_id: &str, path: &str, stores: Option<Vec<LoadedStore>>) -> (res: (
    bool,
    Vec<Effect>,
))
    ensures
        res.0 == is_usable(stores),
        commands::viewed(res.1@) == unusable_effects(app_id@, path@, stores),
{
    let loaded = match stores {
        Some(loaded) => loaded,
        None => {
            return (false, commands::nothing());
        },
    };
    let mut i: usize = 0;
    while i < loaded.len()
        invariant
            stores == Some(loaded),
            i <= loaded@.len(),
            forall|k: int| 0 <= k < i ==> !is_broken(#[trigger] loaded@[k]),
        decreases loaded@.len() - i,
    {
        if loaded[i].kind == StoreKind::Blueprint && !loaded[i].is_valid {
            assert(is_broken(loaded@[i as int]));
            assert(any_broken(loaded@));
            let text = "Blueprint for ".to_owned().concat(app_id).concat(" at ").concat(
                text::quote_path(path).as_str(),
            ).concat(
                " appears invalid - will ignore. This is expected if you have just upgraded Rerun versions.",
            );
            return (false, commands::just(commands::report_once(Severity::Warning, text)));
        }
        i = i + 1;
    }
    (true, commands::nothing())
}

/// What is written when the viewer saves its state.
#[derive(Clone, Copy, Debug, PartialEq, Eq, Structural)]
pub enum SaveStep {
    /// The version of this program.
    Version,
    /// What is kept from one start to the next.
    State,
    /// The tokens of the servers.
    Tokens,
    /// Drop what the blueprints hold but do not show.
    CollectBlueprints,
    Blueprints,
    /// The blueprints cannot be saved.
    NoBlueprints,
}

/// What the viewer writes, and in what order: nothing if it does not persist its state.
pub open spec fn save_steps(persists: bool, collects: bool, has_hub: bool) -> Seq<SaveStep> {
    if !persists {
        Seq::empty()
    } else {
        let state = seq![SaveStep::Version, SaveStep::State, SaveStep::Tokens];
        if !has_hub {
            state.push(SaveStep::NoBlueprints)
        } else if collects {
            state.push(SaveStep::CollectBlueprints).push(SaveStep::Blueprints)
        } else {
            state.push(SaveStep::Blueprints)
        }
    }
}

impl App {
    /// What the viewer writes, and in what order.
    pub fn save(&self, has_hub: bool) -> (res: Vec<SaveStep>)
        ensures
            res@ == save_steps(
                self@.startup_options.persist_state,
                self@.state.app_options.blueprint_gc,
                has_hub,
            ),
    {
        let mut steps: Vec<SaveStep> = Vec::new();
        if self.startup_options.persist_state {
            steps.push(SaveStep::Version);
            steps.push(SaveStep::State);
            steps.push(SaveStep::Tokens);
            if has_hub {
                if self.state.app_options.blueprint_gc {
                    steps.push(SaveStep::CollectBlueprints);
                }
                steps.push(SaveStep::Blueprints);
            } else {
                steps.push(SaveStep::NoBlueprints);
            }
        }
        assert(steps@ =~= save_steps(
            self@.startup_options.persist_state,
            self@.state.app_options.blueprint_gc,
            has_hub,
        ));
        steps
    }
}

/// What the user is told where blueprints could not be saved: `failure` is the error of saving
/// them, and nothing if there was nothing to save them from.
pub fn blueprints_not_saved(failure: Option<String>) -> (res: Vec<Effect>)
    ensures
        commands::viewed(res@) == seq![
            commands::reported(
                Severity::Error,
                match failure {
                    Some(err) => "Saving blueprints failed: "@ + err@,
                    None => "Could not save blueprints: the store hub is not available"@,
                },
            ),
        ],
{
    let text = match failure {
        Some(err) => "Saving blueprints failed: ".to_owned().concat(err.as_str()),
        None => "Could not save blueprints: the store hub is not available".to_owned(),
    };
    commands::just(commands::report(Severity::Error, text))
}

/// A viewer that persists its state writes its version, its state and its tokens, and after that its
/// blueprints, or tells that it cannot. What the blueprints do not show is dropped before they are
/// written, and only if that is wanted. A viewer that does not persist its state writes nothing.
pub proof fn blueprints_are_written_last(persists: bool, collects: bool, has_hub: bool)
    ensures
        ({
            let steps = save_steps(persists, collects, has_hub);
            &&& !persists ==> steps.len() == 0
            &&& persists ==> {
                &&& steps.len() == if collects && has_hub {
                    5int
                } else {
                    4
                }
                &&& steps[0] == SaveStep::Version
                &&& steps[1] == SaveStep::State
                &&& steps[2] == SaveStep::Tokens
                &&& steps.last() == if has_hub {
                    SaveStep::Blueprints
                } else {
                    SaveStep::NoBlueprints
                }
                &&& collects && has_hub ==> steps[3] == SaveStep::CollectBlueprints
            }
        }),
{
}

/// One broken blueprint is enough for a file not to be used. Recordings in it do not matter.
pub proof fn one_broken_blueprint_is_enough(stores: Seq<LoadedStore>, store: LoadedStore)
    ensures
        !any_broken(Seq::<LoadedStore>::empty()),
        any_broken(stores.push(store)) <==> any_broken(stores) || (store.kind
            == StoreKind::Blueprint && !store.is_valid),
{
    let all = stores.push(store);
    if any_broken(stores) {
        let i = choose|i: int| 0 <= i < stores.len() && is_broken(#[trigger] stores[i]);
        assert(is_broken(all[i]));
    }
    if is_broken(store) {
        assert(is_broken(all[stores.len() as int]));
    }
    if any_broken(all) {
        let i = choose|i: int| 0 <= i < all.len() && is_broken(#[trigger] all[i]);
        if i < stores.len() {
            assert(is_broken(stores[i]));
        }
    }
}

/// Where blueprints are kept: in files, if there are any.
pub open spec fn blueprint_place(platform: Platform) -> Option<BlueprintPlace> {
    match platform {
        Platform::Native => Some(BlueprintPlace::DefaultFile),
        Platform::Web => None,
    }
}

/// What was loaded for an application can be used.
pub open spec fn is_usable(stores: Option<Vec<LoadedStore>>) -> bool {
    stores matches Some(stores) && !any_broken(stores@)
}

/// What is told of a blueprint file that cannot be used.
pub open spec fn unusable_effects(
    app_id: Seq<char>,
    path: Seq<char>,
    stores: Option<Vec<LoadedStore>>,
) -> Seq<EffectView> {
    if stores is Some && !is_usable(stores) {
        seq![commands::reported_once(Severity::Warning, broken_blueprint_text(app_id, path))]
    } else {
        Seq::<EffectView>::empty()
    }
}

/// Blueprints are kept in files on native, and nowhere in the browser.
pub proof fn blueprints_are_kept_in_files()
    ensures
        blueprint_place(Platform::Native) == Some(BlueprintPlace::DefaultFile),
        blueprint_place(Platform::Web) is None,
{
}

/// A blueprint file is used if and only if all that it holds is valid. The user is warned, once, of one
/// that is not, and of nothing else: neither of a file that is fine nor of one that is not there.
pub proof fn only_valid_blueprints_are_used(
    app_id: Seq<char>,
    path: Seq<char>,
    stores: Option<Vec<LoadedStore>>,
)
    ensures
        stores is None ==> !is_usable(stores) && unusable_effects(app_id, path, stores).len() == 0,
        stores matches Some(loaded) ==> {
            &&& (forall|i: int|
                0 <= i < loaded@.len() ==> !((#[trigger] loaded@[i]).kind == StoreKind::Blueprint
                    && !loaded@[i].is_valid)) ==> is_usable(stores) && unusable_effects(
                app_id,
                path,
                stores,
            ).len() == 0
            &&& (exists|i: int|
                0 <= i < loaded@.len() && (#[trigger] loaded@[i]).kind == StoreKind::Blueprint
                    && !loaded@[i].is_valid) ==> !is_usable(stores) && unusable_effects(
                app_id,
                path,
                stores,
            ) == seq![
                EffectView::ReportOnce {
                    severity: Severity::Warning,
                    text: "Blueprint for "@ + app_id + " at "@ + text::quoted_path(path)
                        + " appears invalid - will ignore. This is expected if you have just upgraded Rerun versions."@,
                },
            ]
        },
{
    if let Some(loaded) = stores {
        assert forall|i: int| 0 <= i < loaded@.len() && is_broken(#[trigger] loaded@[i]) implies
            any_broken(loaded@) by {}
    }
}

} // verus!
