//! What comes in from data sources, and what follows from it.
use crate::analytics;
use crate::analytics::AnalyticsEvent;
use crate::app::App;
use crate::app::AppModel;
use crate::commands;
use crate::commands::Effect;
use crate::commands::EffectOf;
use crate::commands::EffectView;
use crate::commands::Severity;
use crate::commands::SystemCommandOf;
use crate::stores;
use crate::time;
use crate::types::Fragment;
use crate::types::Item;
use crate::types::ItemCollection;
use crate::types::LogSource;
use crate::types::Platform;
use crate::types::StoreId;
use crate::types::StoreKind;
use vstd::prelude::*;
use vstd::string::*;

verus! {

/// What came in from a data source.
#[derive(Debug, PartialEq, Eq)]
pub enum Payload {
    Message,
    /// The sender wants to know when everything so far was handled.
    Flush,
    /// The source is gone, for a reason if that was not expected.
    Quit(Option<String>),
}

/// What to do with what came in.
#[derive(Debug, PartialEq, Eq)]
pub enum PayloadStep {
    HandleMessage,
    TellFlushed,
    Report(Vec<Effect>),
}

/// What is told of a source that is gone: nothing if that was expected.
pub open spec fn quit_effects(reason: Option<String>, source: Seq<char>) -> Seq<EffectView> {
    match reason {
        Some(err) => seq![
            commands::reported(
                Severity::Warning,
                "Data source "@ + source + " has left unexpectedly: "@ + err@,
            ),
        ],
        None => Seq::<EffectView>::empty(),
    }
}

/// What to do with what came in from a source, which is printed as `source`.
pub fn on_payload(payload: Payload, source: &str) -> (res: PayloadStep)
    ensures
        match payload {
            Payload::Message => res is HandleMessage,
            Payload::Flush => res is TellFlushed,
            Payload::Quit(reason) => res matches PayloadStep::Report(effects) && commands::viewed(
                effects@,
            ) == quit_effects(reason, source@),
        },
{
    match payload {
        Payload::Message => PayloadStep::HandleMessage,
        Payload::Flush => PayloadStep::TellFlushed,
        Payload::Quit(None) => PayloadStep::Report(commands::nothing()),
        Payload::Quit(Some(err)) => {
            let text = "Data source ".to_owned().concat(source).concat(
                " has left unexpectedly: ",
            ).concat(err.as_str());
            PayloadStep::Report(commands::just(commands::report(Severity::Warning, text)))
        },
    }
}

/// Messages have taken so long that the window would stop to respond.
pub open spec fn takes_too_long(elapsed_nanos: int) -> bool {
    elapsed_nanos > 10_000_000
}

/// Whether to leave the rest of the messages to the next frame, so that the window stays
/// responsive: after ten milliseconds. The next frame then follows at once.
pub fn after_message(elapsed_nanos: u128) -> (res: Option<Effect>)
    ensures
        takes_too_long(elapsed_nanos as int) ==> (res matches Some(effect) && effect@
            == EffectView::RequestRepaint),
        !takes_too_long(elapsed_nanos as int) ==> res is None,
{
    if elapsed_nanos > 10_000_000 {
        Some(EffectOf::RequestRepaint)
    } else {
        None
    }
}

/// What is known of the store of a message before the message is added to it.
#[derive(Debug, PartialEq, Eq)]
pub struct StoreBefore {
    pub store_id: StoreId,
    pub is_active_blueprint: bool,
    /// Whether the store is there already.
    pub is_known: bool,
    pub has_data_source: bool,
    pub is_empty: bool,
}

/// The effects before a message is added to its store.
pub open spec fn before_adding_effects(store: StoreBefore, source: LogSource) -> Seq<EffectView> {
    let warning = if store.is_active_blueprint {
        seq![
            EffectOf::ReportStoreOnce {
                severity: Severity::Warning,
                before: "Loading a blueprint "@,
                store_id: store.store_id,
                after: " that is active. See https://github.com/rerun-io/rerun/issues/5514 for details."@,
            },
        ]
    } else {
        Seq::<EffectView>::empty()
    };
    let data_source = if store.has_data_source {
        Seq::<EffectView>::empty()
    } else {
        seq![EffectOf::SetDataSource(store.store_id, source)]
    };
    warning + data_source
}

/// Notes where the data of a store comes from before a message is added to it. That stays as it is
/// when data comes in from elsewhere.
pub fn before_adding(store: &StoreBefore, source: &LogSource) -> (res: Vec<Effect>)
    ensures
        commands::viewed(res@) == before_adding_effects(*store, *source),
{
    let mut effects = commands::nothing();
    if store.is_active_blueprint {
        let warning = EffectOf::ReportStoreOnce {
            severity: Severity::Warning,
            before: "Loading a blueprint ".to_owned(),
            store_id: store.store_id.clone(),
            after:
                " that is active. See https://github.com/rerun-io/rerun/issues/5514 for details.".to_owned(),
        };
        commands::put(&mut effects, warning);
    }
    if !store.has_data_source {
        commands::put(
            &mut effects,
            EffectOf::SetDataSource(store.store_id.clone(), source.clone()),
        );
    }
    assert(commands::viewed(effects@) =~= before_adding_effects(*store, *source));
    effects
}

/// A message to a store.
#[derive(Clone, Copy, Debug, PartialEq, Eq, Structural)]
pub enum LogMsg {
    SetStoreInfo,
    ArrowMsg,
    BlueprintActivationCommand { make_active: bool, make_default: bool },
}

/// What is known of the store of a message after the message was added to it.
#[derive(Debug, PartialEq, Eq)]
pub struct StoreAfter {
    /// The error of adding the message, if there was one.
    pub failure: Option<String>,
    pub is_empty: bool,
    /// The application of the store, if its info is known.
    pub application_id: Option<String>,
    pub is_example: bool,
}

/// The effects of having added a message, or not.
pub open spec fn added_effects(failure: Option<String>) -> Seq<EffectView> {
    match failure {
        None => seq![EffectOf::UpdateCaches, EffectOf::ValidateLoadedEvents],
        Some(err) => seq![
            commands::reported_once(
                Severity::Error,
                "Failed to add incoming msg: "@ + err@,
            ),
        ],
    }
}

/// The effects of the first data of a store: only then can its timelines and entities be gone to.
pub open spec fn first_data_effects(was_empty: bool, is_empty: bool, source: LogSource) -> Seq<
    EffectView,
> {
    match source {
        LogSource::RedapGrpcStream { uri, .. } => if was_empty && !is_empty {
            time::fragment_effects(uri.store_id, uri.fragment)
        } else {
            Seq::empty()
        },
        _ => Seq::empty(),
    }
}

/// The effects of a message beyond what it adds to its store.
pub open spec fn message_effects(
    msg: LogMsg,
    store_id: StoreId,
    application_id: Option<String>,
) -> Seq<EffectView> {
    match (msg, store_id.kind) {
        (
            LogMsg::BlueprintActivationCommand { make_active, make_default },
            StoreKind::Blueprint,
        ) => match application_id {
            Some(app_id) => {
                let default = if make_default {
                    seq![EffectOf::SetDefaultBlueprint(store_id)]
                } else {
                    Seq::<EffectView>::empty()
                };
                let active = if make_active {
                    seq![
                        EffectOf::SetClonedBlueprintActive(store_id),
                        EffectOf::SetActiveApp(app_id),
                        EffectOf::RequestUserAttention,
                    ]
                } else {
                    Seq::<EffectView>::empty()
                };
                default + active
            },
            None => seq![
                commands::reported(
                    Severity::Warning,
                    "Got ActivateStore message without first receiving a SetStoreInfo"@,
                ),
            ],
        },
        _ => Seq::empty(),
    }
}

fn on_message(msg: LogMsg, store_id: &StoreId, application_id: &Option<String>) -> (res: Vec<Effect>)
    ensures
        commands::viewed(res@) == message_effects(msg, *store_id, *application_id),
{
    let mut effects = commands::nothing();
    if let (
        LogMsg::BlueprintActivationCommand { make_active, make_default },
        StoreKind::Blueprint,
    ) = (msg, store_id.kind) {
        match application_id {
            Some(app_id) => {
                if make_default {
                    commands::put(&mut effects, EffectOf::SetDefaultBlueprint(store_id.clone()));
                }
                if make_active {
                    commands::put(
                        &mut effects,
                        EffectOf::SetClonedBlueprintActive(store_id.clone()),
                    );
                    commands::put(&mut effects, EffectOf::SetActiveApp(app_id.clone()));
                    commands::put(&mut effects, EffectOf::RequestUserAttention);
                }
            },
            None => {
                let text = "Got ActivateStore message without first receiving a SetStoreInfo";
                commands::put(
                    &mut effects,
                    commands::report(Severity::Warning, text.to_owned()),
                );
            },
        }
    }
    assert(commands::viewed(effects@) =~= message_effects(msg, *store_id, *application_id));
    effects
}

/// The user is pointed to the native viewer: once, and only where that makes sense.
pub open spec fn hint_is_due(app: AppModel, is_example: bool) -> bool {
    app.platform == Platform::Web && !app.startup_options.is_in_notebook && !is_example
        && !app.install_hint_shown
}

/// What points the user to the faster native viewer.
pub open spec fn install_hint() -> EffectView {
    EffectOf::ShowTip {
        text: "For better performance, try the native Rerun Viewer!"@,
        link_text: "Install\u{2026}"@,
        link: "https://rerun.io/docs/getting-started/installing-viewer#installing-the-viewer"@,
        dismiss_id: "install_native_viewer_prompt"@,
    }
}

/// The effects of a new store. `selects` says whether data of its source is selected when it is
/// loaded.
pub open spec fn new_store_effects(
    app: AppModel,
    store_id: StoreId,
    selects: bool,
    is_example: bool,
) -> Seq<EffectView> {
    let recording = store_id.kind == StoreKind::Recording;
    let activation = if selects && recording {
        stores::activation_effects(store_id)
    } else {
        Seq::<EffectView>::empty()
    };
    let hint = if hint_is_due(app, is_example) {
        seq![install_hint()]
    } else {
        Seq::<EffectView>::empty()
    };
    let record = analytics::recorded(
        recording && app.build_info.analytics,
        AnalyticsEvent::OpenRecording { app_env: app.app_env, store_id },
    );
    let event = if recording && app.has_event_dispatcher {
        seq![EffectOf::EmitRecordingOpen(store_id)]
    } else {
        Seq::<EffectView>::empty()
    };
    activation + hint + record + event
}

impl App {
    /// What follows when a store is new. A recording is shown if its source asks for it; a
    /// blueprint is activated only once it is fully loaded.
    pub fn on_new_store(&mut self, store_id: &StoreId, selects: bool, is_example: bool) -> (res: Vec<
        Effect,
    >)
        ensures
            old(self).wf() ==> final(self).wf(),
            final(self)@ == (AppModel {
                install_hint_shown: old(self)@.install_hint_shown || hint_is_due(
                    old(self)@,
                    is_example,
                ),
                ..old(self)@
            }),
            commands::viewed(res@) == new_store_effects(
                old(self)@,
                *store_id,
                selects,
                is_example,
            ),
    {
        let mut effects = commands::nothing();
        if selects {
            match store_id.kind {
                StoreKind::Recording => {
                    commands::put_all(
                        &mut effects,
                        stores::make_store_active_and_highlight(store_id),
                    );
                },
                StoreKind::Blueprint => {},
            }
        }
        if self.platform == Platform::Web && !self.startup_options.is_in_notebook && !is_example
            && !self.install_hint_shown {
            self.install_hint_shown = true;
            let hint = EffectOf::ShowTip {
                text: "For better performance, try the native Rerun Viewer!".to_owned(),
                link_text: "Install\u{2026}".to_owned(),
                link:
                    "https://rerun.io/docs/getting-started/installing-viewer#installing-the-viewer".to_owned(),
                dismiss_id: "install_native_viewer_prompt".to_owned(),
            };
            commands::put(&mut effects, hint);
        }
        if store_id.is_recording() && self.build_info.analytics {
            let event = AnalyticsEvent::OpenRecording {
                app_env: self.app_env.clone(),
                store_id: store_id.clone(),
            };
            commands::put(&mut effects, EffectOf::Record(event));
        }
        if store_id.is_recording() && self.has_event_dispatcher {
            commands::put(&mut effects, EffectOf::EmitRecordingOpen(store_id.clone()));
        }
        assert(commands::viewed(effects@) =~= new_store_effects(
            old(self)@,
            *store_id,
            selects,
            is_example,
        ));
        effects
    }
}

/// The effects after a message was added to its store, in order.
pub open spec fn after_adding_effects(
    app: AppModel,
    before: StoreBefore,
    msg: LogMsg,
    source: LogSource,
    selects: bool,
    after: StoreAfter,
) -> Seq<EffectView> {
    let new_store = if before.is_known {
        Seq::<EffectView>::empty()
    } else {
        new_store_effects(app, before.store_id, selects, after.is_example)
    };
    added_effects(after.failure) + first_data_effects(before.is_empty, after.is_empty, source)
        + message_effects(msg, before.store_id, after.application_id) + new_store
}

impl App {
    /// What follows when a message was added to its store. What a new store brings about comes
    /// after all else.
    pub fn receive_log_msg(
        &mut self,
        before: &StoreBefore,
        msg: LogMsg,
        source: &LogSource,
        selects: bool,
        after: &StoreAfter,
    ) -> (res: Vec<Effect>)
        ensures
            old(self).wf() ==> final(self).wf(),
            final(self)@ == (AppModel {
                install_hint_shown: old(self)@.install_hint_shown || (!before.is_known
                    && hint_is_due(old(self)@, after.is_example)),
                ..old(self)@
            }),
            commands::viewed(res@) == after_adding_effects(
                old(self)@,
                *before,
                msg,
                *source,
                selects,
                *after,
            ),
    {
        let mut effects = match &after.failure {
            None => commands::both(EffectOf::UpdateCaches, EffectOf::ValidateLoadedEvents),
            Some(err) => {
                let text = "Failed to add incoming msg: ".to_owned().concat(err.as_str());
                commands::just(commands::report_once(Severity::Error, text))
            },
        };
        if before.is_empty && !after.is_empty {
            if let LogSource::RedapGrpcStream { uri, .. } = source {
                commands::put_all(
                    &mut effects,
                    time::go_to_dataset_data(uri.store_id.clone(), uri.fragment.clone()),
                );
            }
        }
        commands::put_all(
            &mut effects,
            on_message(msg, &before.store_id, &after.application_id),
        );
        if !before.is_known {
            let new_store = self.on_new_store(&before.store_id, selects, after.is_example);
            commands::put_all(&mut effects, new_store);
        }
        assert(commands::viewed(effects@) =~= after_adding_effects(
            old(self)@,
            *before,
            msg,
            *source,
            selects,
            *after,
        ));
        effects
    }
}

/// No message makes a blueprint the active recording.
pub proof fn messages_never_activate_a_blueprint(
    app: AppModel,
    before: StoreBefore,
    msg: LogMsg,
    source: LogSource,
    selects: bool,
    after: StoreAfter,
    i: int,
)
    requires
        0 <= i < after_adding_effects(app, before, msg, source, selects, after).len(),
    ensures
        after_adding_effects(app, before, msg, source, selects, after)[i]
            matches EffectOf::SetActiveRecording(store_id) ==> store_id == before.store_id
            && store_id.kind == StoreKind::Recording,
{
    let effects = after_adding_effects(app, before, msg, source, selects, after);
    let effect = effects[i];
    assert(effects.contains(effect));
    adding_brings_about(app, before, msg, source, selects, after, effect);
    a_message_brings_about(msg, before.store_id, after.application_id, effect);
    a_new_store_brings_about(app, before.store_id, selects, after.is_example, effect);
}

/// The user is pointed to the native viewer at most once.
pub proof fn the_hint_is_shown_once(app: AppModel, first_is_example: bool, second_is_example: bool)
    requires
        hint_is_due(app, first_is_example),
    ensures
        !hint_is_due(AppModel { install_hint_shown: true, ..app }, second_is_example),
{
}

/// What is told where a blueprint could not be made the default or the active one.
pub fn blueprint_not_set(make_active: bool, err: &str) -> (res: Effect)
    ensures
        res@ == commands::reported(
            Severity::Warning,
            unset_blueprint_text(make_active, err@),
        ),
{
    let text = if make_active {
        "Failed to make blueprint active: ".to_owned().concat(err)
    } else {
        "Failed to make blueprint default: ".to_owned().concat(err)
    };
    commands::report(Severity::Warning, text)
}

/// The effects of a table that was read, or could not be.
pub open spec fn table_effects(table_id: String, read: Result<(), String>) -> Seq<EffectView> {
    match read {
        Ok(()) => seq![
            EffectOf::InsertTable(table_id),
            commands::selection_sent(Item::TableId(table_id)),
            EffectOf::RequestUserAttention,
        ],
        Err(err) => seq![
            commands::reported(
                Severity::Error,
                "Failed to load table "@ + table_id@ + ": "@ + err@,
            ),
        ],
    }
}

/// Shows a table that was read, in place of one with the same id, or tells why it could not be.
pub fn receive_table_msg(table_id: String, read: Result<(), String>) -> (res: Vec<Effect>)
    ensures
        commands::viewed(res@) == table_effects(table_id, read),
{
    match read {
        Ok(()) => {
            let selection = commands::send_selection(Item::TableId(table_id.clone()));
            commands::three(
                EffectOf::InsertTable(table_id),
                selection,
                EffectOf::RequestUserAttention,
            )
        },
        Err(err) => {
            let text = "Failed to load table ".to_owned().concat(table_id.as_str()).concat(
                ": ",
            ).concat(err.as_str());
            commands::just(commands::report(Severity::Error, text))
        },
    }
}

/// What follows when a source points to something in a store: it is gone to if it could be parsed.
pub open spec fn pointed_to_effect(
    store_id: StoreId,
    parsed: Result<Fragment, String>,
    source: Seq<char>,
) -> EffectView {
    match parsed {
        Ok(fragment) => EffectView::SendSystem(
            SystemCommandOf::SetUrlFragment { store_id, fragment },
        ),
        Err(err) => commands::reported(
            Severity::Warning,
            "Failed to parse fragment received from "@ + source + ": "@ + err@,
        ),
    }
}

/// Goes to what a source points to; `source` is how it is printed.
pub fn receive_data_source_ui_command(
    store_id: StoreId,
    parsed: Result<Fragment, String>,
    source: &str,
) -> (res: Effect)
    ensures
        res@ == pointed_to_effect(store_id, parsed, source@),
{
    match parsed {
        Ok(fragment) => EffectOf::SendSystem(
            SystemCommandOf::SetUrlFragment { store_id, fragment },
        ),
        Err(err) => {
            let text = "Failed to parse fragment received from ".to_owned().concat(source).concat(
                ": ",
            ).concat(err.as_str());
            commands::report(Severity::Warning, text)
        },
    }
}

/// One of the archetypes is for map views. Each archetype is given by its view types.
pub open spec fn needs_map_view(archetypes: Seq<Vec<String>>) -> bool {
    exists|i: int, k: int|
        0 <= i < archetypes.len() && 0 <= k < archetypes[i]@.len() && #[trigger] archetypes[i]@[k]@
            == "MapView"@
}

/// What is told after data was loaded that this viewer cannot show.
pub open spec fn validation_effects(archetypes: Seq<Vec<String>>, has_map_view: bool) -> Seq<
    EffectView,
> {
    if !has_map_view && needs_map_view(archetypes) {
        seq![
            commands::reported_once(
                Severity::Warning,
                "Found map-related archetype, but viewer was not compiled with the `map_view` feature."@,
            ),
        ]
    } else {
        Seq::<EffectView>::empty()
    }
}

/// After data was loaded: tells the user if it cannot be shown. The archetypes of the data are
/// given by the types of the views that can show them.
pub fn validate_loaded_events(archetypes: &Vec<Vec<String>>, has_map_view: bool) -> (res: Vec<
    Effect,
>)
    ensures
        commands::viewed(res@) == validation_effects(archetypes@, has_map_view),
{
    if has_map_view {
        return commands::nothing();
    }
    let map_view = "MapView".to_owned();
    let mut i: usize = 0;
    while i < archetypes.len()
        invariant
            i <= archetypes@.len(),
            !has_map_view,
            map_view@ == "MapView"@,
            forall|a: int, b: int|
                0 <= a < i && 0 <= b < archetypes@[a]@.len() ==> #[trigger] archetypes@[a]@[b]@
                    != "MapView"@,
        decreases archetypes@.len() - i,
    {
        let view_types = &archetypes[i];
        let mut k: usize = 0;
        while k < view_types.len()
            invariant
                i < archetypes@.len(),
                !has_map_view,
                map_view@ == "MapView"@,
                *view_types == archetypes@[i as int],
                k <= view_types@.len(),
                forall|b: int| 0 <= b < k ==> #[trigger] archetypes@[i as int]@[b]@ != "MapView"@,
            decreases view_types@.len() - k,
        {
            if view_types[k] == map_view {
                assert(archetypes@[i as int]@[k as int]@ == "MapView"@);
                let text = "Found map-related archetype, but viewer was not compiled with the `map_view` feature.";
                return commands::just(commands::report_once(Severity::Warning, text.to_owned()));
            }
            k = k + 1;
        }
        i = i + 1;
    }
    commands::nothing()
}

/// What is told when the limit of memory is reached; the limit is given as it is printed, if
/// there is one.
pub fn memory_limit_reached(limit: Option<String>) -> (res: Effect)
    ensures
        res@ == commands::reported_once(
            Severity::Info,
            memory_limit_text(limit),
        ),
{
    let formatted = match limit {
        Some(limit) => limit,
        None => "\u{221e}".to_owned(),
    };
    let text = "Reached memory limit of ".to_owned().concat(formatted.as_str()).concat(
        ", dropping oldest data.",
    );
    commands::report_once(Severity::Info, text)
}

proof fn a_new_store_brings_about(
    app: AppModel,
    store_id: StoreId,
    selects: bool,
    is_example: bool,
    effect: EffectView,
)
    ensures
        new_store_effects(app, store_id, selects, is_example).contains(effect) <==> {
            let recording = store_id.kind == StoreKind::Recording;
            ||| selects && recording && (effect == EffectView::SetActiveRecording(store_id)
                || effect == commands::selection_sent(Item::StoreId(store_id)) || effect
                == EffectView::RequestUserAttention)
            ||| hint_is_due(app, is_example) && effect == install_hint()
            ||| recording && app.build_info.analytics && effect == EffectView::Record(
                AnalyticsEvent::OpenRecording { app_env: app.app_env, store_id },
            )
            ||| recording && app.has_event_dispatcher && effect == EffectView::EmitRecordingOpen(
                store_id,
            )
        },
{
    broadcast use {
        vstd::seq_lib::lemma_seq_concat_contains_all_elements,
        vstd::seq_lib::lemma_seq_contains_after_push,
        vstd::seq_lib::lemma_seq_empty_contains_nothing,
    };

}

proof fn a_message_brings_about(
    msg: LogMsg,
    store_id: StoreId,
    application_id: Option<String>,
    effect: EffectView,
)
    ensures
        message_effects(msg, store_id, application_id).contains(effect) <==> {
            let blueprint = store_id.kind == StoreKind::Blueprint;
            match (msg, application_id) {
                (
                    LogMsg::BlueprintActivationCommand { make_active, make_default },
                    Some(app_id),
                ) => blueprint && {
                    ||| make_default && effect == EffectView::SetDefaultBlueprint(store_id)
                    ||| make_active && (effect == EffectView::SetClonedBlueprintActive(store_id)
                        || effect == EffectView::SetActiveApp(app_id) || effect
                        == EffectView::RequestUserAttention)
                },
                (LogMsg::BlueprintActivationCommand { .. }, None) => blueprint && effect
                    == commands::reported(
                    Severity::Warning,
                    "Got ActivateStore message without first receiving a SetStoreInfo"@,
                ),
                _ => false,
            }
        },
{
    broadcast use {
        vstd::seq_lib::lemma_seq_concat_contains_all_elements,
        vstd::seq_lib::lemma_seq_contains_after_push,
        vstd::seq_lib::lemma_seq_empty_contains_nothing,
    };

}

proof fn first_data_brings_about(
    was_empty: bool,
    is_empty: bool,
    source: LogSource,
    effect: EffectView,
)
    requires
        first_data_effects(was_empty, is_empty, source).contains(effect),
    ensures
        effect matches EffectOf::SendSystem(cmd) && (
        cmd is BackgroundTimeControlCommands || (cmd matches SystemCommandOf::SetSelection(set)
            && !(set matches ItemCollection::One(Item::StoreId(_))))),
{
}

proof fn adding_brings_about(
    app: AppModel,
    before: StoreBefore,
    msg: LogMsg,
    source: LogSource,
    selects: bool,
    after: StoreAfter,
    effect: EffectView,
)
    ensures
        after_adding_effects(app, before, msg, source, selects, after).contains(effect) <==> {
            ||| added_effects(after.failure).contains(effect)
            ||| first_data_effects(before.is_empty, after.is_empty, source).contains(effect)
            ||| message_effects(msg, before.store_id, after.application_id).contains(effect)
            ||| !before.is_known && new_store_effects(
                app,
                before.store_id,
                selects,
                after.is_example,
            ).contains(effect)
        },
        added_effects(after.failure).contains(effect) <==> match after.failure {
            None => effect == EffectView::UpdateCaches || effect
                == EffectView::ValidateLoadedEvents,
            Some(err) => effect == commands::reported_once(
                Severity::Error,
                "Failed to add incoming msg: "@ + err@,
            ),
        },
        first_data_effects(before.is_empty, after.is_empty, source).contains(effect) ==> (
        effect matches EffectOf::SendSystem(cmd) && (cmd is BackgroundTimeControlCommands || (
        cmd matches SystemCommandOf::SetSelection(set) && !(set matches ItemCollection::One(
            Item::StoreId(_),
        ))))),
{
    broadcast use {
        vstd::seq_lib::lemma_seq_concat_contains_all_elements,
        vstd::seq_lib::lemma_seq_contains_after_push,
        vstd::seq_lib::lemma_seq_empty_contains_nothing,
    };

    if first_data_effects(before.is_empty, after.is_empty, source).contains(effect) {
        first_data_brings_about(before.is_empty, after.is_empty, source, effect);
    }
}

/// A recording that was not there before is shown if and only if its source asks for that, wherever
/// the viewer runs: it becomes active, is selected, and the user is told to look. A store that was
/// there before, or a blueprint, is never shown by that.
pub proof fn opened_recordings_are_shown(
    app: AppModel,
    before: StoreBefore,
    msg: LogMsg,
    source: LogSource,
    selects: bool,
    after: StoreAfter,
)
    ensures
        ({
            let effects = after_adding_effects(app, before, msg, source, selects, after);
            let shown = selects && !before.is_known && before.store_id.kind
                == StoreKind::Recording;
            let activated = EffectView::SetActiveRecording(before.store_id);
            let selected = EffectView::SendSystem(
                SystemCommandOf::SetSelection(
                    ItemCollection::One(Item::StoreId(before.store_id)),
                ),
            );
            &&& effects.contains(activated) <==> shown
            &&& effects.contains(selected) <==> shown
            &&& before.store_id.kind == StoreKind::Recording ==> (effects.contains(
                EffectView::RequestUserAttention,
            ) <==> shown)
            &&& forall|i: int|
                0 <= i < effects.len() && (#[trigger] effects[i]) is SetActiveRecording ==> shown
                    && effects[i] == activated
        }),
{
    let effects = after_adding_effects(app, before, msg, source, selects, after);
    let activated = EffectView::SetActiveRecording(before.store_id);
    let selected = commands::selection_sent(Item::StoreId(before.store_id));
    let attention = EffectView::RequestUserAttention;
    adding_brings_about(app, before, msg, source, selects, after, activated);
    adding_brings_about(app, before, msg, source, selects, after, selected);
    adding_brings_about(app, before, msg, source, selects, after, attention);
    a_message_brings_about(msg, before.store_id, after.application_id, activated);
    a_message_brings_about(msg, before.store_id, after.application_id, selected);
    a_message_brings_about(msg, before.store_id, after.application_id, attention);
    a_new_store_brings_about(app, before.store_id, selects, after.is_example, activated);
    a_new_store_brings_about(app, before.store_id, selects, after.is_example, selected);
    a_new_store_brings_about(app, before.store_id, selects, after.is_example, attention);
    assert forall|i: int| 0 <= i < effects.len() && (#[trigger] effects[i]) is SetActiveRecording
        implies selects && !before.is_known && effects[i] == activated by {
        let effect = effects[i];
        assert(effects.contains(effect));
        adding_brings_about(app, before, msg, source, selects, after, effect);
        a_message_brings_about(msg, before.store_id, after.application_id, effect);
        a_new_store_brings_about(app, before.store_id, selects, after.is_example, effect);
    }
}

/// A blueprint is made the default, or the active one of its application, if and only if a message
/// says so, it is a blueprint, and its application is known. What becomes active is shown to the
/// user.
pub proof fn blueprints_are_activated_as_told(
    app: AppModel,
    before: StoreBefore,
    msg: LogMsg,
    source: LogSource,
    selects: bool,
    after: StoreAfter,
)
    ensures
        ({
            let effects = after_adding_effects(app, before, msg, source, selects, after);
            let can = before.store_id.kind == StoreKind::Blueprint && after.application_id is Some;
            let default = msg matches LogMsg::BlueprintActivationCommand { make_default, .. }
                && make_default;
            let active = msg matches LogMsg::BlueprintActivationCommand { make_active, .. }
                && make_active;
            &&& effects.contains(EffectView::SetDefaultBlueprint(before.store_id)) <==> can
                && default
            &&& effects.contains(EffectView::SetClonedBlueprintActive(before.store_id)) <==> can
                && active
            &&& forall|app_id: String| #[trigger]
                effects.contains(EffectView::SetActiveApp(app_id)) <==> can && active
                    && after.application_id == Some(app_id)
            &&& before.store_id.kind == StoreKind::Blueprint ==> (effects.contains(
                EffectView::RequestUserAttention,
            ) <==> can && active)
        }),
{
    let effects = after_adding_effects(app, before, msg, source, selects, after);
    let default = EffectView::SetDefaultBlueprint(before.store_id);
    let active = EffectView::SetClonedBlueprintActive(before.store_id);
    let attention = EffectView::RequestUserAttention;
    adding_brings_about(app, before, msg, source, selects, after, default);
    adding_brings_about(app, before, msg, source, selects, after, active);
    adding_brings_about(app, before, msg, source, selects, after, attention);
    a_message_brings_about(msg, before.store_id, after.application_id, default);
    a_message_brings_about(msg, before.store_id, after.application_id, active);
    a_message_brings_about(msg, before.store_id, after.application_id, attention);
    a_new_store_brings_about(app, before.store_id, selects, after.is_example, default);
    a_new_store_brings_about(app, before.store_id, selects, after.is_example, active);
    a_new_store_brings_about(app, before.store_id, selects, after.is_example, attention);
    assert forall|app_id: String| #[trigger]
        effects.contains(EffectView::SetActiveApp(app_id)) <==> before.store_id.kind
            == StoreKind::Blueprint && (msg matches LogMsg::BlueprintActivationCommand {
            make_active,
            ..
        } && make_active) && after.application_id == Some(app_id) by {
        let shown = EffectView::SetActiveApp(app_id);
        adding_brings_about(app, before, msg, source, selects, after, shown);
        a_message_brings_about(msg, before.store_id, after.application_id, shown);
        a_new_store_brings_about(app, before.store_id, selects, after.is_example, shown);
    }
}

/// What was added to a store is validated, and brings the caches up to date, before anything else
/// follows. What could not be added is told once, with the reason, and does neither.
pub proof fn added_data_is_validated(
    app: AppModel,
    before: StoreBefore,
    msg: LogMsg,
    source: LogSource,
    selects: bool,
    after: StoreAfter,
)
    ensures
        ({
            let effects = after_adding_effects(app, before, msg, source, selects, after);
            match after.failure {
                None => effects.len() >= 2 && effects[0] == EffectView::UpdateCaches && effects[1]
                    == EffectView::ValidateLoadedEvents,
                Some(err) => {
                    &&& effects.len() >= 1
                    &&& effects[0] == EffectView::ReportOnce {
                        severity: Severity::Error,
                        text: "Failed to add incoming msg: "@ + err@,
                    }
                    &&& !effects.contains(EffectView::UpdateCaches)
                    &&& !effects.contains(EffectView::ValidateLoadedEvents)
                },
            }
        }),
{
    let (caches, validation) = (EffectView::UpdateCaches, EffectView::ValidateLoadedEvents);
    adding_brings_about(app, before, msg, source, selects, after, caches);
    adding_brings_about(app, before, msg, source, selects, after, validation);
    a_message_brings_about(msg, before.store_id, after.application_id, caches);
    a_message_brings_about(msg, before.store_id, after.application_id, validation);
    a_new_store_brings_about(app, before.store_id, selects, after.is_example, caches);
    a_new_store_brings_about(app, before.store_id, selects, after.is_example, validation);
}

/// When the first data of a dataset is there, the viewer goes to what its address points to, in the
/// dataset that the address names. It goes there only then, and for no other source.
pub proof fn addresses_are_gone_to_once_there_is_data(
    app: AppModel,
    before: StoreBefore,
    msg: LogMsg,
    source: LogSource,
    selects: bool,
    after: StoreAfter,
    effect: EffectView,
)
    requires
        effect matches EffectOf::SendSystem(SystemCommandOf::BackgroundTimeControlCommands { .. })
            || (effect matches EffectOf::SendSystem(SystemCommandOf::SetSelection(set))
            && !(set matches ItemCollection::One(Item::StoreId(_)))),
    ensures
        ({
            let effects = after_adding_effects(app, before, msg, source, selects, after);
            effects.contains(effect) <==> before.is_empty && !after.is_empty && (
            source matches LogSource::RedapGrpcStream { uri, .. } && time::fragment_effects(
                uri.store_id,
                uri.fragment,
            ).contains(effect))
        }),
{
    adding_brings_about(app, before, msg, source, selects, after, effect);
    a_message_brings_about(msg, before.store_id, after.application_id, effect);
    a_new_store_brings_about(app, before.store_id, selects, after.is_example, effect);
}

/// Whoever listens is told of every new recording, and so is what records the use of the viewer.
/// Neither hears of blueprints, or of a store that was there before.
pub proof fn new_recordings_are_announced(
    app: AppModel,
    before: StoreBefore,
    msg: LogMsg,
    source: LogSource,
    selects: bool,
    after: StoreAfter,
)
    ensures
        ({
            let effects = after_adding_effects(app, before, msg, source, selects, after);
            let new = !before.is_known && before.store_id.kind == StoreKind::Recording;
            &&& effects.contains(EffectView::EmitRecordingOpen(before.store_id)) <==> new
                && app.has_event_dispatcher
            &&& effects.contains(
                EffectView::Record(
                    AnalyticsEvent::OpenRecording {
                        app_env: app.app_env,
                        store_id: before.store_id,
                    },
                ),
            ) <==> new && app.build_info.analytics
        }),
{
    let opened = EffectView::EmitRecordingOpen(before.store_id);
    let recorded = EffectView::Record(
        AnalyticsEvent::OpenRecording { app_env: app.app_env, store_id: before.store_id },
    );
    adding_brings_about(app, before, msg, source, selects, after, opened);
    adding_brings_about(app, before, msg, source, selects, after, recorded);
    a_message_brings_about(msg, before.store_id, after.application_id, opened);
    a_message_brings_about(msg, before.store_id, after.application_id, recorded);
    a_new_store_brings_about(app, before.store_id, selects, after.is_example, opened);
    a_new_store_brings_about(app, before.store_id, selects, after.is_example, recorded);
}

/// The user of a web viewer, and no other one, is pointed to the native viewer, with the first store
/// that is no example, unless the viewer is part of a notebook.
pub proof fn the_hint_is_for_users_of_the_web(
    app: AppModel,
    store_id: StoreId,
    selects: bool,
    is_example: bool,
)
    ensures
        (exists|i: int|
            0 <= i < new_store_effects(app, store_id, selects, is_example).len()
                && #[trigger] new_store_effects(app, store_id, selects, is_example)[i] is ShowTip)
            <==> app.platform == Platform::Web && !app.startup_options.is_in_notebook
            && !is_example && !app.install_hint_shown,
{
    let effects = new_store_effects(app, store_id, selects, is_example);
    let recording = store_id.kind == StoreKind::Recording;
    let at = if selects && recording {
        stores::activation_effects(store_id).len() as int
    } else {
        0
    };
    if hint_is_due(app, is_example) {
        assert(effects[at] is ShowTip);
    }
}

/// Where the data of a store comes from is noted if and only if that is not known yet. The user is
/// warned if and only if the store is the active blueprint.
pub proof fn data_sources_are_noted_once(store: StoreBefore, source: LogSource)
    ensures
        ({
            let effects = before_adding_effects(store, source);
            let noted = EffectView::SetDataSource(store.store_id, source);
            &&& effects.contains(noted) <==> !store.has_data_source
            &&& effects.len() == (if store.is_active_blueprint {
                1int
            } else {
                0
            }) + (if store.has_data_source {
                0int
            } else {
                1
            })
            &&& store.is_active_blueprint ==> (effects[0] matches EffectOf::ReportStoreOnce {
                severity,
                store_id,
                ..
            } && severity == Severity::Warning && store_id == store.store_id)
        }),
{
    broadcast use {
        vstd::seq_lib::lemma_seq_concat_contains_all_elements,
        vstd::seq_lib::lemma_seq_contains_after_push,
        vstd::seq_lib::lemma_seq_empty_contains_nothing,
    };

}

/// A table that could be read is there before it is selected, and the user is told to look. One that
/// could not be read is only told about, by its id and the reason.
pub proof fn tables_are_shown_if_they_could_be_read(table_id: String, read: Result<(), String>)
    ensures
        match read {
            Ok(()) => table_effects(table_id, read) == seq![
                EffectView::InsertTable(table_id),
                EffectOf::SendSystem(
                    SystemCommandOf::SetSelection(ItemCollection::One(Item::TableId(table_id))),
                ),
                EffectOf::RequestUserAttention,
            ],
            Err(err) => table_effects(table_id, read) == seq![
                EffectView::Report {
                    severity: Severity::Error,
                    text: "Failed to load table "@ + table_id@ + ": "@ + err@,
                },
            ],
        },
{
}

/// Map views are needed as soon as one archetype is for them, whatever the others are for.
pub proof fn one_archetype_is_enough_for_map_views(archetypes: Seq<Vec<String>>, more: Vec<String>)
    ensures
        !needs_map_view(Seq::<Vec<String>>::empty()),
        needs_map_view(archetypes.push(more)) <==> needs_map_view(archetypes) || exists|k: int|
            0 <= k < more@.len() && #[trigger] more@[k]@ == "MapView"@,
{
    let all = archetypes.push(more);
    let n = archetypes.len() as int;
    if needs_map_view(archetypes) {
        let (i, k) = choose|i: int, k: int|
            0 <= i < archetypes.len() && 0 <= k < archetypes[i]@.len()
                && #[trigger] archetypes[i]@[k]@ == "MapView"@;
        assert(all[i]@[k]@ == "MapView"@);
    }
    if exists|k: int| 0 <= k < more@.len() && #[trigger] more@[k]@ == "MapView"@ {
        let k = choose|k: int| 0 <= k < more@.len() && #[trigger] more@[k]@ == "MapView"@;
        assert(all[n]@[k]@ == "MapView"@);
    }
    if needs_map_view(all) {
        let (i, k) = choose|i: int, k: int|
            0 <= i < all.len() && 0 <= k < all[i]@.len() && #[trigger] all[i]@[k]@ == "MapView"@;
        if i < n {
            assert(archetypes[i]@[k]@ == "MapView"@);
        } else {
            assert(more@[k]@ == "MapView"@);
        }
    }
}

/// A source that is gone for a reason is told about as a warning with that reason, and one that is
/// done is not.
pub proof fn sources_that_fail_are_told_about(reason: Option<String>, source: Seq<char>)
    ensures
        reason is None ==> quit_effects(reason, source).len() == 0,
        reason matches Some(err) ==> quit_effects(reason, source) == seq![
            EffectView::Report {
                severity: Severity::Warning,
                text: "Data source "@ + source + " has left unexpectedly: "@ + err@,
            },
        ],
{
}

/// Ten milliseconds of messages are not too long, and anything beyond is.
pub proof fn ten_milliseconds_are_not_too_long(elapsed_nanos: int)
    ensures
        takes_too_long(elapsed_nanos) <==> elapsed_nanos > 10 * 1000 * 1000,
        takes_too_long(elapsed_nanos) ==> takes_too_long(elapsed_nanos + 1),
{
}

/// What a source points to is gone to in the store that it names; what cannot be parsed is told about
/// and gone to nowhere.
pub proof fn sources_point_into_their_store(
    store_id: StoreId,
    parsed: Result<Fragment, String>,
    source: Seq<char>,
)
    ensures
        match parsed {
            Ok(fragment) => pointed_to_effect(store_id, parsed, source) matches EffectOf::SendSystem(
                SystemCommandOf::SetUrlFragment { store_id: there, fragment: gone_to },
            ) && there == store_id && gone_to == fragment,
            Err(_) => pointed_to_effect(store_id, parsed, source) matches EffectOf::Report {
                severity,
                ..
            } && severity == Severity::Warning,
        },
{
}

/// The user is warned, once, if and only if some archetype needs a map view and there are none.
pub proof fn users_are_warned_of_missing_map_views(
    archetypes: Seq<Vec<String>>,
    has_map_view: bool,
)
    ensures
        has_map_view ==> validation_effects(archetypes, has_map_view).len() == 0,
        !needs_map_view(archetypes) ==> validation_effects(archetypes, has_map_view).len() == 0,
        !has_map_view && needs_map_view(archetypes) ==> validation_effects(
            archetypes,
            has_map_view,
        ).len() == 1 && validation_effects(archetypes, has_map_view)[0] is ReportOnce,
{
}

/// What is told of a blueprint that could not be set.
pub open spec fn unset_blueprint_text(make_active: bool, err: Seq<char>) -> Seq<char> {
    if make_active {
        "Failed to make blueprint active: "@ + err
    } else {
        "Failed to make blueprint default: "@ + err
    }
}

/// What is told when old data has to go.
pub open spec fn memory_limit_text(limit: Option<String>) -> Seq<char> {
    "Reached memory limit of "@ + (match limit {
        Some(limit) => limit@,
        None => "\u{221e}"@,
    }) + ", dropping oldest data."@
}

/// What could not be done with a blueprint is told with its reason, and where old data is dropped the
/// limit is told; no limit is infinity.
pub proof fn limits_and_reasons_are_told(err: Seq<char>, limit: String)
    ensures
        unset_blueprint_text(true, err) == "Failed to make blueprint active: "@ + err,
        unset_blueprint_text(false, err) == "Failed to make blueprint default: "@ + err,
        memory_limit_text(Some(limit)) == "Reached memory limit of "@ + limit@
            + ", dropping oldest data."@,
        memory_limit_text(None) == "Reached memory limit of "@ + "\u{221e}"@
            + ", dropping oldest data."@,
{
}

} // verus!
