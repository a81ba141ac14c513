//! Time controls: what they are told, and what follows from their answers.
use crate::app::App;
use crate::app::AppModel;
use crate::commands;
use crate::commands::Effect;
use crate::commands::EffectOf;
use crate::commands::EffectView;
use crate::commands::SystemCommandOf;
use crate::types;
use crate::types::DataPath;
use crate::types::Fragment;
use crate::types::Item;
use crate::types::ItemCollection;
use crate::types::LogReceiver;
use crate::types::LogSource;
use crate::types::LoopMode;
use crate::types::PlayState;
use crate::types::StoreId;
use crate::types::TimeControlCommand;
use crate::types::TimeControlResponse;
use crate::types::TimeTarget;
use vstd::prelude::*;

verus! {

/// The events that the host of the viewer is told after the time control of a recording changed.
pub open spec fn time_events(store_id: StoreId, response: TimeControlResponse) -> Seq<EffectView> {
    let playing = match response.playing_change {
        Some(playing) => seq![EffectOf::EmitPlayStateChange(store_id, playing)],
        None => Seq::<EffectView>::empty(),
    };
    let timeline = match response.timeline_change {
        Some((timeline, time)) => seq![EffectOf::EmitTimelineChange(store_id, timeline, time)],
        None => Seq::<EffectView>::empty(),
    };
    let time = match response.time_change {
        Some(time) => seq![EffectOf::EmitTimeUpdate(store_id, time)],
        None => Seq::<EffectView>::empty(),
    };
    playing + timeline + time
}

/// Tells the host of the viewer what changed in the time control of a recording, if it listens.
pub fn handle_time_ctrl_event(
    store_id: &StoreId,
    host_listens: bool,
    response: TimeControlResponse,
) -> (res: Vec<Effect>)
    ensures
        commands::viewed(res@) == told_events(host_listens, *store_id, response),
{
    let mut effects = commands::nothing();
    if !host_listens {
        return effects;
    }
    if let Some(playing) = response.playing_change {
        commands::put(&mut effects, EffectOf::EmitPlayStateChange(store_id.clone(), playing));
    }
    if let Some((timeline, time)) = response.timeline_change {
        commands::put(
            &mut effects,
            EffectOf::EmitTimelineChange(store_id.clone(), timeline, time),
        );
    }
    if let Some(time) = response.time_change {
        commands::put(&mut effects, EffectOf::EmitTimeUpdate(store_id.clone(), time));
    }
    assert(commands::viewed(effects@) =~= time_events(*store_id, response));
    effects
}

/// What follows from the answer of a recording's time control.
pub open spec fn response_effects(
    store_id: StoreId,
    host_listens: bool,
    response: TimeControlResponse,
) -> Seq<EffectView> {
    let repaint = if response.needs_repaint {
        seq![EffectOf::RequestRepaint]
    } else {
        Seq::<EffectView>::empty()
    };
    let events = if host_listens {
        time_events(store_id, response)
    } else {
        Seq::<EffectView>::empty()
    };
    repaint + events
}

/// Repaints if the time control of a recording asks for it, and tells the host what changed.
pub fn on_time_control_response(
    store_id: &StoreId,
    host_listens: bool,
    response: TimeControlResponse,
) -> (res: Vec<Effect>)
    ensures
        commands::viewed(res@) == response_effects(*store_id, host_listens, response),
{
    let mut effects = commands::nothing();
    if response.needs_repaint {
        commands::put(&mut effects, EffectOf::RequestRepaint);
    }
    let events = handle_time_ctrl_event(store_id, host_listens, response);
    commands::put_all(&mut effects, events);
    assert(commands::viewed(effects@) =~= response_effects(*store_id, host_listens, response));
    effects
}

/// The recording that an event of a time control is about.
pub open spec fn changed_recording(effect: EffectView) -> Option<StoreId> {
    match effect {
        EffectOf::EmitPlayStateChange(store_id, _) => Some(store_id),
        EffectOf::EmitTimelineChange(store_id, _, _) => Some(store_id),
        EffectOf::EmitTimeUpdate(store_id, _) => Some(store_id),
        _ => None,
    }
}

/// Every event names the recording whose time control changed, and none of them hides another.
pub proof fn events_name_their_recording(store_id: StoreId, response: TimeControlResponse, i: int)
    ensures
        0 <= i < time_events(store_id, response).len() ==> changed_recording(
            time_events(store_id, response)[i],
        ) == Some(store_id),
        time_events(store_id, response).len() == (if response.playing_change is Some {
            1int
        } else {
            0
        }) + (if response.timeline_change is Some {
            1int
        } else {
            0
        }) + (if response.time_change is Some {
            1int
        } else {
            0
        }),
{
}

/// Repaints if the time control of the blueprint asks for it. The host is not told about it.
pub fn on_blueprint_time_control_response(response: TimeControlResponse) -> (res: Vec<Effect>)
    ensures
        commands::viewed(res@) == repaint_effects(response.needs_repaint),
{
    if response.needs_repaint {
        commands::just(EffectOf::RequestRepaint)
    } else {
        commands::nothing()
    }
}

/// What a data path selects: a component before an instance before the whole entity.
pub open spec fn item_of(path: DataPath) -> Item {
    match (path.component, path.instance) {
        (Some(component), _) => Item::Component { entity_path: path.entity_path, component },
        (None, Some(instance)) => Item::Instance { entity_path: path.entity_path, instance },
        (None, None) => Item::Entity { entity_path: path.entity_path },
    }
}

/// What a fragment tells the time control.
pub open spec fn fragment_time_commands(fragment: Fragment) -> Seq<TimeControlCommand> {
    let selection = match fragment.time_selection {
        Some(selection) => seq![
            TimeControlCommand::SetActiveTimeline(selection.timeline),
            TimeControlCommand::SetTimeSelection(selection.range),
            TimeControlCommand::SetLoopMode(LoopMode::Selection),
        ],
        None => Seq::<TimeControlCommand>::empty(),
    };
    let when = match fragment.when {
        Some(cursor) => seq![
            TimeControlCommand::SetActiveTimeline(cursor.timeline),
            TimeControlCommand::SetPlayState(PlayState::Paused),
            TimeControlCommand::SetTime(TimeTarget::Int(cursor.time)),
        ],
        None => Seq::<TimeControlCommand>::empty(),
    };
    selection + when
}

/// The effects of applying a fragment to a store.
pub open spec fn fragment_effects(store_id: StoreId, fragment: Fragment) -> Seq<EffectView> {
    let selection = match fragment.selection {
        Some(path) => seq![commands::selection_sent(item_of(path))],
        None => Seq::<EffectView>::empty(),
    };
    let time_commands = fragment_time_commands(fragment);
    if time_commands.len() == 0 {
        selection
    } else {
        selection.push(commands::background_time_commands_sent(store_id, time_commands))
    }
}

/// Applies a fragment. Does not switch the active recording, neither now nor when the commands that
/// it queues are run.
pub fn go_to_dataset_data(store_id: StoreId, fragment: Fragment) -> (res: Vec<Effect>)
    ensures
        commands::viewed(res@) == fragment_effects(store_id, fragment),
{
    let ghost all = fragment;
    let mut effects = commands::nothing();
    if let Some(path) = fragment.selection {
        let item = if let Some(component) = path.component {
            Item::Component { entity_path: path.entity_path, component }
        } else if let Some(instance) = path.instance {
            Item::Instance { entity_path: path.entity_path, instance }
        } else {
            Item::Entity { entity_path: path.entity_path }
        };
        commands::put(&mut effects, commands::send_selection(item));
    }
    let mut time_commands: Vec<TimeControlCommand> = Vec::new();
    if let Some(selection) = fragment.time_selection {
        time_commands.push(TimeControlCommand::SetActiveTimeline(selection.timeline));
        time_commands.push(TimeControlCommand::SetTimeSelection(selection.range));
        time_commands.push(TimeControlCommand::SetLoopMode(LoopMode::Selection));
    }
    if let Some(cursor) = fragment.when {
        time_commands.push(TimeControlCommand::SetActiveTimeline(cursor.timeline));
        time_commands.push(TimeControlCommand::SetPlayState(PlayState::Paused));
        time_commands.push(TimeControlCommand::SetTime(TimeTarget::Int(cursor.time)));
    }
    assert(time_commands@ =~= fragment_time_commands(all));
    if time_commands.len() > 0 {
        commands::put(
            &mut effects,
            commands::send_background_time_commands(store_id, time_commands),
        );
    }
    assert(commands::viewed(effects@) =~= fragment_effects(store_id, all));
    effects
}

/// What the blueprint inspector's time control is told after an undo or a redo: to go to the time
/// that can be redone from, or to follow if nothing can be redone.
pub open spec fn inspector_commands(redo_time: Option<i64>) -> Seq<TimeControlCommand> {
    match redo_time {
        Some(time) => seq![
            TimeControlCommand::SetPlayState(PlayState::Paused),
            TimeControlCommand::SetTime(TimeTarget::Int(time)),
        ],
        None => seq![TimeControlCommand::SetPlayState(PlayState::Following)],
    }
}

/// Has the blueprint inspector, if it is open, show where an undo or a redo has led to.
pub fn on_undo_or_redo(inspects: bool, blueprint_id: StoreId, redo_time: Option<i64>) -> (res: Vec<
    Effect,
>)
    ensures
        commands::viewed(res@) == inspector_effects(inspects, blueprint_id, redo_time),
{
    if !inspects {
        return commands::nothing();
    }
    let mut time_commands: Vec<TimeControlCommand> = Vec::new();
    match redo_time {
        Some(time) => {
            time_commands.push(TimeControlCommand::SetPlayState(PlayState::Paused));
            time_commands.push(TimeControlCommand::SetTime(TimeTarget::Int(time)));
        },
        None => {
            time_commands.push(TimeControlCommand::SetPlayState(PlayState::Following));
        },
    }
    assert(time_commands@ =~= inspector_commands(redo_time));
    commands::just(commands::send_time_commands(blueprint_id, time_commands))
}

/// From when the blueprint is read.
#[derive(Clone, Copy, Debug, PartialEq, Eq, Structural)]
pub enum BlueprintQuery {
    At(i64),
    Latest,
}

/// The blueprints of the application of a recording, and when they are read.
#[derive(Debug, PartialEq, Eq)]
pub struct BlueprintContext {
    pub current_blueprint: StoreId,
    pub default_blueprint: Option<StoreId>,
    pub blueprint_query: BlueprintQuery,
}

/// The context of an application's blueprints. The latest state is read unless another time was
/// asked for.
pub open spec fn context_of(
    active_blueprint: Option<StoreId>,
    default_blueprint: Option<StoreId>,
    query: Option<i64>,
) -> Option<BlueprintContext> {
    match active_blueprint {
        Some(current_blueprint) => Some(
            BlueprintContext {
                current_blueprint,
                default_blueprint,
                blueprint_query: match query {
                    Some(time) => BlueprintQuery::At(time),
                    None => BlueprintQuery::Latest,
                },
            },
        ),
        None => None,
    }
}

impl App {
    /// The context of the blueprints of a recording's application, if it has an active one.
    pub fn blueprint_ctx(
        &self,
        active_blueprint: Option<StoreId>,
        default_blueprint: Option<StoreId>,
        query: Option<i64>,
    ) -> (res: Option<BlueprintContext>)
        ensures
            res == context_of(active_blueprint, default_blueprint, query),
    {
        match active_blueprint {
            Some(current_blueprint) => Some(
                BlueprintContext {
                    current_blueprint,
                    default_blueprint,
                    blueprint_query: match query {
                        Some(time) => BlueprintQuery::At(time),
                        None => BlueprintQuery::Latest,
                    },
                },
            ),
            None => None,
        }
    }
}

/// One of the receivers still listens to the source.
pub open spec fn listens_to(receivers: Seq<LogReceiver>, source: LogSource) -> bool {
    exists|i: int|
        0 <= i < receivers.len() && types::same_source(#[trigger] receivers[i].source, source)
}

/// Whether one of the receivers still listens to the source.
pub fn is_listening(receivers: &Vec<LogReceiver>, source: &LogSource) -> (res: bool)
    ensures
        res == listens_to(receivers@, *source),
{
    let mut i: usize = 0;
    while i < receivers.len()
        invariant
            i <= receivers@.len(),
            forall|k: int|
                0 <= k < i ==> !types::same_source(#[trigger] receivers@[k].source, *source),
        decreases receivers@.len() - i,
    {
        if receivers[i].source.same_as(source) {
            assert(types::same_source(receivers@[i as int].source, *source));
            return true;
        }
        i = i + 1;
    }
    false
}

/// What a time control is told when it is updated.
#[derive(Clone, Copy, Debug, PartialEq, Eq, Structural)]
pub struct ControlUpdate {
    pub more_data_is_coming: bool,
    /// Whether it answers what has changed.
    pub should_diff_state: bool,
    /// Whether it is given the blueprint context.
    pub has_context: bool,
}

/// The update of the time control of a recording.
#[derive(Debug, PartialEq, Eq)]
pub struct RecordingUpdate {
    pub store_id: StoreId,
    pub control: ControlUpdate,
}

/// What is done to let time go on: update the time control of the active recording, if there is
/// one, and that of the blueprint, if it is inspected.
#[derive(Debug, PartialEq, Eq)]
pub struct TimeUpdate {
    pub context: BlueprintContext,
    pub recording: Option<RecordingUpdate>,
    pub blueprint: Option<ControlUpdate>,
}

/// The active recording, and where it came from.
#[derive(Debug, PartialEq, Eq)]
pub struct ActiveRecording {
    pub store_id: StoreId,
    pub data_source: Option<LogSource>,
}

/// More data is coming as long as the connection to the recording's source is there.
pub open spec fn expects_more(receivers: Seq<LogReceiver>, recording: ActiveRecording) -> bool {
    match recording.data_source {
        Some(source) => listens_to(receivers, source),
        None => false,
    }
}

/// How time goes on: not at all without a blueprint for the active application.
pub open spec fn time_update(
    app: AppModel,
    context: Option<BlueprintContext>,
    recording: Option<ActiveRecording>,
) -> Option<TimeUpdate> {
    match context {
        Some(context) => Some(
            TimeUpdate {
                context,
                recording: match recording {
                    Some(recording) => Some(
                        RecordingUpdate {
                            store_id: recording.store_id,
                            control: ControlUpdate {
                                more_data_is_coming: expects_more(app.rx_log, recording),
                                should_diff_state: true,
                                has_context: true,
                            },
                        },
                    ),
                    None => None,
                },
                blueprint: if app.state.app_options.inspect_blueprint_timeline {
                    Some(
                        ControlUpdate {
                            more_data_is_coming: true,
                            should_diff_state: false,
                            has_context: false,
                        },
                    )
                } else {
                    None
                },
            },
        ),
        None => None,
    }
}

impl App {
    /// How time goes on: not at all without a blueprint for the active application. The time
    /// control of the recording answers what has changed, for those who listen. Nobody listens to
    /// that of the blueprint, which always waits for more.
    pub fn move_time(
        &self,
        context: Option<BlueprintContext>,
        recording: Option<ActiveRecording>,
    ) -> (res: Option<TimeUpdate>)
        ensures
            res == time_update(self@, context, recording),
    {
        let context = match context {
            Some(context) => context,
            None => {
                return None;
            },
        };
        let recording = match recording {
            Some(recording) => {
                let more_data_is_coming = match &recording.data_source {
                    Some(source) => is_listening(&self.rx_log, source),
                    None => false,
                };
                let control = ControlUpdate {
                    more_data_is_coming,
                    should_diff_state: true,
                    has_context: true,
                };
                Some(RecordingUpdate { store_id: recording.store_id, control })
            },
            None => None,
        };
        let blueprint = if self.state.app_options.inspect_blueprint_timeline {
            Some(
                ControlUpdate {
                    more_data_is_coming: true,
                    should_diff_state: false,
                    has_context: false,
                },
            )
        } else {
            None
        };
        Some(TimeUpdate { context, recording, blueprint })
    }
}

/// What a change of the inspected blueprint's time does to what can be redone.
#[derive(Clone, Copy, Debug, PartialEq, Eq, Structural)]
pub enum RedoChange {
    RedoAll,
    SetRedoTime(i64),
    Nothing,
}

/// What the inspected blueprint's time control does to what can be redone.
pub open spec fn redo_follows(play_state: PlayState, time: Option<i64>) -> RedoChange {
    match (play_state, time) {
        (PlayState::Following, _) => RedoChange::RedoAll,
        (_, Some(time)) => RedoChange::SetRedoTime(time),
        (_, None) => RedoChange::Nothing,
    }
}

/// Keeps what can be redone in step with the inspected blueprint's time control.
pub fn redo_change(play_state: PlayState, time: Option<i64>) -> (res: RedoChange)
    ensures
        res == redo_follows(play_state, time),
{
    match (play_state, time) {
        (PlayState::Following, _) => RedoChange::RedoAll,
        (_, Some(time)) => RedoChange::SetRedoTime(time),
        (_, None) => RedoChange::Nothing,
    }
}

/// The time that the commands lead to, if they lead to one.
pub open spec fn redo_time_shown(commands: Seq<TimeControlCommand>) -> Option<i64> {
    match commands.last() {
        TimeControlCommand::SetTime(TimeTarget::Int(time)) => Some(time),
        _ => None,
    }
}

/// The inspector shows the very time that can be redone from.
pub proof fn the_inspector_shows_the_redo_time(redo_time: Option<i64>)
    ensures
        redo_time_shown(inspector_commands(redo_time)) == redo_time,
        redo_time is Some ==> inspector_commands(redo_time)[0] == TimeControlCommand::SetPlayState(
            PlayState::Paused,
        ),
        redo_time is None ==> inspector_commands(redo_time)[0] == TimeControlCommand::SetPlayState(
            PlayState::Following,
        ),
{
}

/// All that a fragment brings about is queued.
pub proof fn fragments_only_queue(store_id: StoreId, fragment: Fragment, i: int)
    requires
        0 <= i < fragment_effects(store_id, fragment).len(),
    ensures
        fragment_effects(store_id, fragment)[i] is SendSystem,
{
}

/// A fragment leads to what it names. It selects what its path names: the component if there is one,
/// or else the instance, or else the entity. Then it tells the time control of the store, and of no
/// other one, first to loop over the time selection and then to pause at the time, each on its own
/// timeline. What it does not name stays as it is.
pub proof fn fragments_lead_to_what_they_name(store_id: StoreId, fragment: Fragment)
    ensures
        ({
            let effects = fragment_effects(store_id, fragment);
            let tells = fragment.when is Some || fragment.time_selection is Some;
            let n = if fragment.selection is Some {
                1int
            } else {
                0
            };
            &&& effects.len() == n + if tells {
                1int
            } else {
                0
            }
            &&& fragment.selection matches Some(path) ==> effects[0] == EffectView::SendSystem(
                SystemCommandOf::SetSelection(
                    ItemCollection::One(
                        if path.component is Some {
                            Item::Component {
                                entity_path: path.entity_path,
                                component: path.component->0,
                            }
                        } else if path.instance is Some {
                            Item::Instance {
                                entity_path: path.entity_path,
                                instance: path.instance->0,
                            }
                        } else {
                            Item::Entity { entity_path: path.entity_path }
                        },
                    ),
                ),
            )
            &&& tells ==> (effects[n] matches EffectOf::SendSystem(
                SystemCommandOf::BackgroundTimeControlCommands { store_id: told, time_commands },
            ) && {
                let m = if fragment.time_selection is Some {
                    3int
                } else {
                    0
                };
                &&& told == store_id
                &&& time_commands.len() == m + if fragment.when is Some {
                    3int
                } else {
                    0
                }
                &&& fragment.time_selection matches Some(selection) ==> {
                    &&& time_commands[0] == TimeControlCommand::SetActiveTimeline(
                        selection.timeline,
                    )
                    &&& time_commands[1] == TimeControlCommand::SetTimeSelection(selection.range)
                    &&& time_commands[2] == TimeControlCommand::SetLoopMode(LoopMode::Selection)
                }
                &&& fragment.when matches Some(cursor) ==> {
                    &&& time_commands[m] == TimeControlCommand::SetActiveTimeline(cursor.timeline)
                    &&& time_commands[m + 1] == TimeControlCommand::SetPlayState(
                        PlayState::Paused,
                    )
                    &&& time_commands[m + 2] == TimeControlCommand::SetTime(
                        TimeTarget::Int(cursor.time),
                    )
                }
            })
        }),
{
}

/// Whoever listens is told each change, with its value, and nothing that did not change: first about
/// playing, then about the timeline, then about the time. The window is repainted before that if and
/// only if that is asked for. Those who do not listen are told nothing.
pub proof fn listeners_are_told_every_change(
    store_id: StoreId,
    host_listens: bool,
    response: TimeControlResponse,
)
    ensures
        ({
            let effects = response_effects(store_id, host_listens, response);
            let n = if response.needs_repaint {
                1int
            } else {
                0
            };
            let playing = n + if response.playing_change is Some {
                1int
            } else {
                0
            };
            let timeline = playing + if response.timeline_change is Some {
                1int
            } else {
                0
            };
            let time = timeline + if response.time_change is Some {
                1int
            } else {
                0
            };
            &&& response.needs_repaint ==> effects[0] == EffectView::RequestRepaint
            &&& effects.len() == if host_listens {
                time
            } else {
                n
            }
            &&& host_listens ==> {
                &&& response.playing_change matches Some(on) ==> effects[n]
                    == EffectView::EmitPlayStateChange(store_id, on)
                &&& response.timeline_change matches Some((name, at)) ==> effects[playing]
                    == EffectView::EmitTimelineChange(store_id, name, at)
                &&& response.time_change matches Some(at) ==> effects[timeline]
                    == EffectView::EmitTimeUpdate(store_id, at)
            }
        }),
{
}

/// More data is expected of a recording as long as one of the receivers listens to its source.
pub proof fn more_is_expected_while_connected(
    receivers: Seq<LogReceiver>,
    rx: LogReceiver,
    recording: ActiveRecording,
)
    ensures
        !expects_more(Seq::<LogReceiver>::empty(), recording),
        recording.data_source is None ==> !expects_more(receivers, recording),
        recording.data_source matches Some(source) ==> (expects_more(receivers.push(rx), recording)
            <==> expects_more(receivers, recording) || types::same_source(rx.source, source)),
{
    if let Some(source) = recording.data_source {
        let all = receivers.push(rx);
        let n = receivers.len() as int;
        if expects_more(receivers, recording) {
            let i = choose|i: int|
                0 <= i < receivers.len() && types::same_source(
                    #[trigger] receivers[i].source,
                    source,
                );
            assert(types::same_source(all[i].source, source));
        }
        if types::same_source(rx.source, source) {
            assert(types::same_source(all[n].source, source));
        }
        if expects_more(all, recording) {
            let i = choose|i: int|
                0 <= i < all.len() && types::same_source(#[trigger] all[i].source, source);
            if i < n {
                assert(types::same_source(receivers[i].source, source));
            }
        }
    }
}

/// The blueprint is read at the time that was asked for, and at the latest one if none was. There is
/// a context if and only if there is an active blueprint.
pub proof fn blueprints_are_read_when_asked(
    active_blueprint: Option<StoreId>,
    default_blueprint: Option<StoreId>,
    query: Option<i64>,
)
    ensures
        context_of(active_blueprint, default_blueprint, query) is Some <==> active_blueprint is Some,
        context_of(active_blueprint, default_blueprint, query) matches Some(context) ==> {
            &&& Some(context.current_blueprint) == active_blueprint
            &&& context.default_blueprint == default_blueprint
            &&& query matches Some(time) ==> context.blueprint_query == BlueprintQuery::At(time)
            &&& query is None ==> context.blueprint_query == BlueprintQuery::Latest
        },
{
}

/// While the inspected blueprint is followed, all can be redone; once it shows another time, that is
/// where redoing starts. Without a time nothing changes.
pub proof fn redoing_follows_the_inspector(play_state: PlayState, time: i64)
    ensures
        redo_follows(PlayState::Following, None) == RedoChange::RedoAll,
        redo_follows(PlayState::Following, Some(time)) == RedoChange::RedoAll,
        play_state != PlayState::Following ==> redo_follows(play_state, Some(time))
            == RedoChange::SetRedoTime(time),
        play_state != PlayState::Following ==> redo_follows(play_state, None)
            == RedoChange::Nothing,
{
}

/// Time goes on for the active recording whenever there is one, and for the blueprint whenever it is
/// inspected, on every platform and whatever else is shown; but not without a blueprint. Only the
/// recording tells what changed, and only it can come to the end of its data.
pub proof fn time_goes_on_for_what_is_active(
    app: AppModel,
    context: BlueprintContext,
    recording: Option<ActiveRecording>,
)
    ensures
        time_update(app, None, recording) is None,
        time_update(app, Some(context), recording) matches Some(update) && {
            &&& update.context == context
            &&& update.recording is Some <==> recording is Some
            &&& update.blueprint is Some <==> app.state.app_options.inspect_blueprint_timeline
            &&& update.blueprint matches Some(control) ==> control.more_data_is_coming
                && !control.should_diff_state && !control.has_context
            &&& recording matches Some(active) ==> (update.recording matches Some(told) && {
                &&& told.store_id == active.store_id
                &&& told.control.should_diff_state
                &&& told.control.has_context
                &&& told.control.more_data_is_coming <==> (active.data_source matches Some(source)
                    && exists|i: int|
                    0 <= i < app.rx_log.len() && types::same_source(
                        #[trigger] app.rx_log[i].source,
                        source,
                    ))
            })
        },
{
}

/// The events that somebody who listens is told.
pub open spec fn told_events(host_listens: bool, store_id: StoreId, response: TimeControlResponse) -> Seq<
    EffectView,
> {
    if host_listens {
        time_events(store_id, response)
    } else {
        Seq::<EffectView>::empty()
    }
}

/// The window is painted again if that is needed.
pub open spec fn repaint_effects(needs_repaint: bool) -> Seq<EffectView> {
    if needs_repaint {
        seq![EffectOf::RequestRepaint]
    } else {
        Seq::<EffectView>::empty()
    }
}

/// What the inspector of a blueprint is told when an edit is undone or redone.
pub open spec fn inspector_effects(
    inspects: bool,
    blueprint_id: StoreId,
    redo_time: Option<i64>,
) -> Seq<EffectView> {
    if inspects {
        seq![commands::time_commands_sent(blueprint_id, inspector_commands(redo_time))]
    } else {
        Seq::<EffectView>::empty()
    }
}

/// The inspector, if it is open, goes to where redoing starts, on the blueprint's own timeline, and
/// follows the blueprint once there is nothing to redo. A closed one is told nothing.
pub proof fn the_inspector_shows_what_was_undone(blueprint_id: StoreId, redo_time: Option<i64>)
    ensures
        inspector_effects(false, blueprint_id, redo_time).len() == 0,
        inspector_effects(true, blueprint_id, redo_time).len() == 1,
        inspector_effects(true, blueprint_id, redo_time)[0] matches EffectOf::SendSystem(
            SystemCommandOf::TimeControlCommands { store_id, time_commands },
        ) && store_id == blueprint_id && match redo_time {
            Some(time) => time_commands.contains(TimeControlCommand::SetTime(TimeTarget::Int(time)))
                && !time_commands.contains(TimeControlCommand::SetPlayState(PlayState::Following)),
            None => time_commands == seq![TimeControlCommand::SetPlayState(PlayState::Following)],
        },
        repaint_effects(true) == seq![EffectView::RequestRepaint],
        repaint_effects(false).len() == 0,
{
    if let Some(time) = redo_time {
        assert(inspector_commands(redo_time).contains(TimeControlCommand::SetTime(TimeTarget::Int(time))));
    }
}

/// Nobody is told of events who does not listen.
pub proof fn only_listeners_are_told(store_id: StoreId, response: TimeControlResponse)
    ensures
        told_events(false, store_id, response).len() == 0,
        told_events(true, store_id, response) == time_events(store_id, response),
{
}

/// There is no context without an active blueprint, whatever the default one is.
pub proof fn contexts_need_an_active_blueprint(
    blueprint_id: StoreId,
    default_blueprint: Option<StoreId>,
    query: Option<i64>,
)
    ensures
        context_of(None, default_blueprint, query) is None,
        context_of(Some(blueprint_id), default_blueprint, query) matches Some(context)
            && context.current_blueprint == blueprint_id && context.default_blueprint
            == default_blueprint,
{
}

/// The window is painted again, before anybody is told, if and only if the time control asks for it.
pub proof fn time_controls_get_their_repaint(
    store_id: StoreId,
    host_listens: bool,
    response: TimeControlResponse,
)
    ensures
        response.needs_repaint ==> response_effects(store_id, host_listens, response) == seq![
            EffectView::RequestRepaint,
        ] + told_events(host_listens, store_id, response),
        !response.needs_repaint ==> response_effects(store_id, host_listens, response)
            == told_events(host_listens, store_id, response),
{
}

} // verus!
