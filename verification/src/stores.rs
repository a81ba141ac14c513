//! Which store is shown, and how data gets into the stores.
use crate::analytics;
use crate::analytics::AnalyticsEvent;
use crate::analytics::DataSourceAnalytics;
use crate::app;
use crate::app::App;
use crate::app::AppModel;
use crate::commands;
use crate::commands::Effect;
use crate::commands::EffectOf;
use crate::commands::EffectView;
use crate::commands::Severity;
use crate::commands::SystemCommandOf;
use crate::sources;
use crate::time;
use crate::types::Item;
use crate::types::ItemCollection;
use crate::types::LogDataSource;
use crate::types::LogReceiver;
use crate::types::PlayState;
use crate::types::StoreId;
use crate::types::StoreKind;
use crate::types::TimeControlCommand;
use vstd::prelude::*;
use vstd::string::*;

verus! {

/// The effects of making a store the active recording: it is selected, and the user's attention is
/// asked for. A blueprint cannot be the active recording.
pub open spec fn activation_effects(store_id: StoreId) -> Seq<EffectView> {
    if store_id.kind == StoreKind::Blueprint {
        seq![
            EffectOf::ReportStore {
                severity: Severity::Warning,
                before: "Can't make a blueprint active: "@,
                store_id,
                after: ". This is likely a bug in Rerun."@,
            },
        ]
    } else {
        seq![
            EffectOf::SetActiveRecording(store_id),
            commands::selection_sent(Item::StoreId(store_id)),
            EffectOf::RequestUserAttention,
        ]
    }
}

/// Makes the given store active, and asks for the user's attention if the viewer is in the
/// background.
pub fn make_store_active_and_highlight(store_id: &StoreId) -> (res: Vec<Effect>)
    ensures
        commands::viewed(res@) == activation_effects(*store_id),
{
    if store_id.is_blueprint() {
        return commands::just(
            EffectOf::ReportStore {
                severity: Severity::Warning,
                before: "Can't make a blueprint active: ".to_owned(),
                store_id: store_id.clone(),
                after: ". This is likely a bug in Rerun.".to_owned(),
            },
        );
    }
    commands::three(
        EffectOf::SetActiveRecording(store_id.clone()),
        commands::send_selection(Item::StoreId(store_id.clone())),
        EffectOf::RequestUserAttention,
    )
}

/// The effects of making a recording active that was found for a data source, if one was.
pub open spec fn found_effects(found: Option<StoreId>) -> Seq<EffectView> {
    match found {
        Some(store_id) => activation_effects(store_id),
        None => Seq::empty(),
    }
}

/// Makes the recording active that was found for a data source, if one was.
pub fn try_make_recording_from_source_active(found: &Option<StoreId>) -> (res: Vec<Effect>)
    ensures
        commands::viewed(res@) == found_effects(*found),
{
    match found {
        Some(store_id) => make_store_active_and_highlight(store_id),
        None => commands::nothing(),
    }
}

/// The effects of being asked for data that is there already.
pub open spec fn present_effects(data_source: LogDataSource, found: Option<StoreId>) -> Seq<
    EffectView,
> {
    match data_source {
        LogDataSource::RrdHttpUrl { follow, .. } => match found {
            Some(store_id) => {
                let following = if follow {
                    seq![
                        commands::time_commands_sent(
                            store_id,
                            seq![TimeControlCommand::SetPlayState(PlayState::Following)],
                        ),
                    ]
                } else {
                    Seq::<EffectView>::empty()
                };
                following + activation_effects(store_id)
            },
            None => Seq::empty(),
        },
        LogDataSource::RedapDatasetSegment { uri, select_when_loaded } => {
            let activation = if select_when_loaded {
                activation_effects(uri.store_id)
            } else {
                Seq::<EffectView>::empty()
            };
            activation + time::fragment_effects(uri.store_id, uri.fragment)
        },
        _ => found_effects(found),
    }
}

/// The effects of being asked for data: what is there already is shown, and the rest is opened.
/// `present` says whether the source is among those that are loading or loaded, and `found` is
/// the recording that came from it.
pub open spec fn load_effects(
    data_source: LogDataSource,
    present: bool,
    found: Option<StoreId>,
) -> Seq<EffectView> {
    if present && sources::source_of(data_source) is Some {
        present_effects(data_source, found)
    } else {
        seq![EffectOf::OpenStream(data_source)]
    }
}

/// Loads data into the viewer. What is there already, loading or loaded, is not loaded again: the
/// viewer then only switches to it as loading it would have.
pub fn load_data_source(
    data_source: LogDataSource,
    present: bool,
    found: Option<StoreId>,
) -> (res: Vec<Effect>)
    ensures
        commands::viewed(res@) == load_effects(data_source, present, found),
{
    if !present {
        return commands::just(EffectOf::OpenStream(data_source));
    }
    match data_source {
        LogDataSource::RrdHttpUrl { url: _, follow } => match &found {
            Some(store_id) => {
                let mut effects = commands::nothing();
                if follow {
                    commands::put(
                        &mut effects,
                        commands::send_time_commands(
                            store_id.clone(),
                            commands::one_time_command(
                                TimeControlCommand::SetPlayState(PlayState::Following),
                            ),
                        ),
                    );
                }
                commands::put_all(&mut effects, make_store_active_and_highlight(store_id));
                assert(commands::viewed(effects@) =~= load_effects(data_source, present, found));
                effects
            },
            None => commands::nothing(),
        },
        LogDataSource::FileContents(file_source, contents) => commands::just(
            EffectOf::OpenStream(LogDataSource::FileContents(file_source, contents)),
        ),
        LogDataSource::RedapDatasetSegment { uri, select_when_loaded } => {
            let mut effects = commands::nothing();
            if select_when_loaded {
                commands::put_all(&mut effects, make_store_active_and_highlight(&uri.store_id));
            }
            commands::put_all(
                &mut effects,
                time::go_to_dataset_data(uri.store_id, uri.fragment),
            );
            assert(commands::viewed(effects@) =~= load_effects(data_source, present, found));
            effects
        },
        LogDataSource::FilePath(_, _) | LogDataSource::Stdin | LogDataSource::RedapProxy(_) => {
            try_make_recording_from_source_active(&found)
        },
    }
}

/// Data whose source is loading or loaded is never opened a second time.
pub proof fn present_data_is_not_loaded_again(
    data_source: LogDataSource,
    found: Option<StoreId>,
    i: int,
)
    requires
        sources::source_of(data_source) is Some,
        0 <= i < load_effects(data_source, true, found).len(),
    ensures
        !(load_effects(data_source, true, found)[i] is OpenStream),
{
}

/// Being asked for data never makes a blueprint the active recording.
pub proof fn loading_never_activates_a_blueprint(
    data_source: LogDataSource,
    present: bool,
    found: Option<StoreId>,
    i: int,
)
    requires
        0 <= i < load_effects(data_source, present, found).len(),
    ensures
        load_effects(data_source, present, found)[i] matches EffectOf::SetActiveRecording(store_id)
            ==> store_id.kind == StoreKind::Recording,
{
}

/// What follows when a data source was opened, or could not be. Both are recorded.
pub open spec fn opened_effects(
    records: bool,
    data_source: DataSourceAnalytics,
    opened: Result<LogReceiver, String>,
) -> Seq<EffectView> {
    let event = AnalyticsEvent::LoadDataSource {
        data_source,
        started_successfully: opened is Ok,
    };
    analytics::recorded(records, event) + match opened {
        Ok(rx) => app::receiver_effects(rx),
        Err(err) => seq![
            commands::reported(Severity::Error, "Failed to open data source: "@ + err@),
        ],
    }
}

impl App {
    /// Listens to a data source that was opened, or tells the user that it could not be.
    pub fn on_stream_opened(
        &mut self,
        data_source: DataSourceAnalytics,
        opened: Result<LogReceiver, String>,
    ) -> (res: Vec<Effect>)
        ensures
            old(self).wf() ==> final(self).wf(),
            final(self)@ == (AppModel {
                rx_log: receivers_after_opening(old(self)@.rx_log, opened),
                ..old(self)@
            }),
            commands::viewed(res@) == opened_effects(
                old(self)@.build_info.analytics,
                data_source,
                opened,
            ),
    {
        let ghost all = opened;
        let mut effects = commands::nothing();
        if self.build_info.analytics {
            let event = AnalyticsEvent::LoadDataSource {
                data_source,
                started_successfully: opened.is_ok(),
            };
            commands::put(&mut effects, EffectOf::Record(event));
        }
        match opened {
            Ok(rx) => {
                let listening = self.add_log_receiver(rx);
                commands::put_all(&mut effects, listening);
            },
            Err(err) => {
                let text = "Failed to open data source: ".to_owned().concat(err.as_str());
                commands::put(&mut effects, commands::report(Severity::Error, text));
            },
        }
        assert(commands::viewed(effects@) =~= opened_effects(
            old(self)@.build_info.analytics,
            data_source,
            all,
        ));
        effects
    }
}

/// A recording that is made active is then selected, and the user is told to look. A blueprint is
/// not made active; the user is warned, with its id.
pub proof fn recordings_are_activated_and_selected(store_id: StoreId)
    ensures
        ({
            let effects = activation_effects(store_id);
            &&& store_id.kind == StoreKind::Recording ==> effects == seq![
                EffectView::SetActiveRecording(store_id),
                EffectOf::SendSystem(
                    SystemCommandOf::SetSelection(ItemCollection::One(Item::StoreId(store_id))),
                ),
                EffectOf::RequestUserAttention,
            ]
            &&& store_id.kind == StoreKind::Blueprint ==> effects.len() == 1 && (
            effects[0] matches EffectOf::ReportStore { severity, store_id: told, .. } && severity
                == Severity::Warning && told == store_id)
        }),
{
}

/// Data that is there already is shown: the recording that came from it becomes active, whatever
/// kind of source it has. A dataset becomes active only if its data is to be selected, and the viewer
/// goes to what its address points to in any case. An HTTP stream is followed if that is wanted.
pub proof fn present_data_is_shown(
    data_source: LogDataSource,
    found: Option<StoreId>,
    store_id: StoreId,
)
    requires
        sources::source_of(data_source) is Some,
        store_id.kind == StoreKind::Recording,
    ensures
        ({
            let effects = load_effects(data_source, true, found);
            let activated = EffectView::SetActiveRecording(store_id);
            let follows = EffectView::SendSystem(
                SystemCommandOf::TimeControlCommands {
                    store_id,
                    time_commands: seq![TimeControlCommand::SetPlayState(PlayState::Following)],
                },
            );
            match data_source {
                LogDataSource::RedapDatasetSegment { uri, select_when_loaded } => {
                    let fragment = time::fragment_effects(uri.store_id, uri.fragment);
                    &&& effects.contains(activated) <==> select_when_loaded && uri.store_id
                        == store_id
                    &&& fragment.len() <= effects.len()
                    &&& effects.skip(effects.len() - fragment.len()) == fragment
                },
                LogDataSource::RrdHttpUrl { follow, .. } => {
                    &&& effects.contains(activated) <==> found == Some(store_id)
                    &&& effects.contains(follows) <==> follow && found == Some(store_id)
                },
                _ => effects.contains(activated) <==> found == Some(store_id),
            }
        }),
{
    broadcast use {
        vstd::seq_lib::lemma_seq_concat_contains_all_elements,
        vstd::seq_lib::lemma_seq_contains_after_push,
        vstd::seq_lib::lemma_seq_empty_contains_nothing,
    };

    if let LogDataSource::RedapDatasetSegment { uri, select_when_loaded } = data_source {
        let effects = load_effects(data_source, true, found);
        let fragment = time::fragment_effects(uri.store_id, uri.fragment);
        let activated = EffectView::SetActiveRecording(store_id);
        assert(effects.skip(effects.len() - fragment.len()) =~= fragment);
        if fragment.contains(activated) {
            let i = choose|i: int| 0 <= i < fragment.len() && fragment[i] == activated;
            time::fragments_only_queue(uri.store_id, uri.fragment, i);
        }
    }
}

/// Data whose source is not there is opened, as it was asked for, and nothing else happens.
pub proof fn absent_data_is_opened(data_source: LogDataSource, found: Option<StoreId>)
    ensures
        load_effects(data_source, false, found) == seq![EffectView::OpenStream(data_source)],
        data_source is FileContents ==> load_effects(data_source, true, found) == seq![
            EffectView::OpenStream(data_source),
        ],
{
}

/// A data source that was opened is listened to. One that could not be opened is told about as an
/// error, with the reason. Both are recorded first, if anything is.
pub proof fn opened_sources_are_listened_to(
    records: bool,
    data_source: DataSourceAnalytics,
    opened: Result<LogReceiver, String>,
)
    ensures
        ({
            let effects = opened_effects(records, data_source, opened);
            let recorded = EffectView::Record(
                AnalyticsEvent::LoadDataSource { data_source, started_successfully: opened is Ok },
            );
            &&& records ==> effects[0] == recorded
            &&& effects.contains(recorded) <==> records
            &&& match opened {
                Ok(rx) => effects.last() == EffectView::AttachReceiver(rx.handle),
                Err(err) => effects.last() == EffectView::Report {
                    severity: Severity::Error,
                    text: "Failed to open data source: "@ + err@,
                },
            }
        }),
{
    broadcast use {
        vstd::seq_lib::lemma_seq_concat_contains_all_elements,
        vstd::seq_lib::lemma_seq_contains_after_push,
        vstd::seq_lib::lemma_seq_empty_contains_nothing,
    };

}

/// Who is listened to after a source was to be opened.
pub open spec fn receivers_after_opening(
    receivers: Seq<LogReceiver>,
    opened: Result<LogReceiver, String>,
) -> Seq<LogReceiver> {
    match opened {
        Ok(rx) => receivers.push(rx),
        Err(_) => receivers,
    }
}

/// A source that was opened is listened to after all others, and nobody is dropped for it. One that
/// could not be opened changes nothing.
pub proof fn opening_keeps_the_others(
    receivers: Seq<LogReceiver>,
    opened: Result<LogReceiver, String>,
    i: int,
)
    requires
        0 <= i < receivers.len(),
    ensures
        receivers_after_opening(receivers, opened)[i] == receivers[i],
        opened matches Ok(rx) ==> receivers_after_opening(receivers, opened).len()
            == receivers.len() + 1 && receivers_after_opening(receivers, opened).last() == rx,
        opened is Err ==> receivers_after_opening(receivers, opened).len() == receivers.len(),
{
}

} // verus!
