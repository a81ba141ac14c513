//! The connections that messages come in on: which are closed when, and what is expected of them.
use crate::types;
use crate::types::LogDataSource;
use crate::types::LogReceiver;
use crate::types::LogSource;
use vstd::prelude::*;

verus! {

/// The source feeds one recording, and is closed with it. Others, such as the connection to an
/// SDK, may feed in different recordings over time.
pub open spec fn closes_with_recording(source: LogSource) -> bool {
    source is File || source is RrdHttpStream || source is RedapGrpcStream
}

/// The source goes on when all entries are closed.
pub open spec fn survives_closing_all(source: LogSource) -> bool {
    !(source is File) && !(source is RrdHttpStream)
}

/// Data is expected of the source right away.
pub open spec fn sends_soon(source: LogSource) -> bool {
    !(source is MessageProxy)
}

impl LogSource {
    /// Whether the source is closed together with a recording that came from it.
    pub fn is_closed_with_recording(&self) -> (res: bool)
        ensures
            res == closes_with_recording(*self),
    {
        match self {
            LogSource::File(_) => true,
            LogSource::RrdHttpStream { .. } => true,
            LogSource::RedapGrpcStream { .. } => true,
            LogSource::RrdWebEvent
            | LogSource::JsChannel { .. }
            | LogSource::Sdk
            | LogSource::Stdin
            | LogSource::MessageProxy(_) => false,
        }
    }

    fn is_kept_when_closing_all(&self) -> (res: bool)
        ensures
            res == survives_closing_all(*self),
    {
        match self {
            LogSource::File(_) | LogSource::RrdHttpStream { .. } => false,
            LogSource::JsChannel { .. }
            | LogSource::RrdWebEvent
            | LogSource::Sdk
            | LogSource::RedapGrpcStream { .. }
            | LogSource::MessageProxy(_)
            | LogSource::Stdin => true,
        }
    }

    fn is_expected_to_send_soon(&self) -> (res: bool)
        ensures
            res == sends_soon(*self),
    {
        match self {
            LogSource::File(_)
            | LogSource::RrdHttpStream { .. }
            | LogSource::RedapGrpcStream { .. }
            | LogSource::Stdin
            | LogSource::RrdWebEvent
            | LogSource::Sdk
            | LogSource::JsChannel { .. } => true,
            LogSource::MessageProxy(_) => false,
        }
    }
}

/// The receivers that listen to another source, in order.
pub open spec fn others_than(receivers: Seq<LogReceiver>, source: LogSource) -> Seq<LogReceiver> {
    receivers.filter(|rx: LogReceiver| !types::same_source(rx.source, source))
}

/// The receivers that stay when all entries are closed, in order.
pub open spec fn kept_when_closing_all(receivers: Seq<LogReceiver>) -> Seq<LogReceiver> {
    receivers.filter(|rx: LogReceiver| survives_closing_all(rx.source))
}

/// Which receivers are kept.
enum Keep<'a> {
    OthersThan(&'a LogSource),
    SurvivingClosingAll,
}

spec fn keeps(keep: Keep, rx: LogReceiver) -> bool {
    match keep {
        Keep::OthersThan(source) => !types::same_source(rx.source, *source),
        Keep::SurvivingClosingAll => survives_closing_all(rx.source),
    }
}

fn is_kept(keep: &Keep, rx: &LogReceiver) -> (res: bool)
    ensures
        res == keeps(*keep, *rx),
{
    match keep {
        Keep::OthersThan(source) => !rx.source.same_as(source),
        Keep::SurvivingClosingAll => rx.source.is_kept_when_closing_all(),
    }
}

fn retain(receivers: &mut Vec<LogReceiver>, keep: Keep)
    ensures
        final(receivers)@ == old(receivers)@.filter(|rx: LogReceiver| keeps(keep, rx)),
{
    let ghost all = receivers@;
    let ghost kept = |rx: LogReceiver| keeps(keep, rx);
    let ghost mut done: int = 0;
    let mut i: usize = 0;
    proof {
        reveal(Seq::filter);
        assert(all.take(0).filter(kept) =~= Seq::<LogReceiver>::empty());
        assert(receivers@ =~= all.take(0).filter(kept) + all.skip(0));
    }
    while i < receivers.len()
        invariant
            0 <= done <= all.len(),
            kept == (|rx: LogReceiver| keeps(keep, rx)),
            i == all.take(done).filter(kept).len(),
            receivers@ == all.take(done).filter(kept) + all.skip(done),
        decreases all.len() - done,
    {
        let ghost next = all[done];
        let ghost before = all.take(done).filter(kept);
        proof {
            assert(receivers@[i as int] == next);
            assert(all.take(done + 1).drop_last() =~= all.take(done));
            reveal(Seq::filter);
            assert(all.take(done + 1).filter(kept) =~= if keeps(keep, next) {
                before.push(next)
            } else {
                before
            });
        }
        if is_kept(&keep, &receivers[i]) {
            i = i + 1;
            assert(receivers@ =~= before.push(next) + all.skip(done + 1));
        } else {
            receivers.remove(i);
            assert(receivers@ =~= before + all.skip(done + 1));
        }
        proof {
            done = done + 1;
        }
    }
    assert(all.take(done) =~= all);
    assert(receivers@ =~= all.filter(kept));
}

/// Drops the receivers that listen to a source.
pub fn drop_source(receivers: &mut Vec<LogReceiver>, source: &LogSource)
    ensures
        final(receivers)@ == others_than(old(receivers)@, *source),
{
    let ghost all = receivers@;
    retain(receivers, Keep::OthersThan(source));
    proof {
        let keep = Keep::OthersThan(source);
        assert((|rx: LogReceiver| keeps(keep, rx)) =~= (|rx: LogReceiver|
            !types::same_source(rx.source, *source)));
    }
}

/// Drops the receivers that feed in a file or an HTTP stream.
pub fn drop_when_closing_all(receivers: &mut Vec<LogReceiver>)
    ensures
        final(receivers)@ == kept_when_closing_all(old(receivers)@),
{
    retain(receivers, Keep::SurvivingClosingAll);
    proof {
        assert((|rx: LogReceiver| keeps(Keep::SurvivingClosingAll, rx)) =~= (|rx: LogReceiver|
            survives_closing_all(rx.source)));
    }
}

/// Closing all entries leaves no receiver of a file or an HTTP stream, and takes no other one.
pub proof fn closing_all_stops_files_and_http_streams(receivers: Seq<LogReceiver>, rx: LogReceiver)
    ensures
        kept_when_closing_all(receivers).contains(rx) <==> receivers.contains(rx) && !(
        rx.source is File) && !(rx.source is RrdHttpStream),
{
    let kept = |rx: LogReceiver| survives_closing_all(rx.source);
    if kept_when_closing_all(receivers).contains(rx) {
        let i = choose|i: int|
            0 <= i < kept_when_closing_all(receivers).len() && kept_when_closing_all(
                receivers,
            )[i] == rx;
        receivers.lemma_filter_pred(kept, i);
        receivers.lemma_filter_contains_rev(kept, rx);
        assert(kept(receivers.filter(kept)[i]));
    }
    if receivers.contains(rx) && kept(rx) {
        let i = choose|i: int| 0 <= i < receivers.len() && receivers[i] == rx;
        receivers.lemma_filter_contains(kept, i);
    }
}

/// Data is expected soon: as the user said, or because of some receiver.
pub open spec fn expects_data_soon(said: Option<bool>, receivers: Seq<LogReceiver>) -> bool {
    match said {
        Some(expected) => expected,
        None => exists|i: int| 0 <= i < receivers.len() && sends_soon(#[trigger] receivers[i].source),
    }
}

/// Whether the welcome screen fades in, so that it does not flicker before data comes.
pub fn should_fade_in_welcome_screen(
    expect_data_soon: Option<bool>,
    receivers: &Vec<LogReceiver>,
) -> (res: bool)
    ensures
        res == expects_data_soon(expect_data_soon, receivers@),
{
    if let Some(expected) = expect_data_soon {
        return expected;
    }
    let mut i: usize = 0;
    while i < receivers.len()
        invariant
            i <= receivers@.len(),
            expect_data_soon is None,
            forall|k: int| 0 <= k < i ==> !sends_soon(#[trigger] receivers@[k].source),
        decreases receivers@.len() - i,
    {
        if receivers[i].source.is_expected_to_send_soon() {
            assert(sends_soon(receivers@[i as int].source));
            return true;
        }
        i = i + 1;
    }
    false
}

/// The source that messages of a data source come from, if that can be told beforehand: it cannot
/// for the contents of a file.
pub open spec fn source_of(data_source: LogDataSource) -> Option<LogSource> {
    match data_source {
        LogDataSource::RrdHttpUrl { url, follow } => Some(LogSource::RrdHttpStream { url, follow }),
        LogDataSource::FilePath(_, path) => Some(LogSource::File(path)),
        LogDataSource::FileContents(_, _) => None,
        LogDataSource::Stdin => Some(LogSource::Stdin),
        LogDataSource::RedapDatasetSegment { uri, select_when_loaded } => Some(
            LogSource::RedapGrpcStream { uri, select_when_loaded },
        ),
        LogDataSource::RedapProxy(uri) => Some(LogSource::MessageProxy(uri)),
    }
}

/// The source is one of those that were loaded or are loading, apart from its fragment.
pub open spec fn is_known_source(
    loaded: Seq<LogSource>,
    receivers: Seq<LogReceiver>,
    source: LogSource,
) -> bool {
    ||| exists|i: int|
        0 <= i < loaded.len() && types::same_source_ignoring_fragments(#[trigger] loaded[i], source)
    ||| exists|i: int|
        0 <= i < receivers.len() && types::same_source_ignoring_fragments(
            #[trigger] receivers[i].source,
            source,
        )
}

/// The data was loaded already, or is loading. That cannot be told of the contents of a file.
pub open spec fn is_present(
    loaded: Seq<LogSource>,
    receivers: Seq<LogReceiver>,
    data_source: LogDataSource,
) -> bool {
    match source_of(data_source) {
        Some(source) => is_known_source(loaded, receivers, source),
        None => false,
    }
}

fn knows_source(loaded: &Vec<LogSource>, receivers: &Vec<LogReceiver>, source: &LogSource) -> (res:
    bool)
    ensures
        res == is_known_source(loaded@, receivers@, *source),
{
    let mut i: usize = 0;
    while i < loaded.len()
        invariant
            i <= loaded@.len(),
            forall|k: int|
                0 <= k < i ==> !types::same_source_ignoring_fragments(
                    #[trigger] loaded@[k],
                    *source,
                ),
        decreases loaded@.len() - i,
    {
        if loaded[i].is_same_ignoring_uri_fragments(source) {
            assert(types::same_source_ignoring_fragments(loaded@[i as int], *source));
            return true;
        }
        i = i + 1;
    }
    let mut j: usize = 0;
    while j < receivers.len()
        invariant
            j <= receivers@.len(),
            forall|k: int|
                0 <= k < loaded@.len() ==> !types::same_source_ignoring_fragments(
                    #[trigger] loaded@[k],
                    *source,
                ),
            forall|k: int|
                0 <= k < j ==> !types::same_source_ignoring_fragments(
                    #[trigger] receivers@[k].source,
                    *source,
                ),
        decreases receivers@.len() - j,
    {
        if receivers[j].source.is_same_ignoring_uri_fragments(source) {
            assert(types::same_source_ignoring_fragments(receivers@[j as int].source, *source));
            return true;
        }
        j = j + 1;
    }
    false
}

/// Whether the data was loaded already, or is loading: `loaded` are the sources of the stores that
/// are there.
pub fn data_is_present(
    loaded: &Vec<LogSource>,
    receivers: &Vec<LogReceiver>,
    data_source: &LogDataSource,
) -> (res: bool)
    ensures
        res == is_present(loaded@, receivers@, *data_source),
{
    match data_source.log_source() {
        Some(source) => knows_source(loaded, receivers, &source),
        None => false,
    }
}

impl LogDataSource {
    /// The source that messages of a data source come from, if that can be told beforehand.
    pub fn log_source(&self) -> (res: Option<LogSource>)
        ensures
            res == source_of(*self),
    {
        match self {
            LogDataSource::RrdHttpUrl { url, follow } => Some(
                LogSource::RrdHttpStream { url: url.clone(), follow: *follow },
            ),
            LogDataSource::FilePath(_, path) => Some(LogSource::File(path.clone())),
            LogDataSource::FileContents(_, _) => None,
            LogDataSource::Stdin => Some(LogSource::Stdin),
            LogDataSource::RedapDatasetSegment { uri, select_when_loaded } => Some(
                LogSource::RedapGrpcStream {
                    uri: uri.clone(),
                    select_when_loaded: *select_when_loaded,
                },
            ),
            LogDataSource::RedapProxy(uri) => Some(LogSource::MessageProxy(uri.clone())),
        }
    }
}

/// Dropping a source takes every receiver that listens to it, and no other one.
pub proof fn only_one_source_is_dropped(
    receivers: Seq<LogReceiver>,
    source: LogSource,
    rx: LogReceiver,
)
    ensures
        others_than(receivers, source).contains(rx) <==> receivers.contains(rx)
            && !types::same_source(rx.source, source),
{
    let kept = |rx: LogReceiver| !types::same_source(rx.source, source);
    let rest = others_than(receivers, source);
    if rest.contains(rx) {
        let i = choose|i: int| 0 <= i < rest.len() && rest[i] == rx;
        receivers.lemma_filter_pred(kept, i);
        receivers.lemma_filter_contains_rev(kept, rx);
        assert(kept(receivers.filter(kept)[i]));
    }
    if receivers.contains(rx) && kept(rx) {
        let i = choose|i: int| 0 <= i < receivers.len() && receivers[i] == rx;
        receivers.lemma_filter_contains(kept, i);
    }
}

/// The receivers that stay keep their order, whether one source is dropped or all entries are
/// closed: what a later receiver does is no matter to those before it.
pub proof fn kept_receivers_stay_in_order(
    receivers: Seq<LogReceiver>,
    source: LogSource,
    rx: LogReceiver,
)
    ensures
        others_than(receivers.push(rx), source) == if types::same_source(rx.source, source) {
            others_than(receivers, source)
        } else {
            others_than(receivers, source).push(rx)
        },
        kept_when_closing_all(receivers.push(rx)) == if rx.source is File
            || rx.source is RrdHttpStream {
            kept_when_closing_all(receivers)
        } else {
            kept_when_closing_all(receivers).push(rx)
        },
{
    reveal(Seq::filter);
    assert(receivers.push(rx).drop_last() =~= receivers);
}

/// Data is expected soon if the user said so; and if the user said nothing, as soon as some receiver
/// is other than a proxy that waits for others.
pub proof fn data_is_expected_of_receivers(receivers: Seq<LogReceiver>, said: bool)
    ensures
        expects_data_soon(Some(said), receivers) == said,
        expects_data_soon(None, receivers) <==> exists|i: int|
            0 <= i < receivers.len() && !((#[trigger] receivers[i]).source is MessageProxy),
{
    if expects_data_soon(None, receivers) {
        let i = choose|i: int| 0 <= i < receivers.len() && sends_soon(#[trigger] receivers[i].source);
        assert(!(receivers[i].source is MessageProxy));
    }
    if exists|i: int| 0 <= i < receivers.len() && !((#[trigger] receivers[i]).source is MessageProxy) {
        let i = choose|i: int|
            0 <= i < receivers.len() && !((#[trigger] receivers[i]).source is MessageProxy);
        assert(sends_soon(receivers[i].source));
    }
}

/// The source that data will come from is told by where it is loaded from, and not by how a file came
/// to be opened. Only the contents of a file have none.
pub proof fn data_comes_from_where_it_is_loaded(data_source: LogDataSource)
    ensures
        match data_source {
            LogDataSource::RrdHttpUrl { url, follow } => source_of(data_source) matches Some(
                LogSource::RrdHttpStream { url: u, follow: f },
            ) && u == url && f == follow,
            LogDataSource::FilePath(_, path) => source_of(data_source) matches Some(
                LogSource::File(p),
            ) && p == path,
            LogDataSource::FileContents(_, _) => source_of(data_source) is None,
            LogDataSource::Stdin => source_of(data_source) == Some(LogSource::Stdin),
            LogDataSource::RedapDatasetSegment { uri, .. } => source_of(data_source) matches Some(
                LogSource::RedapGrpcStream { uri: u, .. },
            ) && u == uri,
            LogDataSource::RedapProxy(uri) => source_of(data_source) matches Some(
                LogSource::MessageProxy(u),
            ) && u == uri,
        },
{
}

} // verus!
