//! The addresses of what was shown.
use crate::app::App;
use crate::app::AppModel;
use crate::commands;
use crate::commands::Effect;
use crate::commands::EffectOf;
use crate::commands::EffectView;
use crate::commands::Severity;
use crate::text;
use crate::types::Platform;
use crate::types::TimeCursor;
use crate::types::TimeRange;
use crate::types::TimeSelection;
use vstd::prelude::*;
use vstd::string::*;

verus! {

/// Which history is brought up to date.
#[derive(Clone, Copy, Debug, PartialEq, Eq, Structural)]
pub enum HistoryUpdate {
    /// The viewer's own.
    Viewer,
    /// The browser's.
    Web,
    Nothing,
}

/// Which history is brought up to date: the viewer's own where the browser's is not used.
pub open spec fn history_update(
    app: AppModel,
    uses_pointer: bool,
    any_touches: bool,
    any_keys_down: bool,
) -> HistoryUpdate {
    if !app.startup_options.web_history_enabled {
        HistoryUpdate::Viewer
    } else if app.platform == Platform::Web && !uses_pointer && !any_touches && !any_keys_down {
        HistoryUpdate::Web
    } else {
        HistoryUpdate::Nothing
    }
}

impl App {
    /// Which history is brought up to date at the end of a frame. The browser's is left alone
    /// while the user drags or holds a key, because browsers take too many changes amiss.
    pub fn update_history(&self, uses_pointer: bool, any_touches: bool, any_keys_down: bool) -> (res:
        HistoryUpdate)
        ensures
            res == history_update(self@, uses_pointer, any_touches, any_keys_down),
    {
        if !self.startup_options.web_history_enabled {
            return HistoryUpdate::Viewer;
        }
        if self.platform == Platform::Web && !uses_pointer && !any_touches && !any_keys_down {
            return HistoryUpdate::Web;
        }
        HistoryUpdate::Nothing
    }
}

/// What a time control tells about the time that belongs in the browser's address.
#[derive(Debug, PartialEq, Eq)]
pub struct PausedTime {
    pub timeline: String,
    /// Whether the type of the timeline is known.
    pub has_type: bool,
    /// When it was last paused, rounded down.
    pub last_paused_time: Option<i64>,
}

/// When a recording was last paused, on a timeline whose type is known.
pub open spec fn paused_at(time_control: Option<PausedTime>) -> Option<TimeCursor> {
    match time_control {
        Some(paused) => match paused.last_paused_time {
            Some(time) => if paused.has_type {
                Some(TimeCursor { timeline: paused.timeline, time })
            } else {
                None
            },
            None => None,
        },
        None => None,
    }
}

/// The time in the browser's address: when the recording was last paused, so that the address does
/// not change while it plays.
pub fn web_history_time(time_control: Option<PausedTime>) -> (res: Option<TimeCursor>)
    ensures
        res == paused_at(time_control),
{
    match time_control {
        Some(paused) => match paused.last_paused_time {
            Some(time) => if paused.has_type {
                Some(TimeCursor { timeline: paused.timeline, time })
            } else {
                None
            },
            None => None,
        },
        None => None,
    }
}

/// `needle` stands in `s` at `at`, and nowhere behind.
pub open spec fn is_last_place(s: Seq<char>, needle: Seq<char>, at: int) -> bool {
    text::occurs_at(s, needle, at) && forall|j: int| j > at ==> !text::occurs_at(s, needle, j)
}

/// An address without its fragment, which comes behind the last code for a hash sign.
pub open spec fn stripped(url: Seq<char>) -> Seq<char> {
    if text::contains_text(url, "%23"@) {
        url.take(choose|at: int| is_last_place(url, "%23"@, at))
    } else {
        url
    }
}

/// An address without its fragment.
pub fn strip_fragment(url: &str) -> (res: String)
    ensures
        res@ == stripped(url@),
{
    match text::last_place(url, "%23") {
        Some(at) => {
            proof {
                assert(text::occurs_at(url@, "%23"@, at as int));
                assert(is_last_place(url@, "%23"@, at as int));
                let chosen = choose|at: int| is_last_place(url@, "%23"@, at);
                assert(is_last_place(url@, "%23"@, chosen));
                assert(chosen == at);
            }
            url.substring_char(0, at).to_owned()
        },
        None => url.to_owned(),
    }
}

proof fn no_code_in_fragment(base: Seq<char>, fragment: Seq<char>, j: int)
    requires
        !text::contains_text(fragment, "%23"@),
        j > base.len(),
    ensures
        !text::occurs_at(base + "%23"@ + fragment, "%23"@, j),
{
    reveal_strlit("%23");
    let url = base + "%23"@ + fragment;
    let n = base.len() as int;
    if text::occurs_at(url, "%23"@, j) {
        let found = url.subrange(j, j + 3);
        assert(found[0] == url[j]);
        if j == n + 1 {
            assert(url[j] == '2');
        } else if j == n + 2 {
            assert(url[j] == '3');
        } else {
            let k = j - n - 3;
            assert(fragment.subrange(k, k + 3) =~= found);
            assert(text::occurs_at(fragment, "%23"@, k));
        }
    }
}

/// A fragment is stripped off whatever it is.
pub proof fn fragments_do_not_matter(base: Seq<char>, fragment: Seq<char>)
    requires
        !text::contains_text(fragment, "%23"@),
    ensures
        stripped(base + "%23"@ + fragment) == base,
{
    let url = base + "%23"@ + fragment;
    let at = base.len() as int;
    assert(text::occurs_at(url, "%23"@, at)) by {
        reveal_strlit("%23");
        assert(url.subrange(at, at + 3) =~= "%23"@);
    }
    assert forall|j: int| j > at implies !text::occurs_at(url, "%23"@, j) by {
        no_code_in_fragment(base, fragment, j);
    }
    assert(is_last_place(url, "%23"@, at));
    let chosen = choose|at: int| is_last_place(url, "%23"@, at);
    assert(is_last_place(url, "%23"@, chosen));
    assert(chosen == at);
    assert(url.take(at) =~= base);
}

/// Two addresses of the same place take one entry, whatever fragments they have.
pub proof fn addresses_of_one_place_share_an_entry(
    base: Seq<char>,
    first: Seq<char>,
    second: Seq<char>,
)
    requires
        !text::contains_text(first, "%23"@),
        !text::contains_text(second, "%23"@),
    ensures
        stripped(base + "%23"@ + first) == stripped(base + "%23"@ + second),
{
    fragments_do_not_matter(base, first);
    fragments_do_not_matter(base, second);
}

/// What is done to the browser's history.
#[derive(Clone, Copy, Debug, PartialEq, Eq, Structural)]
pub enum HistoryChange {
    Nothing,
    ReplaceEntry,
    PushEntry,
}

/// What is done to the browser's history for a new entry.
pub open spec fn history_change(is_current: bool, queries: Option<(String, String)>) -> HistoryChange {
    if is_current {
        HistoryChange::Nothing
    } else {
        match queries {
            Some((current, new)) => if stripped(current@) == stripped(new@) {
                HistoryChange::ReplaceEntry
            } else {
                HistoryChange::PushEntry
            },
            None => HistoryChange::PushEntry,
        }
    }
}

/// What is done to the browser's history for a new entry, which may be the current one. The two
/// entries are given as query strings, if there is a current entry and both can be printed. Where
/// nothing but the fragment is new, the current entry is replaced.
pub fn web_history_change(is_current: bool, queries: Option<(String, String)>) -> (res:
    HistoryChange)
    ensures
        res == history_change(is_current, queries),
{
    if is_current {
        return HistoryChange::Nothing;
    }
    match queries {
        Some((current, new)) => if strip_fragment(current.as_str()) == strip_fragment(
            new.as_str(),
        ) {
            HistoryChange::ReplaceEntry
        } else {
            HistoryChange::PushEntry
        },
        None => HistoryChange::PushEntry,
    }
}

/// The selection that an address gets, and what the user is told if it gets none.
pub open spec fn link_gets(
    has_fragment: bool,
    selection: Option<TimeRange>,
    timeline: Option<String>,
) -> (Option<TimeSelection>, Seq<EffectView>) {
    match (has_fragment, selection, timeline) {
        (true, Some(range), Some(timeline)) => (
            Some(TimeSelection { timeline, range }),
            Seq::<EffectView>::empty(),
        ),
        (true, _, _) => (
            None,
            seq![commands::reported(Severity::Warning, "No timeline selection to copy"@)],
        ),
        (false, _, _) => (
            None,
            seq![
                commands::reported(
                    Severity::Warning,
                    "The current recording doesn't support sharing a time range"@,
                ),
            ],
        ),
    }
}

/// What the address of a time selection gets: the selection of the active timeline, if the address
/// has a fragment and there is one. The user is told if not; the address is copied in any case.
pub fn time_selection_for_link(
    has_fragment: bool,
    selection: Option<TimeRange>,
    timeline: Option<String>,
) -> (res: (Option<TimeSelection>, Vec<Effect>))
    ensures
        (res.0, commands::viewed(res.1@)) == link_gets(has_fragment, selection, timeline),
{
    if !has_fragment {
        let text = "The current recording doesn't support sharing a time range".to_owned();
        return (None, commands::just(commands::report(Severity::Warning, text)));
    }
    match (selection, timeline) {
        (Some(range), Some(timeline)) => (
            Some(TimeSelection { timeline, range }),
            commands::nothing(),
        ),
        _ => {
            let text = "No timeline selection to copy".to_owned();
            (None, commands::just(commands::report(Severity::Warning, text)))
        },
    }
}

/// The browser's history is never brought up to date while the user points, touches or types, nor
/// where it is not used, and the viewer's own is if and only if the browser's is not used.
pub proof fn histories_are_updated_when_nothing_happens(
    app: AppModel,
    uses_pointer: bool,
    any_touches: bool,
    any_keys_down: bool,
)
    ensures
        ({
            let update = history_update(app, uses_pointer, any_touches, any_keys_down);
            &&& update == HistoryUpdate::Viewer <==> !app.startup_options.web_history_enabled
            &&& update == HistoryUpdate::Web <==> app.startup_options.web_history_enabled
                && app.platform == Platform::Web && !(uses_pointer || any_touches || any_keys_down)
        }),
{
}

/// The browser's history gets an entry for every new place, and none for a place that it is at. Where
/// only the fragment is new, the entry is replaced, so that going back leads to another place.
pub proof fn new_places_get_an_entry(
    current: String,
    new: String,
    base: Seq<char>,
    first: Seq<char>,
    second: Seq<char>,
)
    requires
        !text::contains_text(first, "%23"@),
        !text::contains_text(second, "%23"@),
    ensures
        history_change(true, Some((current, new))) == HistoryChange::Nothing,
        history_change(true, None) == HistoryChange::Nothing,
        history_change(false, None) == HistoryChange::PushEntry,
        current@ == base + "%23"@ + first && new@ == base + "%23"@ + second ==> history_change(
            false,
            Some((current, new)),
        ) == HistoryChange::ReplaceEntry,
        !text::contains_text(current@, "%23"@) && !text::contains_text(new@, "%23"@) && current@
            != new@ ==> history_change(false, Some((current, new))) == HistoryChange::PushEntry,
        current@ == base + "%23"@ + first && !text::contains_text(new@, "%23"@) && new@ != base
            ==> history_change(false, Some((current, new))) == HistoryChange::PushEntry,
{
    fragments_do_not_matter(base, first);
    fragments_do_not_matter(base, second);
}

/// The browser's address has a time if and only if the recording was ever paused on a timeline of a
/// known type: then that time, on that timeline.
pub proof fn addresses_have_the_last_pause(paused: PausedTime)
    ensures
        paused_at(None) is None,
        paused_at(Some(paused)) is Some <==> paused.has_type && paused.last_paused_time is Some,
        paused_at(Some(paused)) matches Some(cursor) ==> cursor.timeline == paused.timeline && Some(
            cursor.time,
        ) == paused.last_paused_time,
{
}

/// An address gets the selected range of the active timeline if it can hold one, and there is one;
/// in every other case the user is warned, once.
pub proof fn links_get_the_selection(
    has_fragment: bool,
    selection: Option<TimeRange>,
    timeline: Option<String>,
)
    ensures
        ({
            let (gets, told) = link_gets(has_fragment, selection, timeline);
            &&& gets is Some <==> has_fragment && selection is Some && timeline is Some
            &&& gets matches Some(range) ==> Some(range.range) == selection && Some(range.timeline)
                == timeline
            &&& told.len() == if gets is Some {
                0int
            } else {
                1
            }
            &&& gets is None ==> (told[0] matches EffectOf::Report { severity, .. } && severity
                == Severity::Warning)
        }),
{
}

} // verus!
