//! The hand-over between a video export and the panes that the renderer paints: each pane takes
//! the screenshot that is wanted of it once.
use ahash::HashSet;
use crate::commands;
use crate::commands::Effect;
use crate::commands::Severity;
use crate::hashed;
use crate::types::UiRect;
use crate::types::ViewId;
use vstd::prelude::*;
use vstd::string::*;

verus! {

/// What the renderer knows of the pane that it paints.
#[derive(Clone, Copy, Debug, PartialEq, Eq, Structural)]
pub struct RendererPaneMetadata {
    pub view_id: ViewId,
}

/// A screenshot of one view that is wanted for one frame of an export.
#[derive(Clone, Copy, Debug, PartialEq, Eq, Structural)]
pub struct RendererVideoExportScreenshot {
    pub export_id: u64,
    pub frame_index: usize,
    pub view_id: ViewId,
    pub ui_rect: UiRect,
    /// The bits of an `f32`.
    pub pixels_per_point: u32,
}

/// The screenshots of a frame that were not taken yet.
pub struct RendererVideoExportRequest {
    pub export_id: u64,
    pub frame_index: usize,
    pub remaining_view_ids: HashSet<u128>,
}

/// Which screenshots are wanted of a frame, as the renderer's panes see it.
pub struct RendererVideoExportState {
    pub current_request: Option<RendererVideoExportRequest>,
}

/// A frame of an export, and the views whose screenshots are still wanted.
#[verifier::ext_equal]
pub struct WantedScreenshots {
    pub export_id: u64,
    pub frame_index: usize,
    pub remaining: Set<u128>,
}

impl View for RendererVideoExportState {
    type V = Option<WantedScreenshots>;

    open spec fn view(&self) -> Option<WantedScreenshots> {
        match self.current_request {
            Some(request) => Some(
                WantedScreenshots {
                    export_id: request.export_id,
                    frame_index: request.frame_index,
                    remaining: request.remaining_view_ids@,
                },
            ),
            None => None,
        }
    }
}

/// The id numbers of views.
pub open spec fn id_set(view_ids: Seq<ViewId>) -> Set<u128> {
    view_ids.map_values(|view: ViewId| view.id).to_set()
}

/// The screenshot that a view takes off what is wanted.
pub open spec fn screenshot_taken(
    wanted: Option<WantedScreenshots>,
    view_id: ViewId,
    ui_rect: UiRect,
    pixels_per_point: u32,
) -> Option<RendererVideoExportScreenshot> {
    match wanted {
        Some(request) => if request.remaining.contains(view_id.id) {
            Some(
                RendererVideoExportScreenshot {
                    export_id: request.export_id,
                    frame_index: request.frame_index,
                    view_id,
                    ui_rect,
                    pixels_per_point,
                },
            )
        } else {
            None
        },
        None => None,
    }
}

/// What is still wanted after a view took its screenshot. When nothing is left, the request is
/// over.
pub open spec fn wanted_after(wanted: Option<WantedScreenshots>, view_id: ViewId) -> Option<
    WantedScreenshots,
> {
    match wanted {
        Some(request) => if !request.remaining.contains(view_id.id) {
            wanted
        } else if request.remaining.remove(view_id.id) == Set::<u128>::empty() {
            None
        } else {
            Some(
                WantedScreenshots { remaining: request.remaining.remove(view_id.id), ..request },
            )
        },
        None => None,
    }
}

impl Default for RendererVideoExportState {
    /// Nothing is wanted.
    fn default() -> (res: Self)
        ensures
            res@ is None,
    {
        RendererVideoExportState { current_request: None }
    }
}

impl RendererVideoExportState {
    /// Asks for a screenshot of each of the given views, in place of what was wanted before.
    pub fn set_request(&mut self, export_id: u64, frame_index: usize, view_ids: Vec<ViewId>)
        ensures
            final(self)@ == Some(
                WantedScreenshots { export_id, frame_index, remaining: id_set(view_ids@) },
            ),
    {
        let mut remaining: HashSet<u128> = HashSet::default();
        let ghost ids = view_ids@.map_values(|view: ViewId| view.id);
        let mut i: usize = 0;
        assert(remaining@ =~= ids.take(0).to_set());
        while i < view_ids.len()
            invariant
                i <= view_ids@.len(),
                ids == view_ids@.map_values(|view: ViewId| view.id),
                remaining@ == ids.take(i as int).to_set(),
            decreases view_ids@.len() - i,
        {
            hashed::set_insert(&mut remaining, view_ids[i].id);
            assert(ids.take(i + 1) =~= ids.take(i as int).push(ids[i as int]));
            assert(remaining@ =~= ids.take(i + 1).to_set()) by {
                broadcast use vstd::seq_lib::group_seq_properties;

            }
            i = i + 1;
        }
        assert(ids.take(i as int) =~= ids);
        self.current_request =
            Some(
                RendererVideoExportRequest { export_id, frame_index, remaining_view_ids: remaining },
            );
    }

    /// Asks for nothing any more.
    pub fn clear_request(&mut self)
        ensures
            final(self)@ is None,
    {
        self.current_request = None;
    }

    /// Hands out the screenshot that is wanted of a view, if there is one. Each is handed out
    /// once.
    pub fn take_request_for_view(
        &mut self,
        view_id: ViewId,
        ui_rect: UiRect,
        pixels_per_point: u32,
    ) -> (res: Option<RendererVideoExportScreenshot>)
        ensures
            res == screenshot_taken(old(self)@, view_id, ui_rect, pixels_per_point),
            final(self)@ == wanted_after(old(self)@, view_id),
    {
        match self.current_request.take() {
            None => None,
            Some(request) => {
                let mut request = request;
                let ghost before = request.remaining_view_ids@;
                if !hashed::set_remove(&mut request.remaining_view_ids, view_id.id) {
                    assert(request.remaining_view_ids@ =~= before);
                    self.current_request = Some(request);
                    return None;
                }
                let screenshot = RendererVideoExportScreenshot {
                    export_id: request.export_id,
                    frame_index: request.frame_index,
                    view_id,
                    ui_rect,
                    pixels_per_point,
                };
                if !request.remaining_view_ids.is_empty() {
                    self.current_request = Some(request);
                } else {
                    assert(request.remaining_view_ids@ =~= Set::<u128>::empty());
                }
                Some(screenshot)
            },
        }
    }

    /// The screenshot to schedule before a pane is painted: none for a pane that shows no view.
    pub fn take_request_for_pane(
        &mut self,
        pane_metadata: Option<RendererPaneMetadata>,
        viewport: UiRect,
        pixels_per_point: u32,
    ) -> (res: Option<RendererVideoExportScreenshot>)
        ensures
            (res, final(self)@) == taken_for_pane(
                old(self)@,
                pane_metadata,
                viewport,
                pixels_per_point,
            ),
    {
        match pane_metadata {
            Some(metadata) => self.take_request_for_view(
                metadata.view_id,
                viewport,
                pixels_per_point,
            ),
            None => None,
        }
    }
}

/// A view that took its screenshot gets no second one of the same request.
pub proof fn a_view_is_served_once(
    wanted: Option<WantedScreenshots>,
    view_id: ViewId,
    ui_rect: UiRect,
    pixels_per_point: u32,
)
    ensures
        screenshot_taken(wanted_after(wanted, view_id), view_id, ui_rect, pixels_per_point) is None,
{
}

/// What one view takes leaves the screenshots of the other views wanted.
pub proof fn other_views_stay_wanted(
    wanted: Option<WantedScreenshots>,
    view_id: ViewId,
    other: ViewId,
    ui_rect: UiRect,
    pixels_per_point: u32,
)
    requires
        view_id != other,
    ensures
        screenshot_taken(wanted_after(wanted, view_id), other, ui_rect, pixels_per_point)
            == screenshot_taken(wanted, other, ui_rect, pixels_per_point),
{
    if let Some(request) = wanted {
        let rest = request.remaining.remove(view_id.id);
        assert(rest.contains(other.id) == request.remaining.contains(other.id));
    }
}

/// What is wanted after several views took their screenshots.
pub open spec fn wanted_after_all(wanted: Option<WantedScreenshots>, view_ids: Seq<ViewId>) -> Option<
    WantedScreenshots,
>
    decreases view_ids.len(),
{
    if view_ids.len() == 0 {
        wanted
    } else {
        wanted_after(wanted_after_all(wanted, view_ids.drop_last()), view_ids.last())
    }
}

/// Once every requested view was served, in whatever order, nothing is wanted any more.
pub proof fn serving_all_views_ends_the_request(
    wanted: Option<WantedScreenshots>,
    view_ids: Seq<ViewId>,
)
    requires
        wanted matches Some(request) ==> request.remaining != Set::<u128>::empty() && forall|id: u128|
            #![trigger request.remaining.contains(id)]
            request.remaining.contains(id) ==> view_ids.contains(ViewId { id }),
    ensures
        wanted_after_all(wanted, view_ids) is None,
{
    if let Some(request) = wanted {
        unserved_views_remain(request, view_ids);
        if let Some(rest) = wanted_after_all(wanted, view_ids) {
            assert forall|id: u128| !rest.remaining.contains(id) by {
                if rest.remaining.contains(id) {
                    assert(request.remaining.contains(id));
                }
            }
            assert(rest.remaining =~= Set::<u128>::empty());
        }
    } else {
        nothing_stays_nothing(view_ids);
    }
}

proof fn nothing_stays_nothing(view_ids: Seq<ViewId>)
    ensures
        wanted_after_all(None, view_ids) is None,
    decreases view_ids.len(),
{
    if view_ids.len() > 0 {
        nothing_stays_nothing(view_ids.drop_last());
    }
}

proof fn unserved_views_remain(request: WantedScreenshots, view_ids: Seq<ViewId>)
    requires
        request.remaining != Set::<u128>::empty(),
    ensures
        match wanted_after_all(Some(request), view_ids) {
            Some(rest) => rest.remaining != Set::<u128>::empty() && forall|id: u128|
                #![trigger rest.remaining.contains(id)]
                rest.remaining.contains(id) <==> request.remaining.contains(id)
                    && !view_ids.contains(ViewId { id }),
            None => true,
        },
    decreases view_ids.len(),
{
    if view_ids.len() > 0 {
        let rest = view_ids.drop_last();
        unserved_views_remain(request, rest);
        assert forall|v: ViewId| view_ids.contains(v) <==> rest.contains(v) || v
            == view_ids.last() by {
            if view_ids.contains(v) {
                let k = choose|k: int| 0 <= k < view_ids.len() && view_ids[k] == v;
                if k < view_ids.len() - 1 {
                    assert(rest[k] == v);
                }
            }
            if rest.contains(v) {
                let k = choose|k: int| 0 <= k < rest.len() && rest[k] == v;
                assert(view_ids[k] == v);
            }
            if v == view_ids.last() {
                assert(view_ids[view_ids.len() - 1] == v);
            }
        }
    }
}

/// What can go wrong when a pane is painted.
#[derive(Debug, PartialEq, Eq)]
pub enum PaneFailure {
    NoContextToPrepare,
    NoContextToPaint,
    ScreenshotNotScheduled(String),
    NotDrawn(String),
}

/// Tells the user, once, that a pane could not be painted, or that its screenshot could not be
/// scheduled: then the pane is painted all the same.
pub fn report_pane_failure(failure: PaneFailure) -> (res: Effect)
    ensures
        res@ == commands::reported_once(pane_severity(failure), pane_text(failure)),
{
    match failure {
        PaneFailure::NoContextToPrepare => commands::report_once(
            Severity::Error,
            "Failed to execute egui prepare callback. No render context available.".to_owned(),
        ),
        PaneFailure::NoContextToPaint => commands::report_once(
            Severity::Error,
            "Failed to execute egui draw callback. No render context available.".to_owned(),
        ),
        PaneFailure::ScreenshotNotScheduled(err) => commands::report_once(
            Severity::Warning,
            "Failed to schedule video export screenshot: ".to_owned().concat(err.as_str()),
        ),
        PaneFailure::NotDrawn(err) => commands::report_once(
            Severity::Error,
            "Failed to fill view builder: ".to_owned().concat(err.as_str()),
        ),
    }
}

/// A view gets a screenshot if and only if one is wanted of it: of the frame and the export that it
/// is wanted for, and of the place where the view is.
pub proof fn wanted_views_get_their_screenshot(
    request: WantedScreenshots,
    view_id: ViewId,
    ui_rect: UiRect,
    pixels_per_point: u32,
)
    ensures
        screenshot_taken(None, view_id, ui_rect, pixels_per_point) is None,
        screenshot_taken(Some(request), view_id, ui_rect, pixels_per_point) is Some
            <==> request.remaining.contains(view_id.id),
        screenshot_taken(Some(request), view_id, ui_rect, pixels_per_point) matches Some(screenshot)
            ==> {
            &&& screenshot.export_id == request.export_id
            &&& screenshot.frame_index == request.frame_index
            &&& screenshot.view_id == view_id
            &&& screenshot.ui_rect == ui_rect
            &&& screenshot.pixels_per_point == pixels_per_point
        },
{
}

/// What is still wanted is of the same frame of the same export, and an unwanted view takes nothing.
pub proof fn requests_keep_their_frame(request: WantedScreenshots, view_id: ViewId, id: u128)
    ensures
        wanted_after(None, view_id) is None,
        !request.remaining.contains(view_id.id) ==> wanted_after(Some(request), view_id) == Some(
            request,
        ),
        wanted_after(Some(request), view_id) matches Some(rest) ==> {
            &&& rest.export_id == request.export_id
            &&& rest.frame_index == request.frame_index
            &&& rest.remaining.contains(id) <==> request.remaining.contains(id) && id != view_id.id
        },
        wanted_after(Some(request), view_id) is None ==> (request.remaining.contains(id) ==> id
            == view_id.id),
{
    if wanted_after(Some(request), view_id) is None && request.remaining.contains(id) && id
        != view_id.id {
        assert(request.remaining.remove(view_id.id).contains(id));
    }
}

/// A screenshot is wanted of each view that was asked for, and of no other one.
pub proof fn every_requested_view_is_wanted(view_ids: Seq<ViewId>, id: u128)
    ensures
        id_set(view_ids).contains(id) <==> exists|i: int|
            0 <= i < view_ids.len() && (#[trigger] view_ids[i]).id == id,
{
    let ids = view_ids.map_values(|view: ViewId| view.id);
    if exists|i: int| 0 <= i < view_ids.len() && (#[trigger] view_ids[i]).id == id {
        let i = choose|i: int| 0 <= i < view_ids.len() && (#[trigger] view_ids[i]).id == id;
        assert(ids[i] == id);
        assert(ids.contains(id));
    }
    if id_set(view_ids).contains(id) {
        let i = choose|i: int| 0 <= i < ids.len() && ids[i] == id;
        assert(view_ids[i].id == id);
    }
}

/// What a pane gets, and what is still wanted afterwards.
pub open spec fn taken_for_pane(
    wanted: Option<WantedScreenshots>,
    pane_metadata: Option<RendererPaneMetadata>,
    viewport: UiRect,
    pixels_per_point: u32,
) -> (Option<RendererVideoExportScreenshot>, Option<WantedScreenshots>) {
    match pane_metadata {
        Some(metadata) => (
            screenshot_taken(wanted, metadata.view_id, viewport, pixels_per_point),
            wanted_after(wanted, metadata.view_id),
        ),
        None => (None, wanted),
    }
}

/// How bad the failure of a pane is.
pub open spec fn pane_severity(failure: PaneFailure) -> Severity {
    if failure is ScreenshotNotScheduled {
        Severity::Warning
    } else {
        Severity::Error
    }
}

/// What is told of the failure of a pane.
pub open spec fn pane_text(failure: PaneFailure) -> Seq<char> {
    match failure {
        PaneFailure::NoContextToPrepare =>
            "Failed to execute egui prepare callback. No render context available."@,
        PaneFailure::NoContextToPaint =>
            "Failed to execute egui draw callback. No render context available."@,
        PaneFailure::ScreenshotNotScheduled(err) => "Failed to schedule video export screenshot: "@
            + err@,
        PaneFailure::NotDrawn(err) => "Failed to fill view builder: "@ + err@,
    }
}

/// A pane that shows no view takes nothing, and nothing gets lost by it; one that does takes the
/// screenshot of its own view.
pub proof fn panes_take_for_their_view(
    wanted: Option<WantedScreenshots>,
    metadata: RendererPaneMetadata,
    viewport: UiRect,
    pixels_per_point: u32,
)
    ensures
        taken_for_pane(wanted, None, viewport, pixels_per_point).0 is None,
        taken_for_pane(wanted, None, viewport, pixels_per_point).1 == wanted,
        taken_for_pane(wanted, Some(metadata), viewport, pixels_per_point).0 matches Some(shot)
            ==> shot.view_id == metadata.view_id && (wanted matches Some(request)
            && request.remaining.contains(metadata.view_id.id)),
        (wanted matches Some(request) && request.remaining.contains(metadata.view_id.id)) ==> (
        taken_for_pane(wanted, Some(metadata), viewport, pixels_per_point).0 matches Some(shot)
            && shot.ui_rect == viewport && shot.pixels_per_point == pixels_per_point),
{
}

/// What went wrong with a pane is told with its reason. That a screenshot has to wait is no error;
/// everything else is one.
pub proof fn failures_of_panes_are_told(err: String)
    ensures
        pane_text(PaneFailure::ScreenshotNotScheduled(err))
            == "Failed to schedule video export screenshot: "@ + err@,
        pane_text(PaneFailure::NotDrawn(err)) == "Failed to fill view builder: "@ + err@,
        pane_severity(PaneFailure::ScreenshotNotScheduled(err)) == Severity::Warning,
        pane_severity(PaneFailure::NotDrawn(err)) == Severity::Error,
        pane_severity(PaneFailure::NoContextToPrepare) == Severity::Error,
        pane_severity(PaneFailure::NoContextToPaint) == Severity::Error,
        pane_text(PaneFailure::NoContextToPrepare)
            == "Failed to execute egui prepare callback. No render context available."@,
        pane_text(PaneFailure::NoContextToPaint)
            == "Failed to execute egui draw callback. No render context available."@,
{
}

} // verus!
