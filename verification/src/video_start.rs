//! What a video export captures, and how it starts.
use ahash::HashMap;
use crate::commands;
use crate::commands::Effect;
use crate::commands::EffectOf;
use crate::commands::EffectView;
use crate::commands::Severity;
use crate::commands::SystemCommandOf;
use crate::text;
use crate::types::PlayState;
use crate::types::StoreId;
use crate::types::TimeControlCommand;
use crate::types::TimeRange;
use crate::types::TimeReal;
use crate::types::TimeSelection;
use crate::types::TimeTarget;
use crate::types::UiRect;
use crate::types::ViewId;
use crate::video_export;
use crate::video_export::CroppedVideoExport;
use crate::video_export::CroppedVideoExportPhase;
use crate::video_export::ExportState;
use crate::video_export::VideoExportArea;
use crate::video_export::VideoExportView;
use crate::video_export::VideoExporter;
use crate::video_files;
use vstd::prelude::*;
use vstd::string::*;

verus! {

/// What was published of a view when it was last shown.
#[derive(Debug, PartialEq, Eq)]
pub struct PublishedViewInfo {
    pub name: String,
    pub rect: UiRect,
}

impl Clone for PublishedViewInfo {
    fn clone(&self) -> (res: Self)
        ensures
            res == *self,
    {
        PublishedViewInfo { name: self.name.clone(), rect: self.rect }
    }
}

/// A view of the viewport: its class if the view is there, and what was published of it if it
/// was shown.
#[derive(Debug, PartialEq, Eq)]
pub struct ViewportView {
    pub view_id: ViewId,
    /// How the id is printed.
    pub label: String,
    pub class_identifier: Option<String>,
    pub info: Option<PublishedViewInfo>,
}

/// The classes of views that the renderer can capture.
#[derive(Debug, PartialEq, Eq)]
pub struct CapturableClasses {
    pub spatial_2d: String,
    pub spatial_3d: String,
    pub map: String,
}

impl CapturableClasses {
    pub open spec fn has(self, class_identifier: Seq<char>) -> bool {
        ||| class_identifier == self.spatial_2d@
        ||| class_identifier == self.spatial_3d@
        ||| class_identifier == self.map@
    }

    /// Whether the renderer can capture views of a class.
    pub fn is_renderer_video_export_supported(&self, class_identifier: &String) -> (res: bool)
        ensures
            res == self.has(class_identifier@),
    {
        *class_identifier == self.spatial_2d || *class_identifier == self.spatial_3d
            || *class_identifier == self.map
    }
}

/// The view is there and was shown.
pub open spec fn is_visible(view: ViewportView) -> bool {
    view.class_identifier is Some && view.info is Some
}

/// The visible ones of the views.
pub open spec fn visible(views: Seq<ViewportView>) -> Seq<ViewportView> {
    views.filter(|view: ViewportView| is_visible(view))
}

/// How a visible view is captured.
pub open spec fn layout(view: ViewportView) -> VideoExportView {
    VideoExportView { view_id: view.view_id, rect: view.info->0.rect, label: view.label }
}

/// The views that a video shows, and the name of what it shows.
#[derive(Debug, PartialEq, Eq)]
pub struct CapturedViews {
    pub name: String,
    pub views: Vec<VideoExportView>,
}

/// Every visible view can be captured, and there is one.
pub open spec fn can_be_captured(views: Seq<ViewportView>, classes: CapturableClasses) -> bool {
    &&& visible(views).len() > 0
    &&& forall|i: int|
        #![trigger visible(views)[i]]
        0 <= i < visible(views).len() ==> classes.has(visible(views)[i].class_identifier->0@)
}

/// A video of a single view is named after it.
pub open spec fn area_name(views: Seq<ViewportView>) -> Seq<char> {
    if visible(views).len() == 1 {
        visible(views)[0].info->0.name@
    } else {
        "viewport"@
    }
}

/// The views that a video shows: all visible ones. There is none if nothing is visible or if
/// some visible view cannot be captured.
pub fn views_to_capture(views: &Vec<ViewportView>, classes: &CapturableClasses) -> (res: Option<
    CapturedViews,
>)
    ensures
        res is Some <==> can_be_captured(views@, *classes),
        res matches Some(captured) ==> captured.views@ == visible(views@).map_values(
            |view: ViewportView| layout(view),
        ) && captured.name@ == area_name(views@),
{
    let mut layouts: Vec<VideoExportView> = Vec::new();
    let mut name: Option<String> = None;
    let mut all_supported = true;
    let mut i: usize = 0;
    let ghost shown = |view: ViewportView| is_visible(view);
    let ghost laid_out = |view: ViewportView| layout(view);
    assert(views@.take(0).filter(shown) =~= Seq::<ViewportView>::empty()) by {
        reveal(Seq::filter);
    }
    assert(layouts@ =~= views@.take(0).filter(shown).map_values(laid_out));
    while i < views.len()
        invariant
            i <= views@.len(),
            shown == (|view: ViewportView| is_visible(view)),
            laid_out == (|view: ViewportView| layout(view)),
            layouts@ == views@.take(i as int).filter(shown).map_values(laid_out),
            all_supported <==> forall|k: int|
                #![trigger views@.take(i as int).filter(shown)[k]]
                0 <= k < views@.take(i as int).filter(shown).len() ==> classes.has(
                    views@.take(i as int).filter(shown)[k].class_identifier->0@,
                ),
            name is Some <==> layouts@.len() > 0,
            name matches Some(text) ==> text == views@.take(i as int).filter(
                shown,
            )[0].info->0.name,
        decreases views@.len() - i,
    {
        let view = &views[i];
        let ghost before = views@.take(i as int).filter(shown);
        let ghost after = views@.take(i + 1).filter(shown);
        proof {
            assert(views@.take(i + 1).drop_last() =~= views@.take(i as int));
            reveal(Seq::filter);
            assert(after =~= if is_visible(*view) {
                before.push(*view)
            } else {
                before
            });
        }
        if let (Some(class_identifier), Some(info)) = (&view.class_identifier, &view.info) {
            let supported = classes.is_renderer_video_export_supported(class_identifier);
            proof {
                assert(after[before.len() as int] == *view);
                if all_supported && supported {
                    assert forall|k: int| 0 <= k < after.len() implies classes.has(
                        (#[trigger] after[k]).class_identifier->0@,
                    ) by {
                        if k < before.len() {
                            assert(after[k] == before[k]);
                        }
                    }
                }
                if !all_supported {
                    let k = choose|k: int|
                        #![trigger before[k]]
                        0 <= k < before.len() && !classes.has(before[k].class_identifier->0@);
                    assert(after[k] == before[k]);
                }
            }
            all_supported = all_supported && supported;
            if name.is_none() {
                name = Some(info.name.clone());
            }
            layouts.push(
                VideoExportView {
                    view_id: view.view_id,
                    rect: info.rect,
                    label: view.label.clone(),
                },
            );
            assert(layouts@ =~= after.map_values(laid_out));
        }
        i = i + 1;
    }
    assert(views@.take(i as int) =~= views@);
    assert(visible(views@) == views@.filter(shown));
    match name {
        Some(name) => {
            if !all_supported {
                return None;
            }
            let name = if layouts.len() == 1 {
                name
            } else {
                "viewport".to_owned()
            };
            Some(CapturedViews { name, views: layouts })
        },
        None => None,
    }
}

impl CapturedViews {
    /// The area that a video shows: the given rectangle around the views, unless it is empty.
    pub fn video_export_area(
        self,
        rect: UiRect,
        is_positive: bool,
        pixels_per_point: u32,
        rounded_width: u32,
        rounded_height: u32,
    ) -> (res: Option<VideoExportArea>)
        ensures
            res == area_of(
                self,
                rect,
                is_positive,
                pixels_per_point,
                rounded_width,
                rounded_height,
            ),
    {
        if !is_positive {
            return None;
        }
        Some(
            VideoExportArea {
                name: self.name,
                rect,
                views: self.views,
                pixels_per_point,
                rounded_width,
                rounded_height,
            },
        )
    }
}

/// What the time control of a recording shows.
#[derive(Debug, PartialEq, Eq)]
pub struct TimeControlState {
    pub timeline: String,
    pub time: Option<TimeReal>,
    pub play_state: PlayState,
    /// The frames per second, as the bits of an `f32`.
    pub fps: u32,
}

/// What a video will show, from when to when.
#[derive(Debug, PartialEq, Eq)]
pub struct VideoExportPlan {
    pub export_area: VideoExportArea,
    pub time_control: TimeControlState,
    pub crop_range: TimeRange,
}

impl VideoExporter {
    /// Whether a video export can start at all, and if not, what to tell the user.
    pub fn check_export_can_start(&self, has_recording: bool, encoding_in_progress: bool) -> (res:
        Result<(), String>)
        ensures
            match res {
                Ok(()) => start_refusal(
                    has_recording,
                    self.current() is Some,
                    encoding_in_progress,
                ) is None,
                Err(text) => start_refusal(
                    has_recording,
                    self.current() is Some,
                    encoding_in_progress,
                ) == Some(text@),
            },
    {
        if !has_recording {
            return Err("No recording data to export".to_owned());
        }
        if self.is_cropped_video_busy(encoding_in_progress) {
            return Err("A cropped video export is already in progress".to_owned());
        }
        Ok(())
    }
}

/// The selected range if it is on the active timeline, and everything otherwise.
pub open spec fn crop_range(
    timeline: Seq<char>,
    loop_selection: Option<TimeSelection>,
    full_range: TimeRange,
) -> TimeRange {
    match loop_selection {
        Some(selection) => if selection.timeline@ == timeline {
            selection.range
        } else {
            full_range
        },
        None => full_range,
    }
}

/// What a video will show: the area and the time control if there are any, and the range of times
/// on the active timeline, all of which is `full_range` if the timeline has data.
pub fn plan_video_export(
    export_area: Option<VideoExportArea>,
    time_control: Option<TimeControlState>,
    full_range: Option<TimeRange>,
    loop_selection: Option<TimeSelection>,
) -> (res: Result<VideoExportPlan, String>)
    ensures
        is_planned(export_area, time_control, full_range, loop_selection, res),
{
    let export_area = match export_area {
        Some(export_area) => export_area,
        None => {
            return Err("No visible viewport layout is available for video export".to_owned());
        },
    };
    let time_control = match time_control {
        Some(time_control) => time_control,
        None => {
            return Err("No time control available for the active recording".to_owned());
        },
    };
    let full_range = match full_range {
        Some(full_range) => full_range,
        None => {
            return Err("The active timeline has no temporal data".to_owned());
        },
    };
    let crop_range = match loop_selection {
        Some(selection) => if selection.timeline == time_control.timeline {
            selection.range
        } else {
            full_range
        },
        None => full_range,
    };
    Ok(VideoExportPlan { export_area, time_control, crop_range })
}

/// Whether there is anything to show in the range of a plan, and if not, what to tell the user.
pub fn check_frames(frame_times: &Vec<i64>) -> (res: Result<(), String>)
    ensures
        res is Ok <==> frame_times@.len() > 0,
        res matches Err(text) ==> text@
            == "The current crop range contains no frames on the active timeline"@,
{
    if frame_times.len() == 0 {
        return Err(
            "The current crop range contains no frames on the active timeline".to_owned(),
        );
    }
    Ok(())
}

/// What follows when the user was asked where to save a video.
#[derive(Debug, PartialEq, Eq)]
pub enum PathStep {
    /// The user did not pick a file.
    Cancelled(Vec<Effect>),
    /// Make a directory for the frames of this export.
    CreateTempDir { export_id: u64, output_path: String },
}

/// The id that is handed out next, after the user was asked where to save a video.
pub open spec fn next_id(next_export_id: nat, picked: bool) -> nat {
    if picked {
        next_export_id + 1
    } else {
        next_export_id
    }
}

impl VideoExporter {
    /// Hands out the id of the next export if the user picked a file.
    pub fn on_video_path_chosen(&mut self, output_path: Option<String>) -> (res: PathStep)
        requires
            old(self).wf(),
            output_path is Some ==> old(self).next_export_id < u64::MAX,
        ensures
            final(self).wf(),
            final(self).cropped_video_export == old(self).cropped_video_export,
            final(self).next_export_id == next_id(
                old(self).next_export_id as nat,
                output_path is Some,
            ),
            match output_path {
                Some(path) => {
                    &&& res == (PathStep::CreateTempDir {
                        export_id: old(self).next_export_id,
                        output_path: path,
                    })
                    &&& final(self).next_export_id == old(self).next_export_id + 1
                },
                None => {
                    &&& res matches PathStep::Cancelled(effects)
                    &&& commands::viewed(effects@) == seq![
                        commands::reported(
                            Severity::Info,
                            "No file selected - video not saved."@,
                        ),
                    ]
                    &&& final(self).next_export_id == old(self).next_export_id
                },
            },
    {
        match output_path {
            Some(output_path) => {
                let export_id: u64 = self.next_export_id;
                self.next_export_id = export_id + 1;
                PathStep::CreateTempDir { export_id, output_path }
            },
            None => PathStep::Cancelled(
                commands::just(
                    commands::report(
                        Severity::Info,
                        "No file selected - video not saved.".to_owned(),
                    ),
                ),
            ),
        }
    }
}

/// The next id after the user was asked several times where to save a video, and picked a file or
/// not.
pub open spec fn next_id_after(next_export_id: nat, picks: Seq<bool>) -> nat
    decreases picks.len(),
{
    if picks.len() == 0 {
        next_export_id
    } else {
        next_id(next_id_after(next_export_id, picks.drop_last()), picks.last())
    }
}

/// The id of an export is never handed out again: each later export has a greater one.
pub proof fn ids_are_never_handed_out_again(
    next_export_id: nat,
    picks: Seq<bool>,
    earlier: int,
    later: int,
)
    requires
        0 <= earlier < later < picks.len(),
        picks[earlier],
    ensures
        next_id_after(next_export_id, picks.take(earlier)) < next_id_after(
            next_export_id,
            picks.take(later),
        ),
    decreases later,
{
    assert(picks.take(later).drop_last() =~= picks.take(later - 1));
    if earlier < later - 1 {
        ids_are_never_handed_out_again(next_export_id, picks, earlier, later - 1);
    }
}

/// An export of a plan that waits for its first frame.
pub open spec fn started_export(
    plan: VideoExportPlan,
    export_id: u64,
    store_id: StoreId,
    output_path: String,
    temp_dir: String,
    frame_head: String,
    frame_times: Vec<i64>,
) -> ExportState {
    ExportState {
        export_id,
        store_id,
        original_timeline: plan.time_control.timeline,
        original_time: plan.time_control.time,
        original_play_state: plan.time_control.play_state,
        export_area: plan.export_area,
        output_path,
        temp_dir,
        frame_head,
        frame_times,
        frame_index: 0,
        frames_until_capture: 1,
        phase: CroppedVideoExportPhase::AwaitRenderedFrame,
        fps: plan.time_control.fps,
        captured: Map::empty(),
    }
}

/// The effects of starting an export: the recording is paused at the first frame.
pub open spec fn start_effects(export: ExportState) -> Seq<EffectView> {
    seq![
        commands::time_commands_sent(
            export.store_id,
            seq![
                TimeControlCommand::SetActiveTimeline(export.original_timeline),
                TimeControlCommand::SetPlayState(PlayState::Paused),
                TimeControlCommand::SetTime(TimeTarget::Int(export.frame_times@[0])),
            ],
        ),
        commands::reported(
            Severity::Info,
            "Starting video export for "@ + text::quoted(export.export_area.name@) + " with "@
                + text::decimal(export.frame_times@.len()) + " frame(s)."@,
        ),
        EffectOf::RequestRepaint,
    ]
}

impl VideoExporter {
    /// Starts an export whose id was handed out.
    pub fn start_export(
        &mut self,
        plan: VideoExportPlan,
        export_id: u64,
        store_id: StoreId,
        output_path: String,
        temp_dir: String,
        frame_times: Vec<i64>,
    ) -> (res: Vec<Effect>)
        requires
            frame_times@.len() > 0,
            export_id < old(self).next_export_id,
        ensures
            final(self).wf(),
            final(self).next_export_id == old(self).next_export_id,
            final(self).current() matches Some(export) && text::in_directory(
                temp_dir@,
                "frame_"@,
                export.frame_head@,
            ) && export == started_export(
                plan,
                export_id,
                store_id,
                output_path,
                temp_dir,
                export.frame_head,
                frame_times,
            ) && commands::viewed(res@) == start_effects(export),
    {
        let frame_head = video_files::frame_files_head(temp_dir.as_str());
        let ghost state = started_export(
            plan,
            export_id,
            store_id,
            output_path,
            temp_dir,
            frame_head,
            frame_times,
        );
        let first_time: i64 = frame_times[0];
        let mut time_commands = commands::one_time_command(
            TimeControlCommand::SetActiveTimeline(plan.time_control.timeline.clone()),
        );
        time_commands.push(TimeControlCommand::SetPlayState(PlayState::Paused));
        time_commands.push(TimeControlCommand::SetTime(TimeTarget::Int(first_time)));
        assert(time_commands@ =~= seq![
            TimeControlCommand::SetActiveTimeline(plan.time_control.timeline),
            TimeControlCommand::SetPlayState(PlayState::Paused),
            TimeControlCommand::SetTime(TimeTarget::Int(first_time)),
        ]);
        let text = "Starting video export for ".to_owned().concat(
            text::quote(plan.export_area.name.as_str()).as_str(),
        ).concat(" with ").concat(text::decimal_text(frame_times.len() as u128).as_str()).concat(
            " frame(s).",
        );
        let effects = commands::three(
            commands::send_time_commands(store_id.clone(), time_commands),
            commands::report(Severity::Info, text),
            EffectOf::RequestRepaint,
        );
        assert(commands::viewed(effects@) =~= start_effects(state));
        let export = CroppedVideoExport {
            export_id,
            store_id,
            original_timeline: plan.time_control.timeline,
            original_time: plan.time_control.time,
            original_play_state: plan.time_control.play_state,
            export_area: plan.export_area,
            output_path,
            temp_dir,
            frame_head,
            frame_times,
            frame_index: 0,
            frames_until_capture: 1,
            phase: CroppedVideoExportPhase::AwaitRenderedFrame,
            fps: plan.time_control.fps,
            captured_views: HashMap::default(),
        };
        assert(export@.captured =~= state.captured);
        assert(export@ == state);
        self.cropped_video_export = Some(export);
        effects
    }
}

/// At whatever frame the capture of an export is given up or finishes, the recording is brought back
/// to where it was when the export started.
pub proof fn captures_bring_back_what_was_shown(
    plan: VideoExportPlan,
    export_id: u64,
    store_id: StoreId,
    output_path: String,
    temp_dir: String,
    frame_head: String,
    frame_times: Vec<i64>,
    count: nat,
    reason: Seq<char>,
)
    requires
        frame_times@.len() > 0,
    ensures
        ({
            let start = started_export(
                plan,
                export_id,
                store_id,
                output_path,
                temp_dir,
                frame_head,
                frame_times,
            );
            let timeline = seq![TimeControlCommand::SetActiveTimeline(plan.time_control.timeline)];
            let time = match plan.time_control.time {
                Some(time) => seq![TimeControlCommand::SetTime(TimeTarget::Real(time))],
                None => Seq::<TimeControlCommand>::empty(),
            };
            let play_state = seq![TimeControlCommand::SetPlayState(plan.time_control.play_state)];
            let back = commands::time_commands_sent(store_id, timeline + time + play_state);
            video_export::after_frames(Some(start), count) matches Some(export) ==> {
                &&& video_export::abort_effects(Some(export), reason)[1] == back
                &&& video_export::finish_effects(Some(export))[1] == back
            }
        }),
{
    let start = started_export(
        plan,
        export_id,
        store_id,
        output_path,
        temp_dir,
        frame_head,
        frame_times,
    );
    video_export::every_frame_is_captured_in_order(start, count);
    if let Some(export) = video_export::after_frames(Some(start), count) {
        video_export::every_ending_restores(export, reason);
    }
}

/// The progress of a video, and what to call it in the user interface.
#[derive(Debug, PartialEq, Eq)]
pub struct ExportProgress {
    pub title: String,
    pub details: String,
}

impl VideoExporter {
    /// What to show of an export: how many frames were captured, or that the video is encoded.
    pub fn progress(&self, encoding_in_progress: bool) -> (res: Option<ExportProgress>)
        requires
            self.wf(),
        ensures
            (match res {
                Some(progress) => Some((progress.title@, progress.details@)),
                None => None,
            }) == shown_progress(self.current(), encoding_in_progress),
    {
        match &self.cropped_video_export {
            Some(export) => {
                assert(export.frame_index < export.frame_times.len());
                let current = text::decimal_text((export.frame_index + 1) as u128);
                let all = text::decimal_text(export.frame_times.len() as u128);
                Some(
                    ExportProgress {
                        title: "cropped_video_capture_spin".to_owned(),
                        details: "Capturing cropped video\u{2026} ".to_owned().concat(
                            current.as_str(),
                        ).concat("/").concat(all.as_str()),
                    },
                )
            },
            None => {
                if encoding_in_progress {
                    Some(
                        ExportProgress {
                            title: "cropped_video_encode_spin".to_owned(),
                            details: "Encoding cropped video\u{2026}".to_owned(),
                        },
                    )
                } else {
                    None
                }
            },
        }
    }
}

/// What to tell the user about a video that was encoded, or could not be.
pub open spec fn encoded_effects(outcome: Result<String, String>) -> Seq<EffectView> {
    match outcome {
        Ok(path) => seq![
            commands::reported(
                Severity::Info,
                "Cropped video saved to "@ + text::quoted_path(path@) + "."@,
            ),
        ],
        Err(err) => seq![commands::reported(Severity::Error, err@)],
    }
}

/// Tells the user about a video that was encoded, or could not be.
pub fn on_video_encoded(outcome: Result<String, String>) -> (res: Vec<Effect>)
    ensures
        commands::viewed(res@) == encoded_effects(outcome),
{
    match outcome {
        Ok(path) => {
            let text = "Cropped video saved to ".to_owned().concat(
                text::quote_path(path.as_str()).as_str(),
            ).concat(".");
            commands::just(commands::report(Severity::Info, text))
        },
        Err(err) => commands::just(commands::report(Severity::Error, err)),
    }
}

/// A view is captured if and only if it is there and was shown, and is captured where it was shown.
/// The views stay in order.
pub proof fn shown_views_are_captured(views: Seq<ViewportView>, view: ViewportView)
    ensures
        ({
            let shows = view.class_identifier is Some && view.info is Some;
            &&& visible(Seq::<ViewportView>::empty()).len() == 0
            &&& visible(views.push(view)) == if shows {
                visible(views).push(view)
            } else {
                visible(views)
            }
            &&& layout(view).view_id == view.view_id
            &&& layout(view).label == view.label
            &&& view.info matches Some(info) ==> layout(view).rect == info.rect
        }),
{
    reveal(Seq::filter);
    assert(views.push(view).drop_last() =~= views);
}

/// A video can be made if and only if some view is shown, and the renderer can capture every view that
/// is shown: views of spatial data in two or three dimensions, and maps. Other views do not matter.
pub proof fn videos_need_views_that_can_be_captured(
    views: Seq<ViewportView>,
    classes: CapturableClasses,
)
    ensures
        can_be_captured(views, classes) <==> (exists|i: int|
            0 <= i < views.len() && #[trigger] is_visible(views[i])) && (forall|i: int|
            0 <= i < views.len() && #[trigger] is_visible(views[i]) ==> ({
                let class = (views[i].class_identifier->0)@;
                class == classes.spatial_2d@ || class == classes.spatial_3d@ || class
                    == classes.map@
            })),
{
    let shown = |view: ViewportView| is_visible(view);
    let all = visible(views);
    assert forall|i: int| 0 <= i < views.len() && #[trigger] is_visible(views[i]) implies all.contains(
        views[i],
    ) by {
        views.lemma_filter_contains(shown, i);
    }
    assert forall|k: int| 0 <= k < all.len() implies is_visible(#[trigger] all[k])
        && views.contains(all[k]) by {
        views.lemma_filter_pred(shown, k);
        assert(all.contains(all[k]));
        views.lemma_filter_contains_rev(shown, all[k]);
        assert(shown(all[k]));
    }
    if all.len() > 0 {
        assert(views.contains(all[0]));
        let i = choose|i: int| 0 <= i < views.len() && views[i] == all[0];
        assert(is_visible(views[i]));
    }
    if can_be_captured(views, classes) {
        assert forall|i: int| 0 <= i < views.len() && #[trigger] is_visible(views[i]) implies classes.has(
            (views[i].class_identifier->0)@,
        ) by {
            assert(all.contains(views[i]));
            let k = choose|k: int| 0 <= k < all.len() && all[k] == views[i];
            assert(classes.has((all[k].class_identifier->0)@));
        }
    }
    if (exists|i: int| 0 <= i < views.len() && #[trigger] is_visible(views[i])) && (forall|i: int|
        0 <= i < views.len() && #[trigger] is_visible(views[i]) ==> classes.has(
            (views[i].class_identifier->0)@,
        )) {
        let i = choose|i: int| 0 <= i < views.len() && #[trigger] is_visible(views[i]);
        assert(all.contains(views[i]));
        assert forall|k: int| #![trigger all[k]] 0 <= k < all.len() implies classes.has(
            (all[k].class_identifier->0)@,
        ) by {
            assert(views.contains(all[k]));
            let j = choose|j: int| 0 <= j < views.len() && views[j] == all[k];
            assert(is_visible(views[j]));
        }
    }
}

/// A video of one view is named after the view, and one of several views is not named after any.
pub proof fn videos_of_one_view_have_its_name(views: Seq<ViewportView>)
    ensures
        visible(views).len() == 1 ==> area_name(views) == (visible(views)[0].info->0).name@,
        visible(views).len() > 1 ==> area_name(views) == "viewport"@,
{
}

/// A video shows the selected range if and only if that is on the timeline that is shown; a selection
/// on another timeline does not matter.
pub proof fn selections_count_on_their_timeline(
    timeline: Seq<char>,
    selection: TimeSelection,
    full_range: TimeRange,
)
    ensures
        crop_range(timeline, None, full_range) == full_range,
        selection.timeline@ == timeline ==> crop_range(timeline, Some(selection), full_range)
            == selection.range,
        selection.timeline@ != timeline ==> crop_range(timeline, Some(selection), full_range)
            == crop_range(timeline, None, full_range),
{
}

/// An export starts at the first of its frames, and remembers what was shown. The recording is paused
/// there, on the timeline that is shown, before anything is captured.
pub proof fn exports_start_at_the_first_frame(
    plan: VideoExportPlan,
    export_id: u64,
    store_id: StoreId,
    output_path: String,
    temp_dir: String,
    frame_head: String,
    frame_times: Vec<i64>,
)
    requires
        frame_times@.len() > 0,
    ensures
        ({
            let export = started_export(
                plan,
                export_id,
                store_id,
                output_path,
                temp_dir,
                frame_head,
                frame_times,
            );
            let effects = start_effects(export);
            &&& export.export_id == export_id
            &&& export.frame_index == 0
            &&& export.frame_times == frame_times
            &&& export.export_area == plan.export_area
            &&& export.fps == plan.time_control.fps
            &&& export.output_path == output_path
            &&& export.temp_dir == temp_dir
            &&& export.captured.dom().len() == 0
            &&& !video_export::due(export)
            &&& video_export::due(video_export::after_painting(export))
            &&& effects.len() == 3
            &&& effects[0] == EffectView::SendSystem(
                SystemCommandOf::TimeControlCommands {
                    store_id,
                    time_commands: seq![
                        TimeControlCommand::SetActiveTimeline(plan.time_control.timeline),
                        TimeControlCommand::SetPlayState(PlayState::Paused),
                        TimeControlCommand::SetTime(TimeTarget::Int(frame_times@[0])),
                    ],
                },
            )
            &&& effects[1] matches EffectOf::Report { severity, .. }
            &&& severity == Severity::Info
            &&& effects[2] == EffectView::RequestRepaint
        }),
{
}

/// A video that was encoded is told about with its path, and one that was not as an error, with the
/// reason.
pub proof fn encoded_videos_are_told_about(outcome: Result<String, String>)
    ensures
        ({
            let effects = encoded_effects(outcome);
            &&& effects.len() == 1
            &&& match outcome {
                Ok(path) => effects[0] == EffectView::Report {
                    severity: Severity::Info,
                    text: "Cropped video saved to "@ + text::quoted_path(path@) + "."@,
                },
                Err(err) => effects[0] == EffectView::Report {
                    severity: Severity::Error,
                    text: err@,
                },
            }
        }),
{
}

/// The area of a video: there is one unless it is empty.
pub open spec fn area_of(
    captured: CapturedViews,
    rect: UiRect,
    is_positive: bool,
    pixels_per_point: u32,
    rounded_width: u32,
    rounded_height: u32,
) -> Option<VideoExportArea> {
    if is_positive {
        Some(
            VideoExportArea {
                name: captured.name,
                rect,
                views: captured.views,
                pixels_per_point,
                rounded_width,
                rounded_height,
            },
        )
    } else {
        None
    }
}

/// Why no export can be started, if none can.
pub open spec fn start_refusal(has_recording: bool, is_capturing: bool, is_encoding: bool) -> Option<
    Seq<char>,
> {
    if !has_recording {
        Some("No recording data to export"@)
    } else if is_capturing || is_encoding {
        Some("A cropped video export is already in progress"@)
    } else {
        None
    }
}

/// What is to be exported, or what is missing.
pub open spec fn is_planned(
    export_area: Option<VideoExportArea>,
    time_control: Option<TimeControlState>,
    full_range: Option<TimeRange>,
    loop_selection: Option<TimeSelection>,
    planned: Result<VideoExportPlan, String>,
) -> bool {
    match (export_area, time_control, full_range) {
        (None, _, _) => planned matches Err(text) && text@
            == "No visible viewport layout is available for video export"@,
        (Some(_), None, _) => planned matches Err(text) && text@
            == "No time control available for the active recording"@,
        (Some(_), Some(_), None) => planned matches Err(text) && text@
            == "The active timeline has no temporal data"@,
        (Some(export_area), Some(time_control), Some(full_range)) => planned == Ok::<_, String>(
            VideoExportPlan {
                export_area,
                time_control,
                crop_range: crop_range(time_control.timeline@, loop_selection, full_range),
            },
        ),
    }
}

/// What the user sees of an export: its title and its details.
pub open spec fn shown_progress(current: Option<ExportState>, is_encoding: bool) -> Option<
    (Seq<char>, Seq<char>),
> {
    match current {
        Some(export) => Some(
            (
                "cropped_video_capture_spin"@,
                "Capturing cropped video\u{2026} "@ + text::decimal(
                    (export.frame_index + 1) as nat,
                ) + "/"@ + text::decimal(export.frame_times@.len()),
            ),
        ),
        None => if is_encoding {
            Some(("cropped_video_encode_spin"@, "Encoding cropped video\u{2026}"@))
        } else {
            None
        },
    }
}

/// An area that is not empty is exported with all its views, under its name and in its size.
pub proof fn areas_are_exported_whole(
    captured: CapturedViews,
    rect: UiRect,
    pixels_per_point: u32,
    rounded_width: u32,
    rounded_height: u32,
)
    ensures
        area_of(captured, rect, false, pixels_per_point, rounded_width, rounded_height) is None,
        area_of(
            captured,
            rect,
            true,
            pixels_per_point,
            rounded_width,
            rounded_height,
        ) matches Some(area) && area.views == captured.views && area.name == captured.name
            && area.rect == rect && area.pixels_per_point == pixels_per_point
            && area.rounded_width == rounded_width && area.rounded_height == rounded_height,
{
}

/// There is at most one export at a time, from its first capture until it is encoded, and none without
/// a recording. In every other case one can be started.
pub proof fn one_export_at_a_time(has_recording: bool, is_capturing: bool, is_encoding: bool)
    ensures
        start_refusal(has_recording, is_capturing, is_encoding) is None <==> has_recording
            && !is_capturing && !is_encoding,
        start_refusal(false, is_capturing, is_encoding) == Some("No recording data to export"@),
        is_capturing ==> start_refusal(true, is_capturing, is_encoding) == Some(
            "A cropped video export is already in progress"@,
        ),
        is_encoding ==> start_refusal(true, is_capturing, is_encoding) == Some(
            "A cropped video export is already in progress"@,
        ),
{
}

/// An export is planned if and only if there are views, a time control and data: for these views, and
/// over the loop selection if there is one on the active timeline, or else over all of the data.
pub proof fn exports_are_planned_for_what_is_there(
    export_area: Option<VideoExportArea>,
    time_control: Option<TimeControlState>,
    full_range: Option<TimeRange>,
    loop_selection: Option<TimeSelection>,
    planned: Result<VideoExportPlan, String>,
)
    requires
        is_planned(export_area, time_control, full_range, loop_selection, planned),
    ensures
        planned is Ok <==> export_area is Some && time_control is Some && full_range is Some,
        planned matches Ok(plan) ==> {
            &&& Some(plan.export_area) == export_area
            &&& Some(plan.time_control) == time_control
            &&& loop_selection is None ==> Some(plan.crop_range) == full_range
            &&& loop_selection matches Some(selection) ==> if selection.timeline@
                == plan.time_control.timeline@ {
                plan.crop_range == selection.range
            } else {
                Some(plan.crop_range) == full_range
            }
        },
        export_area is None ==> (planned matches Err(text) && text@
            == "No visible viewport layout is available for video export"@),
        export_area is Some && time_control is None ==> (planned matches Err(text) && text@
            == "No time control available for the active recording"@),
        export_area is Some && time_control is Some && full_range is None ==> (
        planned matches Err(text) && text@ == "The active timeline has no temporal data"@),
{
}

/// Users see an export for as long as it goes on, with the number of the frame it is at, counted from
/// one. While frames are captured, that is what they see.
pub proof fn exports_are_seen_while_they_go_on(export: ExportState, is_encoding: bool)
    ensures
        shown_progress(Some(export), is_encoding) == Some(
            (
                "cropped_video_capture_spin"@,
                "Capturing cropped video\u{2026} "@ + text::decimal(
                    (export.frame_index + 1) as nat,
                ) + "/"@ + text::decimal(export.frame_times@.len()),
            ),
        ),
        shown_progress(None, true) == Some(
            ("cropped_video_encode_spin"@, "Encoding cropped video\u{2026}"@),
        ),
        shown_progress(None, false) is None,
{
}

} // verus!
