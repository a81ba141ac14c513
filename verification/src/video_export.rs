//! The export of a video: a recording is played frame by frame, the visible views are captured,
//! and the captures are put together to frame files.
use ahash::HashMap;
use crate::commands;
use crate::commands::Effect;
use crate::commands::EffectOf;
use crate::commands::EffectView;
use crate::commands::Severity;
use crate::commands::SystemCommandOf;
use crate::gpu_bridge;
use crate::gpu_bridge::RendererVideoExportScreenshot;
use crate::gpu_bridge::RendererVideoExportState;
use crate::gpu_bridge::WantedScreenshots;
use crate::hashed;
use crate::rgba;
use crate::rgba::Picture;
use crate::rgba::Rgba;
use crate::rgba::RgbaFrame;
use crate::text;
use crate::types::EncodingJob;
use crate::types::PlayState;
use crate::types::StoreId;
use crate::types::TimeControlCommand;
use crate::types::TimeReal;
use crate::types::TimeTarget;
use crate::types::UiRect;
use crate::types::ViewId;
use crate::video_files;
use vstd::prelude::*;
use vstd::string::*;

verus! {

/// What an export waits for.
#[derive(Clone, Copy, Debug, PartialEq, Eq, Structural)]
pub enum CroppedVideoExportPhase {
    AwaitRenderedFrame,
    AwaitViewScreenshots,
}

/// A view that is captured.
#[derive(Debug, PartialEq, Eq)]
pub struct VideoExportView {
    pub view_id: ViewId,
    pub rect: UiRect,
    /// How the id is printed.
    pub label: String,
}

/// What part of the window is captured.
#[derive(Debug, PartialEq, Eq)]
pub struct VideoExportArea {
    pub name: String,
    pub rect: UiRect,
    pub views: Vec<VideoExportView>,
    /// The bits of an `f32`.
    pub pixels_per_point: u32,
    /// The size in pixels, rounded.
    pub rounded_width: u32,
    pub rounded_height: u32,
}

/// At least one.
pub open spec fn at_least_one(n: u32) -> u32 {
    if n == 0 {
        1
    } else {
        n
    }
}

impl VideoExportArea {
    /// The width of a frame in pixels.
    pub open spec fn frame_width(self) -> u32 {
        at_least_one(self.rounded_width)
    }

    /// The height of a frame in pixels.
    pub open spec fn frame_height(self) -> u32 {
        at_least_one(self.rounded_height)
    }

    /// The bytes of a frame can be allocated.
    pub open spec fn frame_fits(self) -> bool {
        rgba::fits(self.frame_width(), self.frame_height(), isize::MAX as nat)
    }

    /// The size of a frame in pixels: never empty.
    pub fn frame_size(&self) -> (res: (u32, u32))
        ensures
            res == (self.frame_width(), self.frame_height()),
    {
        let width: u32 = if self.rounded_width == 0 {
            1
        } else {
            self.rounded_width
        };
        let height: u32 = if self.rounded_height == 0 {
            1
        } else {
            self.rounded_height
        };
        (width, height)
    }
}

/// The capture of one view, and where its left upper corner lies in the frame.
#[derive(Debug, PartialEq, Eq)]
pub struct CapturedVideoViewFrame {
    pub image: RgbaFrame,
    pub x: i64,
    pub y: i64,
}

/// What a capture shows, and where.
#[verifier::ext_equal]
pub struct Capture {
    pub picture: Picture,
    pub x: int,
    pub y: int,
}

impl View for CapturedVideoViewFrame {
    type V = Capture;

    open spec fn view(&self) -> Capture {
        Capture { picture: self.image@, x: self.x as int, y: self.y as int }
    }
}

/// An export in progress.
pub struct CroppedVideoExport {
    pub export_id: u64,
    pub store_id: StoreId,
    pub original_timeline: String,
    pub original_time: Option<TimeReal>,
    pub original_play_state: PlayState,
    pub export_area: VideoExportArea,
    pub output_path: String,
    pub temp_dir: String,
    /// What the paths of the frame files begin with.
    pub frame_head: String,
    pub frame_times: Vec<i64>,
    pub frame_index: usize,
    pub frames_until_capture: u8,
    pub phase: CroppedVideoExportPhase,
    /// The bits of an `f32`.
    pub fps: u32,
    pub captured_views: HashMap<u128, CapturedVideoViewFrame>,
}

/// An export in progress, as a mathematical value.
#[verifier::ext_equal]
pub struct ExportState {
    pub export_id: u64,
    pub store_id: StoreId,
    pub original_timeline: String,
    pub original_time: Option<TimeReal>,
    pub original_play_state: PlayState,
    pub export_area: VideoExportArea,
    pub output_path: String,
    pub temp_dir: String,
    pub frame_head: String,
    pub frame_times: Vec<i64>,
    pub frame_index: usize,
    pub frames_until_capture: u8,
    pub phase: CroppedVideoExportPhase,
    pub fps: u32,
    pub captured: Map<u128, Capture>,
}

impl View for CroppedVideoExport {
    type V = ExportState;

    open spec fn view(&self) -> ExportState {
        ExportState {
            export_id: self.export_id,
            store_id: self.store_id,
            original_timeline: self.original_timeline,
            original_time: self.original_time,
            original_play_state: self.original_play_state,
            export_area: self.export_area,
            output_path: self.output_path,
            temp_dir: self.temp_dir,
            frame_head: self.frame_head,
            frame_times: self.frame_times,
            frame_index: self.frame_index,
            frames_until_capture: self.frames_until_capture,
            phase: self.phase,
            fps: self.fps,
            captured: self.captured_views@.map_values(|frame: CapturedVideoViewFrame| frame@),
        }
    }
}

impl CroppedVideoExport {
    /// The current frame is one of the frames, the frame files lie in their directory, and the
    /// captures hold all their pixels.
    pub open spec fn wf(self) -> bool {
        &&& self.frame_index < self.frame_times@.len()
        &&& text::in_directory(self.temp_dir@, "frame_"@, self.frame_head@)
        &&& forall|id: u128| #[trigger]
            self.captured_views@.dom().contains(id) ==> self.captured_views@[id].image.wf()
    }
}

/// The time commands that bring back what was shown before an export.
pub open spec fn restoring_commands(export: ExportState) -> Seq<TimeControlCommand> {
    let timeline = seq![TimeControlCommand::SetActiveTimeline(export.original_timeline)];
    let time = match export.original_time {
        Some(time) => seq![TimeControlCommand::SetTime(TimeTarget::Real(time))],
        None => Seq::<TimeControlCommand>::empty(),
    };
    timeline + time + seq![TimeControlCommand::SetPlayState(export.original_play_state)]
}

/// The effect of bringing back what was shown before an export.
pub open spec fn restored(export: ExportState) -> EffectView {
    commands::time_commands_sent(export.store_id, restoring_commands(export))
}

/// Brings back what was shown before an export.
pub fn restore_after_cropped_video_export(export: &CroppedVideoExport) -> (res: Effect)
    ensures
        res@ == restored(export@),
{
    let mut time_commands = commands::one_time_command(
        TimeControlCommand::SetActiveTimeline(export.original_timeline.clone()),
    );
    if let Some(time) = export.original_time {
        time_commands.push(TimeControlCommand::SetTime(TimeTarget::Real(time)));
    }
    time_commands.push(TimeControlCommand::SetPlayState(export.original_play_state));
    assert(time_commands@ =~= restoring_commands(export@));
    commands::send_time_commands(export.store_id.clone(), time_commands)
}

/// The captures as layers, in the order of the views.
pub open spec fn layers(
    views: Seq<VideoExportView>,
    captured: Map<u128, Capture>,
) -> Seq<(Picture, int, int)> {
    views.map_values(
        |view: VideoExportView|
            {
                let capture = captured[view.view_id.id];
                (capture.picture, capture.x, capture.y)
            },
    )
}

/// The first of the views, from number `from` on, that was not captured.
pub open spec fn first_missing(
    views: Seq<VideoExportView>,
    captured: Map<u128, Capture>,
    from: nat,
) -> Option<nat>
    decreases views.len() - from,
{
    if from >= views.len() {
        None
    } else if !captured.dom().contains(views[from as int].view_id.id) {
        Some(from)
    } else {
        first_missing(views, captured, from + 1)
    }
}

/// The frame that the captures make on a background.
pub open spec fn composited_frame(export: ExportState, background: Rgba) -> Picture {
    rgba::composited(
        rgba::filled(
            export.export_area.frame_width() as nat,
            export.export_area.frame_height() as nat,
            background,
        ),
        layers(export.export_area.views@, export.captured),
    )
}

/// Puts the captures of the views together, or tells which view was not captured.
pub fn composite_cropped_video_frame(export: &CroppedVideoExport, background: Rgba) -> (res: Result<
    RgbaFrame,
    String,
>)
    requires
        export.wf(),
        export.export_area.frame_fits(),
    ensures
        match first_missing(export.export_area.views@, export@.captured, 0) {
            Some(i) => res matches Err(text) && text@ == "Missing captured view image for "@
                + export.export_area.views@[i as int].label@,
            None => res matches Ok(frame) && frame@ == composited_frame(export@, background)
                && frame.width == export.export_area.frame_width() && frame.height
                == export.export_area.frame_height() && frame.data@ == rgba::picture_bytes(frame@),
        },
{
    let (width, height) = export.export_area.frame_size();
    let mut frame = rgba::frame_of_color(width, height, background);
    let ghost base = frame@;
    let ghost views = export.export_area.views@;
    let ghost captured = export@.captured;
    let ghost all = layers(views, captured);
    let mut i: usize = 0;
    assert(all.take(0) =~= Seq::<(Picture, int, int)>::empty());
    while i < export.export_area.views.len()
        invariant
            i <= views.len(),
            views == export.export_area.views@,
            captured == export@.captured,
            all == layers(views, captured),
            export.wf(),
            width == export.export_area.frame_width(),
            height == export.export_area.frame_height(),
            frame.width == width,
            frame.height == height,
            4 * width <= usize::MAX,
            frame.data@.len() == rgba::frame_bytes(width as nat, height as nat),
            frame@ == rgba::composited(base, all.take(i as int)),
            first_missing(views, captured, 0) == first_missing(views, captured, i as nat),
        decreases views.len() - i,
    {
        let view = &export.export_area.views[i];
        match hashed::map_get(&export.captured_views, view.view_id.id) {
            None => {
                return Err("Missing captured view image for ".to_owned().concat(view.label.as_str()));
            },
            Some(capture) => {
                frame = rgba::overlay(frame, &capture.image, capture.x, capture.y);
                assert(all.take(i + 1).drop_last() =~= all.take(i as int));
                assert(all.take(i + 1).last() == all[i as int]);
            },
        }
        i = i + 1;
    }
    assert(all.take(i as int) =~= all);
    proof {
        rgba::tight_frames_hold_their_picture(frame);
    }
    Ok(frame)
}

/// The frame files that an export has written.
pub open spec fn encoding_job(export: ExportState) -> EncodingJob {
    EncodingJob {
        temp_dir: export.temp_dir,
        frame_head: export.frame_head,
        output_path: export.output_path,
        fps: export.fps,
        frame_count: export.frame_times.len(),
        name: export.export_area.name,
    }
}

/// The screenshots that are wanted of a frame.
#[derive(Debug, PartialEq, Eq)]
pub struct FrameRequest {
    pub export_id: u64,
    pub frame_index: usize,
    pub view_ids: Vec<ViewId>,
}

/// What comes after a capture came in.
#[derive(Debug, PartialEq, Eq)]
pub enum CaptureStep {
    /// The capture was not for the current frame.
    Ignored,
    /// Other views are still to be captured.
    AwaitOthers,
    /// The export cannot go on.
    Failed(String),
    /// The frame is complete: write it to a file.
    WriteFrame { path: String, png: Vec<u8> },
}

/// The export in progress, if there is one, and the id of the next one.
pub struct VideoExporter {
    pub cropped_video_export: Option<CroppedVideoExport>,
    pub next_export_id: u64,
}

impl VideoExporter {
    /// The export in progress is well formed, and its id is not handed out again.
    pub open spec fn wf(self) -> bool {
        self.cropped_video_export matches Some(export) ==> export.wf() && export.export_id
            < self.next_export_id
    }

    /// The export in progress.
    pub open spec fn current(self) -> Option<ExportState> {
        match self.cropped_video_export {
            Some(export) => Some(export@),
            None => None,
        }
    }

    /// No export is in progress.
    pub fn new() -> (res: Self)
        ensures
            res.wf(),
            res.current() is None,
            res.next_export_id == 1,
    {
        VideoExporter { cropped_video_export: None, next_export_id: 1 }
    }

    /// Whether a video is being captured or encoded.
    pub fn is_cropped_video_busy(&self, encoding_in_progress: bool) -> (res: bool)
        ensures
            res == (self.current() is Some || encoding_in_progress),
    {
        self.cropped_video_export.is_some() || encoding_in_progress
    }
}

/// What remains of an export whose capture ends: what was wanted of the renderer is taken back, and what
/// was shown before comes back.
pub open spec fn ended(export: Option<ExportState>) -> Seq<EffectView> {
    match export {
        Some(export) => seq![EffectOf::ClearVideoRequest, restored(export)],
        None => seq![EffectOf::ClearVideoRequest],
    }
}

/// The effects of giving an export up.
pub open spec fn abort_effects(export: Option<ExportState>, reason: Seq<char>) -> Seq<EffectView> {
    let cleanup = match export {
        Some(export) => seq![EffectOf::RemoveDir(export.temp_dir)],
        None => Seq::<EffectView>::empty(),
    };
    ended(export) + cleanup + seq![commands::reported(Severity::Error, reason)]
}

/// The effects of having captured all frames.
pub open spec fn finish_effects(export: Option<ExportState>) -> Seq<EffectView> {
    let encoding = match export {
        Some(export) => seq![EffectOf::EncodeVideo(encoding_job(export))],
        None => Seq::<EffectView>::empty(),
    };
    ended(export) + encoding
}

impl VideoExporter {
    fn end(&mut self) -> (res: (Vec<Effect>, Option<CroppedVideoExport>))
        ensures
            commands::viewed(res.0@) == ended(old(self).current()),
            res.1 == old(self).cropped_video_export,
            final(self).cropped_video_export is None,
            final(self).next_export_id == old(self).next_export_id,
    {
        let export = self.cropped_video_export.take();
        match export {
            Some(export) => {
                let effects = commands::both(
                    EffectOf::ClearVideoRequest,
                    restore_after_cropped_video_export(&export),
                );
                (effects, Some(export))
            },
            None => (commands::just(EffectOf::ClearVideoRequest), None),
        }
    }

    /// Gives the export up for a reason that the user is told.
    pub fn abort_cropped_video_export(&mut self, reason: String) -> (res: Vec<Effect>)
        ensures
            commands::viewed(res@) == abort_effects(old(self).current(), reason@),
            final(self).current() is None,
            final(self).wf(),
            final(self).next_export_id == old(self).next_export_id,
    {
        let (mut effects, export) = self.end();
        if let Some(export) = export {
            commands::put(&mut effects, EffectOf::RemoveDir(export.temp_dir));
        }
        commands::put(&mut effects, commands::report(Severity::Error, reason));
        assert(commands::viewed(effects@) =~= abort_effects(old(self).current(), reason@));
        effects
    }

    /// Ends the capture of an export, and has its frames encoded.
    pub fn finish_cropped_video_capture(&mut self) -> (res: Vec<Effect>)
        ensures
            commands::viewed(res@) == finish_effects(old(self).current()),
            final(self).current() is None,
            final(self).wf(),
            final(self).next_export_id == old(self).next_export_id,
    {
        let (mut effects, export) = self.end();
        if let Some(export) = export {
            let job = EncodingJob {
                temp_dir: export.temp_dir,
                frame_head: export.frame_head,
                output_path: export.output_path,
                fps: export.fps,
                frame_count: export.frame_times.len(),
                name: export.export_area.name,
            };
            commands::put(&mut effects, EffectOf::EncodeVideo(job));
        }
        assert(commands::viewed(effects@) =~= finish_effects(old(self).current()));
        effects
    }
}

/// What to tell the user once the encoding of a video was started in the background, or could not
/// be.
pub open spec fn encoding_started_effects(
    job: EncodingJob,
    started: Result<(), String>,
) -> Seq<EffectView> {
    match started {
        Ok(()) => seq![
            commands::reported(
                Severity::Info,
                "Captured "@ + text::decimal(job.frame_count as nat) + " frame(s) for "@
                    + text::quoted(job.name@) + "; encoding MP4 in the background."@,
            ),
        ],
        Err(err) => seq![
            EffectOf::RemoveDir(job.temp_dir),
            commands::reported(
                Severity::Error,
                "Failed to start cropped video export: "@ + err@,
            ),
        ],
    }
}

/// Tells the user that the encoding of a video was started in the background, or cleans up where
/// it could not be.
pub fn on_encoding_started(job: EncodingJob, started: Result<(), String>) -> (res: Vec<Effect>)
    ensures
        commands::viewed(res@) == encoding_started_effects(job, started),
{
    match started {
        Ok(()) => {
            let text = "Captured ".to_owned().concat(
                text::decimal_text(job.frame_count as u128).as_str(),
            ).concat(" frame(s) for ").concat(text::quote(job.name.as_str()).as_str()).concat(
                "; encoding MP4 in the background.",
            );
            commands::just(commands::report(Severity::Info, text))
        },
        Err(err) => {
            let text = "Failed to start cropped video export: ".to_owned().concat(err.as_str());
            commands::both(
                EffectOf::RemoveDir(job.temp_dir),
                commands::report(Severity::Error, text),
            )
        },
    }
}

/// The view ids of views.
pub open spec fn view_ids(views: Seq<VideoExportView>) -> Seq<ViewId> {
    views.map_values(|view: VideoExportView| view.view_id)
}

/// An export after a frame of the window was painted.
pub open spec fn after_painting(export: ExportState) -> ExportState {
    if export.phase != CroppedVideoExportPhase::AwaitRenderedFrame {
        export
    } else if export.frames_until_capture > 0 {
        ExportState {
            frames_until_capture: (export.frames_until_capture - 1) as u8,
            ..export
        }
    } else {
        ExportState { phase: CroppedVideoExportPhase::AwaitViewScreenshots, ..export }
    }
}

/// The screenshots of the current frame are to be taken in this frame of the window.
pub open spec fn due(export: ExportState) -> bool {
    export.phase == CroppedVideoExportPhase::AwaitRenderedFrame && export.frames_until_capture == 0
}

impl VideoExporter {
    /// Says whose screenshots are to be taken in this frame of the window, and whether another
    /// one has to be painted.
    pub fn prepare_cropped_video_export_frame_request(&mut self) -> (res: (
        Option<FrameRequest>,
        bool,
    ))
        requires
            old(self).wf(),
        ensures
            final(self).wf(),
            final(self).next_export_id == old(self).next_export_id,
            asks_for_frame(old(self).current(), final(self).current(), res.0, res.1),
    {
        match self.cropped_video_export.take() {
            None => (None, false),
            Some(export) => {
                let mut export = export;
                match export.phase {
                    CroppedVideoExportPhase::AwaitRenderedFrame => {
                        if export.frames_until_capture > 0 {
                            export.frames_until_capture = export.frames_until_capture - 1;
                            self.cropped_video_export = Some(export);
                            (None, true)
                        } else {
                            export.phase = CroppedVideoExportPhase::AwaitViewScreenshots;
                            let mut ids: Vec<ViewId> = Vec::new();
                            let mut i: usize = 0;
                            while i < export.export_area.views.len()
                                invariant
                                    i <= export.export_area.views@.len(),
                                    ids@ == view_ids(export.export_area.views@).take(i as int),
                                decreases export.export_area.views@.len() - i,
                            {
                                ids.push(export.export_area.views[i].view_id);
                                assert(ids@ =~= view_ids(export.export_area.views@).take(i + 1));
                                i = i + 1;
                            }
                            assert(ids@ =~= view_ids(export.export_area.views@));
                            let request = FrameRequest {
                                export_id: export.export_id,
                                frame_index: export.frame_index,
                                view_ids: ids,
                            };
                            self.cropped_video_export = Some(export);
                            (Some(request), false)
                        }
                    },
                    CroppedVideoExportPhase::AwaitViewScreenshots => {
                        self.cropped_video_export = Some(export);
                        (None, true)
                    },
                }
            },
        }
    }
}

/// The screenshots that are wanted of the renderer for an export.
pub open spec fn wanted_for(export: Option<ExportState>) -> Option<WantedScreenshots> {
    match export {
        Some(export) => if due(export) {
            Some(
                WantedScreenshots {
                    export_id: export.export_id,
                    frame_index: export.frame_index,
                    remaining: gpu_bridge::id_set(view_ids(export.export_area.views@)),
                },
            )
        } else {
            None
        },
        None => None,
    }
}

impl VideoExporter {
    /// Asks the renderer for the screenshots of this frame of the window, or for none. The result
    /// says whether another frame has to be painted.
    pub fn request_screenshots(&mut self, state: &mut RendererVideoExportState) -> (res: bool)
        requires
            old(self).wf(),
        ensures
            final(self).wf(),
            final(self).next_export_id == old(self).next_export_id,
            final(self).current() == match old(self).current() {
                Some(export) => Some(after_painting(export)),
                None => None,
            },
            final(state)@ == wanted_for(old(self).current()),
            res == (old(self).current() matches Some(export) && !due(export)),
    {
        let (request, repaint) = self.prepare_cropped_video_export_frame_request();
        match request {
            Some(request) => {
                state.set_request(request.export_id, request.frame_index, request.view_ids);
            },
            None => {
                state.clear_request();
            },
        }
        repaint
    }
}

/// A capture of `width` times `height` pixels at (`x`, `y`).
pub open spec fn capture_of(width: u32, height: u32, data: Seq<u8>, x: i64, y: i64) -> Capture {
    Capture { picture: rgba::raw_picture(width, height, data), x: x as int, y: y as int }
}

/// The screenshot belongs to the current frame of the export.
pub open spec fn is_current(
    export: ExportState,
    screenshot: RendererVideoExportScreenshot,
) -> bool {
    export.export_id == screenshot.export_id && export.frame_index == screenshot.frame_index
}

/// An export with one capture more.
pub open spec fn with_capture(export: ExportState, view_id: ViewId, capture: Capture) -> ExportState {
    ExportState { captured: export.captured.insert(view_id.id, capture), ..export }
}

/// The screenshot completes the current frame, so that the frame is put together: it belongs to that
/// frame, its bytes are all there, and with it there are as many captures as views.
pub open spec fn completes_frame(
    export: ExportState,
    screenshot: RendererVideoExportScreenshot,
    bytes_are_there: bool,
) -> bool {
    &&& is_current(export, screenshot)
    &&& bytes_are_there
    &&& export.captured.dom().insert(screenshot.view_id.id).len() >= export.export_area.views@.len()
}

/// What is to be done with an export whose current frame got another capture.
pub open spec fn capture_step_is(export: ExportState, background: Rgba, step: CaptureStep) -> bool {
    if export.captured.dom().len() < export.export_area.views@.len() {
        step is AwaitOthers
    } else {
        match first_missing(export.export_area.views@, export.captured, 0) {
            Some(i) => step matches CaptureStep::Failed(text) && text@
                == "Missing captured view image for "@
                + export.export_area.views@[i as int].label@,
            None => match rgba::png_encoded(
                export.export_area.frame_width(),
                export.export_area.frame_height(),
                rgba::picture_bytes(composited_frame(export, background)),
            ) {
                Ok(bytes) => step matches CaptureStep::WriteFrame { path, png } && png@ == bytes
                    && path@ == video_files::frame_path(
                    export.frame_head@,
                    export.frame_index as nat,
                ),
                Err(err) => step matches CaptureStep::Failed(text) && text@ == err,
            },
        }
    }
}

impl VideoExporter {
    /// Takes in the capture of a view, `width` times `height` pixels whose left upper corner lies
    /// at (`x`, `y`) in the frame; `label` is how the view's id is printed. Once all views are
    /// captured, their captures make a frame.
    pub fn handle_cropped_video_view_frame(
        &mut self,
        data: Vec<u8>,
        width: u32,
        height: u32,
        screenshot: RendererVideoExportScreenshot,
        label: &str,
        x: i64,
        y: i64,
        background: Rgba,
    ) -> (res: CaptureStep)
        requires
            old(self).wf(),
            old(self).current() matches Some(export) ==> completes_frame(
                export,
                screenshot,
                rgba::fits(width, height, data@.len()),
            ) ==> export.export_area.frame_fits(),
        ensures
            final(self).wf(),
            final(self).next_export_id == old(self).next_export_id,
            takes_capture(
                old(self).current(),
                screenshot,
                if rgba::fits(width, height, data@.len()) {
                    Some(capture_of(width, height, data@, x, y))
                } else {
                    None
                },
                label@,
                background,
                final(self).current(),
                res,
            ),
    {
        match self.cropped_video_export.take() {
            None => CaptureStep::Ignored,
            Some(export) => {
                let mut export = export;
                if export.export_id != screenshot.export_id || export.frame_index
                    != screenshot.frame_index {
                    self.cropped_video_export = Some(export);
                    return CaptureStep::Ignored;
                }
                let image = match rgba::frame_from_raw(width, height, data) {
                    Some(image) => image,
                    None => {
                        self.cropped_video_export = Some(export);
                        let text = "Failed to reconstruct renderer screenshot for ".to_owned();
                        return CaptureStep::Failed(text.concat(label));
                    },
                };
                let ghost before = export@;
                let captured = CapturedVideoViewFrame { image, x, y };
                hashed::map_insert(&mut export.captured_views, screenshot.view_id.id, captured);
                let ghost next = with_capture(
                    before,
                    screenshot.view_id,
                    capture_of(width, height, data@, x, y),
                );
                assert(export@.captured =~= next.captured);
                assert(export@ == next);
                assert(export@.captured.dom() =~= export.captured_views@.dom());
                let step = if hashed::map_len(&export.captured_views)
                    < export.export_area.views.len() {
                    CaptureStep::AwaitOthers
                } else {
                    match composite_cropped_video_frame(&export, background) {
                        Err(text) => CaptureStep::Failed(text),
                        Ok(frame) => write_step(&export, frame),
                    }
                };
                self.cropped_video_export = Some(export);
                step
            },
        }
    }
}

/// What is done after a capture was taken in.
#[derive(Debug, PartialEq, Eq)]
pub enum CaptureAction {
    /// Go on with the next capture.
    Continue(Vec<Effect>),
    /// Write the frame to a file before the next capture.
    WriteFrame { path: String, png: Vec<u8> },
    /// The export was given up; the other captures are of no use.
    Abort(Vec<Effect>),
}

impl VideoExporter {
    /// Takes in a capture as [`VideoExporter::handle_cropped_video_view_frame`] does, waits for
    /// the captures that are missing, and gives the export up if it cannot go on.
    pub fn collect_cropped_video_view_frame(
        &mut self,
        data: Vec<u8>,
        width: u32,
        height: u32,
        screenshot: RendererVideoExportScreenshot,
        label: &str,
        x: i64,
        y: i64,
        background: Rgba,
    ) -> (res: CaptureAction)
        requires
            old(self).wf(),
            old(self).current() matches Some(export) ==> completes_frame(
                export,
                screenshot,
                rgba::fits(width, height, data@.len()),
            ) ==> export.export_area.frame_fits(),
        ensures
            final(self).wf(),
            final(self).next_export_id == old(self).next_export_id,
            collects_capture(
                old(self).current(),
                screenshot,
                if rgba::fits(width, height, data@.len()) {
                    Some(capture_of(width, height, data@, x, y))
                } else {
                    None
                },
                label@,
                background,
                final(self).current(),
                res,
            ),
    {
        let ghost before = self.current();
        let ghost capture = capture_of(width, height, data@, x, y);
        let step = self.handle_cropped_video_view_frame(
            data,
            width,
            height,
            screenshot,
            label,
            x,
            y,
            background,
        );
        match step {
            CaptureStep::Ignored => CaptureAction::Continue(commands::nothing()),
            CaptureStep::AwaitOthers => CaptureAction::Continue(
                commands::just(EffectOf::RequestRepaint),
            ),
            CaptureStep::Failed(text) => {
                proof {
                    if let Some(export) = before {
                        let next = with_capture(export, screenshot.view_id, capture);
                        if is_current(export, screenshot) && rgba::fits(
                            width,
                            height,
                            data@.len(),
                        ) {
                            assert(capture_step_is(next, background, CaptureStep::Failed(text)));
                        }
                    }
                }
                CaptureAction::Abort(self.abort_cropped_video_export(text))
            },
            CaptureStep::WriteFrame { path, png } => CaptureAction::WriteFrame { path, png },
        }
    }
}

fn write_step(export: &CroppedVideoExport, frame: RgbaFrame) -> (res: CaptureStep)
    requires
        frame.data@ == rgba::picture_bytes(frame@),
    ensures
        match rgba::png_encoded(frame.width, frame.height, frame.data@) {
            Ok(bytes) => res matches CaptureStep::WriteFrame { path, png } && png@ == bytes
                && path@ == video_files::frame_path(export.frame_head@, export.frame_index as nat),
            Err(err) => res matches CaptureStep::Failed(text) && text@ == err,
        },
{
    assert(frame.data@.len() == rgba::frame_bytes(frame.width as nat, frame.height as nat))
        by (nonlinear_arith)
        requires
            frame.data@.len() == 4 * ((frame.width as nat) * (frame.height as nat)),
            rgba::frame_bytes(frame.width as nat, frame.height as nat) == 4 * (frame.width as nat)
                * (frame.height as nat),
    ;
    match rgba::encode_png(frame.width, frame.height, &frame.data) {
        Ok(png) => CaptureStep::WriteFrame {
            path: video_files::cropped_video_frame_path(
                export.frame_head.as_str(),
                export.frame_index,
            ),
            png,
        },
        Err(err) => CaptureStep::Failed(err),
    }
}

/// An export after its current frame was written: on to the next frame, or over.
pub open spec fn after_frame(export: ExportState) -> Option<ExportState> {
    if export.frame_index + 1 < export.frame_times@.len() {
        Some(
            ExportState {
                captured: Map::empty(),
                frame_index: (export.frame_index + 1) as usize,
                frames_until_capture: 1,
                phase: CroppedVideoExportPhase::AwaitRenderedFrame,
                ..export
            },
        )
    } else {
        None
    }
}

/// The effects of having written the current frame of an export.
pub open spec fn frame_effects(export: ExportState) -> Seq<EffectView> {
    match after_frame(export) {
        Some(next) => seq![
            commands::time_commands_sent(
                export.store_id,
                seq![
                    TimeControlCommand::SetTime(
                        TimeTarget::Int(export.frame_times@[next.frame_index as int]),
                    ),
                ],
            ),
            EffectOf::RequestRepaint,
        ],
        None => finish_effects(
            Some(ExportState { captured: Map::empty(), ..export }),
        ).push(EffectOf::RequestRepaint),
    }
}

impl VideoExporter {
    /// Goes on to the next frame once the current one was written, or ends the capture.
    pub fn on_frame_written(&mut self) -> (res: Vec<Effect>)
        requires
            old(self).wf(),
        ensures
            final(self).wf(),
            final(self).next_export_id == old(self).next_export_id,
            final(self).current() == after_written(old(self).current()),
            commands::viewed(res@) == written_effects(old(self).current()),
    {
        match self.cropped_video_export.take() {
            None => Vec::new(),
            Some(export) => {
                let mut export = export;
                let ghost before = export@;
                export.captured_views.clear();
                assert(export@.captured =~= Map::<u128, Capture>::empty());
                assert(export.frame_index < export.frame_times.len());
                if export.frame_index + 1 < export.frame_times.len() {
                    export.frame_index = export.frame_index + 1;
                    export.frames_until_capture = 1;
                    export.phase = CroppedVideoExportPhase::AwaitRenderedFrame;
                    let time: i64 = export.frame_times[export.frame_index];
                    let effects = commands::both(
                        commands::send_time_commands(
                            export.store_id.clone(),
                            commands::one_time_command(
                                TimeControlCommand::SetTime(TimeTarget::Int(time)),
                            ),
                        ),
                        EffectOf::RequestRepaint,
                    );
                    self.cropped_video_export = Some(export);
                    effects
                } else {
                    self.cropped_video_export = Some(export);
                    let mut effects = self.finish_cropped_video_capture();
                    commands::put(&mut effects, EffectOf::RequestRepaint);
                    effects
                }
            },
        }
    }
}

/// An export after some more of its frames were written.
pub open spec fn after_frames(export: Option<ExportState>, count: nat) -> Option<ExportState>
    decreases count,
{
    if count == 0 {
        export
    } else {
        match after_frames(export, (count - 1) as nat) {
            Some(export) => after_frame(export),
            None => None,
        }
    }
}

/// An export goes through its frames one by one, in order and without a gap, and is over after
/// the last one. It stays the same export all the time.
pub proof fn every_frame_is_captured_in_order(export: ExportState, count: nat)
    requires
        export.frame_index < export.frame_times@.len(),
    ensures
        match after_frames(Some(export), count) {
            Some(later) => {
                &&& export.frame_index + count < export.frame_times@.len()
                &&& later.frame_index == export.frame_index + count
                &&& later.export_id == export.export_id
                &&& later.store_id == export.store_id
                &&& later.frame_times == export.frame_times
                &&& restored(later) == restored(export)
                &&& encoding_job(later) == encoding_job(export)
                &&& later.frame_head == export.frame_head
            },
            None => export.frame_index + count >= export.frame_times@.len(),
        },
    decreases count,
{
    assert(export.frame_times@.len() == export.frame_times.len());
    if count > 0 {
        every_frame_is_captured_in_order(export, (count - 1) as nat);
    }
}

/// What was encoded are the files that were written: at every frame, the pattern of the encoding
/// leads to the file that the frame was written to.
pub proof fn the_encoder_finds_every_frame(export: ExportState, count: nat)
    requires
        export.frame_index < export.frame_times@.len(),
    ensures
        after_frames(Some(export), count) matches Some(later) ==> {
            &&& encoding_job(later) == encoding_job(export)
            &&& video_files::expanded(
                video_files::frame_pattern(encoding_job(export).frame_head@),
                later.frame_index as nat,
            ) == video_files::frame_path(later.frame_head@, later.frame_index as nat)
        },
{
    every_frame_is_captured_in_order(export, count);
    if let Some(later) = after_frames(Some(export), count) {
        video_files::the_pattern_leads_to_the_frames(
            export.frame_head@,
            later.frame_index as nat,
        );
    }
}

/// Whether the capture of an export is given up or finishes, nothing is wanted of the renderer any
/// more, and the timeline, the time and the play state are those from before.
pub proof fn every_ending_restores(export: ExportState, reason: Seq<char>)
    ensures
        abort_effects(Some(export), reason)[0] == EffectView::ClearVideoRequest,
        abort_effects(Some(export), reason)[1] == restored(export),
        finish_effects(Some(export))[0] == EffectView::ClearVideoRequest,
        finish_effects(Some(export))[1] == restored(export),
{
}

/// Once a frame was written, the screenshots of it that come in late belong to no current frame.
pub proof fn screenshots_of_written_frames_are_stale(
    export: ExportState,
    screenshot: RendererVideoExportScreenshot,
)
    requires
        is_current(export, screenshot),
        export.frame_index < export.frame_times@.len(),
    ensures
        after_frame(export) matches Some(next) ==> !is_current(next, screenshot),
{
    assert(export.frame_index < export.frame_times.len());
}

/// Each screenshot that the renderer takes for an export belongs to its current frame, until that
/// frame was written.
pub proof fn wanted_screenshots_are_current(
    export: ExportState,
    view_id: ViewId,
    ui_rect: UiRect,
    pixels_per_point: u32,
)
    ensures
        gpu_bridge::screenshot_taken(
            wanted_for(Some(export)),
            view_id,
            ui_rect,
            pixels_per_point,
        ) matches Some(screenshot) ==> is_current(after_painting(export), screenshot)
            && screenshot.view_id == view_id,
{
}

/// When the screenshots of a frame are due, every view of the area is asked for one.
pub proof fn every_view_is_wanted(
    export: ExportState,
    i: int,
    ui_rect: UiRect,
    pixels_per_point: u32,
)
    requires
        due(export),
        0 <= i < export.export_area.views@.len(),
    ensures
        gpu_bridge::screenshot_taken(
            wanted_for(Some(export)),
            export.export_area.views@[i].view_id,
            ui_rect,
            pixels_per_point,
        ) is Some,
{
    let ids = view_ids(export.export_area.views@).map_values(|view: ViewId| view.id);
    assert(ids[i] == export.export_area.views@[i].view_id.id);
    assert(ids.contains(ids[i]));
}

/// The window is painted once at the time of a frame before the frame is captured.
pub proof fn frames_are_painted_before_they_are_captured(export: ExportState)
    ensures
        after_frame(export) matches Some(next) ==> !due(next) && due(after_painting(next)),
{
}

/// A screenshot that was asked for adds a capture of one of the views of the area.
pub proof fn captures_are_of_the_area(
    export: ExportState,
    view_id: ViewId,
    ui_rect: UiRect,
    pixels_per_point: u32,
    capture: Capture,
)
    requires
        export.captured.dom().subset_of(gpu_bridge::id_set(view_ids(export.export_area.views@))),
        gpu_bridge::screenshot_taken(
            wanted_for(Some(export)),
            view_id,
            ui_rect,
            pixels_per_point,
        ) is Some,
    ensures
        with_capture(export, view_id, capture).captured.dom().subset_of(
            gpu_bridge::id_set(view_ids(export.export_area.views@)),
        ),
{
}

/// Once there are as many captures as views, all of them of views of the area, no view is missing:
/// such an export is not given up for want of a view.
pub proof fn complete_captures_miss_no_view(export: ExportState)
    requires
        export.captured.dom().subset_of(gpu_bridge::id_set(view_ids(export.export_area.views@))),
        export.captured.dom().len() >= export.export_area.views@.len(),
    ensures
        first_missing(export.export_area.views@, export.captured, 0) is None,
{
    let views = export.export_area.views@;
    let ids = view_ids(views).map_values(|view: ViewId| view.id);
    vstd::seq_lib::seq_to_set_is_finite(ids);
    ids.lemma_cardinality_of_set();
    vstd::set_lib::lemma_len_subset(export.captured.dom(), ids.to_set());
    vstd::set_lib::lemma_subset_equality(export.captured.dom(), ids.to_set());
    assert forall|i: int| 0 <= i < views.len() implies export.captured.dom().contains(
        #[trigger] views[i].view_id.id,
    ) by {
        assert(ids[i] == views[i].view_id.id);
        assert(ids.contains(ids[i]));
    }
    none_is_missing(views, export.captured, 0);
}

proof fn none_is_missing(views: Seq<VideoExportView>, captured: Map<u128, Capture>, from: nat)
    requires
        forall|i: int|
            0 <= i < views.len() ==> captured.dom().contains(#[trigger] views[i].view_id.id),
    ensures
        first_missing(views, captured, from) is None,
    decreases views.len() - from,
{
    if from < views.len() {
        none_is_missing(views, captured, from + 1);
    }
}

/// A view is missing if and only if it was not captured, and the first one is named.
pub proof fn missing_views_are_found(
    views: Seq<VideoExportView>,
    captured: Map<u128, Capture>,
    from: nat,
)
    ensures
        match first_missing(views, captured, from) {
            Some(i) => {
                &&& from <= i < views.len()
                &&& !captured.dom().contains(views[i as int].view_id.id)
                &&& forall|k: int|
                    from <= k < i ==> captured.dom().contains(#[trigger] views[k].view_id.id)
            },
            None => forall|k: int|
                from <= k < views.len() ==> captured.dom().contains(
                    #[trigger] views[k].view_id.id,
                ),
        },
    decreases views.len() - from,
{
    if from < views.len() && captured.dom().contains(views[from as int].view_id.id) {
        missing_views_are_found(views, captured, from + 1);
    }
}

/// A frame of a video shows the captures in their places: where the capture of a view is opaque, and
/// no later view lies, its pixel is seen, and where no view lies, the background is. The frame has the
/// size of the area.
pub proof fn frames_show_their_captures(export: ExportState, background: Rgba, k: int, i: int)
    requires
        0 <= i < (export.export_area.frame_width() as nat) * (
        export.export_area.frame_height() as nat),
    ensures
        ({
            let frame = composited_frame(export, background);
            let views = export.export_area.views@;
            let width = export.export_area.frame_width() as nat;
            let above = |j: int|
                {
                    let capture = export.captured[views[j].view_id.id];
                    rgba::pixel_above(width, capture.picture, capture.x, capture.y, i)
                };
            &&& frame.width == width
            &&& frame.height == export.export_area.frame_height()
            &&& frame.pixels.len() == width * (export.export_area.frame_height() as nat)
            &&& (forall|j: int| 0 <= j < views.len() ==> #[trigger] above(j) is None)
                ==> frame.pixels[i] == background
            &&& 0 <= k < views.len() && (above(k) matches Some(pixel) && pixel.a == 255) && (
            forall|j: int| k < j < views.len() ==> #[trigger] above(j) is None)
                ==> above(k) == Some(frame.pixels[i])
        }),
{
    let views = export.export_area.views@;
    let width = export.export_area.frame_width() as nat;
    let height = export.export_area.frame_height() as nat;
    let base = rgba::filled(width, height, background);
    let all = layers(views, export.captured);
    let above = |j: int|
        {
            let capture = export.captured[views[j].view_id.id];
            rgba::pixel_above(width, capture.picture, capture.x, capture.y, i)
        };
    rgba::compositing_keeps_the_size(base, all);
    if forall|j: int| 0 <= j < views.len() ==> #[trigger] above(j) is None {
        assert forall|j: int| #![trigger all[j]] 0 <= j < all.len() implies rgba::pixel_above(
            base.width,
            all[j].0,
            all[j].1,
            all[j].2,
            i,
        ) is None by {
            assert(above(j) is None);
        }
        rgba::uncovered_pixels_stay(base, all, i);
    }
    if 0 <= k < views.len() && (above(k) matches Some(pixel) && pixel.a == 255) && (forall|j: int|
        k < j < views.len() ==> #[trigger] above(j) is None) {
        let pixel = above(k)->0;
        assert forall|j: int| #![trigger all[j]] k < j < all.len() implies rgba::pixel_above(
            base.width,
            all[j].0,
            all[j].1,
            all[j].2,
            i,
        ) is None by {
            assert(above(j) is None);
        }
        rgba::the_last_opaque_pixel_shows(base, all, k, i, pixel);
    }
}

/// A frame is never empty, and has the size of the area where that is not.
pub proof fn frames_are_never_empty(area: VideoExportArea)
    ensures
        area.frame_width() >= 1,
        area.frame_height() >= 1,
        area.rounded_width >= 1 ==> area.frame_width() == area.rounded_width,
        area.rounded_height >= 1 ==> area.frame_height() == area.rounded_height,
{
}

/// The recording is at the time of a frame when the frame is captured: after a frame was written, it
/// goes to the time of the next one. After the last frame, all frames are encoded, and it goes back.
pub proof fn the_recording_goes_to_the_next_frame(export: ExportState, count: nat)
    requires
        export.frame_index == 0,
        count < export.frame_times@.len(),
    ensures
        after_frames(Some(export), count) matches Some(later) && {
            let effects = frame_effects(later);
            &&& later.frame_times@[later.frame_index as int] == export.frame_times@[count as int]
            &&& count + 1 < export.frame_times@.len() ==> effects == seq![
                EffectView::SendSystem(
                    SystemCommandOf::TimeControlCommands {
                        store_id: export.store_id,
                        time_commands: seq![
                            TimeControlCommand::SetTime(
                                TimeTarget::Int(export.frame_times@[(count + 1) as int]),
                            ),
                        ],
                    },
                ),
                EffectOf::RequestRepaint,
            ]
            &&& count + 1 == export.frame_times@.len() ==> {
                &&& effects.len() == 4
                &&& effects[0] == EffectView::ClearVideoRequest
                &&& effects[1] == restored(export)
                &&& effects[2] matches EffectOf::EncodeVideo(job)
                &&& job.frame_count == export.frame_times@.len()
                &&& job.frame_head == export.frame_head
                &&& job.temp_dir == export.temp_dir
                &&& job.output_path == export.output_path
                &&& job.fps == export.fps
                &&& job.name == export.export_area.name
                &&& effects[3] == EffectView::RequestRepaint
            }
        },
{
    every_frame_is_captured_in_order(export, count);
    assert(export.frame_times@.len() == export.frame_times.len());
}

/// Once a frame was written, nothing that was captured for it is used for the next one.
pub proof fn captures_are_used_for_one_frame(export: ExportState)
    ensures
        after_frame(export) matches Some(next) ==> {
            &&& next.captured.dom().len() == 0
            &&& next.export_area == export.export_area
            &&& next.output_path == export.output_path
            &&& next.fps == export.fps
        },
{
}

/// While an export waits, each painting of the window brings its capture nearer by one. Its
/// screenshots are asked for once: then it waits for them, and for nothing else.
pub proof fn screenshots_are_asked_for_once(export: ExportState)
    ensures
        ({
            let next = after_painting(export);
            let waits = export.phase == CroppedVideoExportPhase::AwaitRenderedFrame;
            &&& due(export) <==> waits && export.frames_until_capture == 0
            &&& due(export) ==> !due(next) && next.phase
                == CroppedVideoExportPhase::AwaitViewScreenshots
            &&& waits && !due(export) ==> next.frames_until_capture + 1
                == export.frames_until_capture && next.phase == export.phase
            &&& !waits ==> next == export
            &&& next.frame_index == export.frame_index
            &&& next.captured == export.captured
            &&& next.export_id == export.export_id
            &&& next.store_id == export.store_id
            &&& next.frame_times == export.frame_times
            &&& next.export_area == export.export_area
            &&& !due(export) ==> wanted_for(Some(export)) is None
            &&& wanted_for(None) is None
        }),
{
}

/// A capture is kept for its view, in place of an earlier one, and touches those of no other view.
pub proof fn captures_are_kept_by_view(
    export: ExportState,
    view_id: ViewId,
    capture: Capture,
    other: u128,
)
    ensures
        ({
            let next = with_capture(export, view_id, capture);
            &&& next.captured.dom().contains(view_id.id)
            &&& next.captured[view_id.id] == capture
            &&& other != view_id.id ==> (next.captured.dom().contains(other)
                <==> export.captured.dom().contains(other))
            &&& other != view_id.id && export.captured.dom().contains(other)
                ==> next.captured[other] == export.captured[other]
            &&& next.frame_index == export.frame_index
            &&& next.phase == export.phase
        }),
{
}

/// A screenshot is taken in if and only if it is of the current frame of this very export.
pub proof fn screenshots_belong_to_a_frame(
    export: ExportState,
    screenshot: RendererVideoExportScreenshot,
)
    ensures
        is_current(export, screenshot) ==> screenshot.export_id == export.export_id
            && screenshot.frame_index == export.frame_index,
        screenshot.export_id == export.export_id && screenshot.frame_index == export.frame_index
            ==> is_current(export, screenshot),
{
}

/// A frame is written when all its views were captured, to the file of its number, as the picture
/// that the captures make. While views are missing, nothing is written and nothing fails.
pub proof fn complete_frames_are_written(export: ExportState, background: Rgba, step: CaptureStep)
    requires
        capture_step_is(export, background, step),
    ensures
        export.captured.dom().len() < export.export_area.views@.len() <==> step is AwaitOthers,
        !(step is Ignored),
        step matches CaptureStep::WriteFrame { path, png } ==> {
            &&& forall|k: int|
                0 <= k < export.export_area.views@.len() ==> export.captured.dom().contains(
                    #[trigger] export.export_area.views@[k].view_id.id,
                )
            &&& path@ == export.frame_head@ + text::padded_decimal(export.frame_index as nat, 6)
                + ".png"@
            &&& rgba::png_encoded(
                export.export_area.frame_width(),
                export.export_area.frame_height(),
                rgba::picture_bytes(composited_frame(export, background)),
            ) == Ok::<Seq<u8>, Seq<char>>(png@)
        },
        step matches CaptureStep::Failed(text) ==> first_missing(
            export.export_area.views@,
            export.captured,
            0,
        ) is Some || rgba::png_encoded(
            export.export_area.frame_width(),
            export.export_area.frame_height(),
            rgba::picture_bytes(composited_frame(export, background)),
        ) == Err::<Seq<u8>, Seq<char>>(text@),
{
    missing_views_are_found(export.export_area.views@, export.captured, 0);
}

/// An export that is given up leaves no files behind, and the user is told why, as an error and in the
/// end. One that finishes keeps its files for the encoder, and nothing is told yet.
pub proof fn given_up_exports_leave_nothing(export: ExportState, reason: Seq<char>)
    ensures
        ({
            let aborted = abort_effects(Some(export), reason);
            let finished = finish_effects(Some(export));
            &&& aborted.len() == 4
            &&& aborted[2] == EffectView::RemoveDir(export.temp_dir)
            &&& aborted[3] == EffectView::Report { severity: Severity::Error, text: reason }
            &&& abort_effects(None, reason) == seq![
                EffectView::ClearVideoRequest,
                EffectOf::Report { severity: Severity::Error, text: reason },
            ]
            &&& finished.len() == 3
            &&& finished[2] is EncodeVideo
            &&& finish_effects(None) == seq![EffectView::ClearVideoRequest]
        }),
{
    assert(abort_effects(None, reason) =~= seq![
        EffectView::ClearVideoRequest,
        EffectOf::Report { severity: Severity::Error, text: reason },
    ]);
    assert(finish_effects(None) =~= seq![EffectView::ClearVideoRequest]);
}

/// What was shown before an export comes back: the timeline first, then the time if there was one, and
/// the play state last, so that what played goes on from there.
pub proof fn exports_bring_back_the_time(export: ExportState)
    ensures
        restored(export) matches EffectOf::SendSystem(
            SystemCommandOf::TimeControlCommands { store_id, time_commands },
        ) && {
            &&& store_id == export.store_id
            &&& time_commands[0] == TimeControlCommand::SetActiveTimeline(export.original_timeline)
            &&& time_commands.last() == TimeControlCommand::SetPlayState(export.original_play_state)
            &&& export.original_time matches Some(time) ==> time_commands.len() == 3
                && time_commands[1] == TimeControlCommand::SetTime(TimeTarget::Real(time))
            &&& export.original_time is None ==> time_commands.len() == 2
        },
{
}

/// Where a video could not be encoded in the background, its files are removed and the user is told
/// why; where it could, its files stay.
pub proof fn files_stay_while_they_are_encoded(job: EncodingJob, started: Result<(), String>)
    ensures
        ({
            let effects = encoding_started_effects(job, started);
            &&& started is Ok ==> effects.len() == 1 && (effects[0] matches EffectOf::Report {
                severity,
                ..
            } && severity == Severity::Info)
            &&& started matches Err(err) ==> effects == seq![
                EffectView::RemoveDir(job.temp_dir),
                EffectOf::Report {
                    severity: Severity::Error,
                    text: "Failed to start cropped video export: "@ + err@,
                },
            ]
        }),
{
}

/// Whether the frame of an export is asked for when the window is painted, and whether the window is to
/// be painted again first.
pub open spec fn asks_for_frame(
    current: Option<ExportState>,
    after: Option<ExportState>,
    request: Option<FrameRequest>,
    waits: bool,
) -> bool {
    match current {
        Some(export) => {
            &&& after == Some(after_painting(export))
            &&& waits == !due(export)
            &&& match request {
                Some(request) => due(export) && request.export_id == export.export_id
                    && request.frame_index == export.frame_index && request.view_ids@ == view_ids(
                    export.export_area.views@,
                ),
                None => !due(export),
            }
        },
        None => after is None && request is None && !waits,
    }
}

/// What becomes of an export that is handed a screenshot, which has a capture in it unless bytes are
/// missing.
pub open spec fn takes_capture(
    current: Option<ExportState>,
    screenshot: RendererVideoExportScreenshot,
    capture: Option<Capture>,
    label: Seq<char>,
    background: Rgba,
    after: Option<ExportState>,
    step: CaptureStep,
) -> bool {
    match current {
        None => step is Ignored && after is None,
        Some(export) => if !is_current(export, screenshot) {
            step is Ignored && after == Some(export)
        } else {
            match capture {
                None => {
                    &&& step matches CaptureStep::Failed(text)
                    &&& text@ == "Failed to reconstruct renderer screenshot for "@ + label
                    &&& after == Some(export)
                },
                Some(capture) => {
                    let next = with_capture(export, screenshot.view_id, capture);
                    &&& after == Some(next)
                    &&& capture_step_is(next, background, step)
                },
            }
        },
    }
}

/// What is done about an export that is handed a screenshot, which has a capture in it unless bytes are
/// missing.
pub open spec fn collects_capture(
    current: Option<ExportState>,
    screenshot: RendererVideoExportScreenshot,
    capture: Option<Capture>,
    label: Seq<char>,
    background: Rgba,
    after: Option<ExportState>,
    action: CaptureAction,
) -> bool {
    match current {
        None => {
            &&& after is None
            &&& action matches CaptureAction::Continue(effects)
            &&& commands::viewed(effects@) == Seq::<EffectView>::empty()
        },
        Some(export) => if !is_current(export, screenshot) {
            &&& after == Some(export)
            &&& action matches CaptureAction::Continue(effects)
            &&& commands::viewed(effects@) == Seq::<EffectView>::empty()
        } else {
            match capture {
                None => {
                    let text = "Failed to reconstruct renderer screenshot for "@ + label;
                    &&& after is None
                    &&& action matches CaptureAction::Abort(effects)
                    &&& commands::viewed(effects@) == abort_effects(Some(export), text)
                },
                Some(capture) => {
                    let next = with_capture(export, screenshot.view_id, capture);
                    match action {
                        CaptureAction::Continue(effects) => after == Some(next) && capture_step_is(
                            next,
                            background,
                            CaptureStep::AwaitOthers,
                        ) && commands::viewed(effects@) == seq![EffectView::RequestRepaint],
                        CaptureAction::WriteFrame { path, png } => after == Some(next)
                            && capture_step_is(
                            next,
                            background,
                            CaptureStep::WriteFrame { path, png },
                        ),
                        CaptureAction::Abort(effects) => after is None && exists|text: String|
                            #[trigger] capture_step_is(next, background, CaptureStep::Failed(text))
                                && commands::viewed(effects@) == abort_effects(Some(next), text@),
                    }
                },
            }
        },
    }
}

/// The export after a frame was written.
pub open spec fn after_written(current: Option<ExportState>) -> Option<ExportState> {
    match current {
        Some(export) => after_frame(export),
        None => None,
    }
}

/// What follows after a frame was written.
pub open spec fn written_effects(current: Option<ExportState>) -> Seq<EffectView> {
    match current {
        Some(export) => frame_effects(export),
        None => Seq::<EffectView>::empty(),
    }
}

/// Without an export nothing is asked for. A frame whose screenshots were not asked for yet is asked for
/// once its view was painted long enough; all its views are, and no others.
pub proof fn frames_are_asked_for_when_due(
    current: Option<ExportState>,
    after: Option<ExportState>,
    request: Option<FrameRequest>,
    waits: bool,
)
    requires
        asks_for_frame(current, after, request, waits),
    ensures
        current is None ==> request is None && !waits && after is None,
        current matches Some(export) ==> {
            &&& request is Some <==> due(export)
            &&& waits <==> !due(export)
            &&& request matches Some(request) ==> {
                &&& request.export_id == export.export_id
                &&& request.frame_index == export.frame_index
                &&& request.view_ids@.len() == export.export_area.views@.len()
                &&& forall|i: int|
                    0 <= i < export.export_area.views@.len() ==> #[trigger] request.view_ids@[i]
                        == export.export_area.views@[i].view_id
            }
            &&& after matches Some(next) && next.frame_index == export.frame_index
                && next.captured == export.captured && next.frame_times == export.frame_times
        },
{
}

/// A screenshot of another export, or of another frame, changes nothing. One of the current frame is kept
/// under its view, the other captures stay, and so does everything else. One whose bytes are not all
/// there is not kept.
pub proof fn screenshots_of_the_current_frame_are_kept(
    export: ExportState,
    screenshot: RendererVideoExportScreenshot,
    capture: Option<Capture>,
    label: Seq<char>,
    background: Rgba,
    after: Option<ExportState>,
    step: CaptureStep,
)
    requires
        takes_capture(Some(export), screenshot, capture, label, background, after, step),
    ensures
        screenshot.export_id != export.export_id || screenshot.frame_index != export.frame_index
            ==> step is Ignored && after == Some(export),
        screenshot.export_id == export.export_id && screenshot.frame_index == export.frame_index
            ==> match capture {
            None => after == Some(export) && (step matches CaptureStep::Failed(text) && text@
                == "Failed to reconstruct renderer screenshot for "@ + label),
            Some(taken) => {
                &&& !(step is Ignored)
                &&& after matches Some(next)
                &&& next.captured.dom().contains(screenshot.view_id.id)
                &&& next.captured[screenshot.view_id.id] == taken
                &&& forall|id: u128|
                    id != screenshot.view_id.id ==> (next.captured.dom().contains(id)
                        == export.captured.dom().contains(id) && (#[trigger] next.captured[id]
                        == export.captured[id]))
                &&& next == ExportState { captured: next.captured, ..export }
                &&& step is AwaitOthers <==> next.captured.dom().len()
                    < export.export_area.views@.len()
            },
        },
        !takes_capture(None, screenshot, capture, label, background, Some(export), step),
{
}

/// What a screenshot brings about is the same that becomes of the export: nothing for one that does not
/// belong to it, another painting while captures are missing, a frame to write once all are there, and
/// the end of the export, with its files removed and its time restored, if something is wrong.
pub proof fn screenshots_lead_to_frames(
    export: ExportState,
    screenshot: RendererVideoExportScreenshot,
    capture: Option<Capture>,
    label: Seq<char>,
    background: Rgba,
    after: Option<ExportState>,
    action: CaptureAction,
)
    requires
        collects_capture(Some(export), screenshot, capture, label, background, after, action),
    ensures
        screenshot.export_id != export.export_id || screenshot.frame_index != export.frame_index
            ==> after == Some(export) && (action matches CaptureAction::Continue(effects)
            && commands::viewed(effects@).len() == 0),
        screenshot.export_id == export.export_id && screenshot.frame_index == export.frame_index
            ==> match capture {
            None => after is None && (action matches CaptureAction::Abort(effects)
                && commands::viewed(effects@) == abort_effects(
                Some(export),
                "Failed to reconstruct renderer screenshot for "@ + label,
            )),
            Some(taken) => {
                let captured = export.captured.insert(screenshot.view_id.id, taken);
                &&& action is Abort <==> after is None
                &&& action is Continue <==> captured.dom().len() < export.export_area.views@.len()
                &&& action matches CaptureAction::Continue(effects) ==> commands::viewed(effects@)
                    == seq![EffectView::RequestRepaint]
                &&& after matches Some(next) ==> next == ExportState { captured, ..export }
            },
        },
{
}

/// Without an export, what is written changes nothing.
pub proof fn frames_belong_to_exports(export: ExportState)
    ensures
        after_written(None) is None,
        written_effects(None).len() == 0,
        after_written(Some(export)) == after_frame(export),
        written_effects(Some(export)) == frame_effects(export),
{
}

/// A capture has the size, the place and the pixels that it was taken with.
pub proof fn captures_show_what_was_taken(
    width: u32,
    height: u32,
    data: Seq<u8>,
    x: i64,
    y: i64,
    i: int,
)
    requires
        rgba::fits(width, height, data.len()),
        0 <= i < width * height,
    ensures
        ({
            let capture = capture_of(width, height, data, x, y);
            &&& capture.x == x
            &&& capture.y == y
            &&& capture.picture.width == width
            &&& capture.picture.height == height
            &&& capture.picture.pixels.len() == width * height
            &&& capture.picture.pixels[i] == Rgba {
                r: data[4 * i],
                g: data[4 * i + 1],
                b: data[4 * i + 2],
                a: data[4 * i + 3],
            }
        }),
{
}

/// A frame is put together exactly when the last of its views comes in with all its bytes, for that
/// frame and that export.
pub proof fn the_last_capture_completes_a_frame(
    export: ExportState,
    screenshot: RendererVideoExportScreenshot,
)
    ensures
        !completes_frame(export, screenshot, false),
        completes_frame(export, screenshot, true) <==> screenshot.export_id == export.export_id
            && screenshot.frame_index == export.frame_index && export.captured.dom().insert(
            screenshot.view_id.id,
        ).len() >= export.export_area.views@.len(),
{
}

/// A screenshot that comes in when nothing is exported is dropped, and no export begins with it.
pub proof fn screenshots_without_an_export_are_dropped(
    screenshot: RendererVideoExportScreenshot,
    capture: Option<Capture>,
    label: Seq<char>,
    background: Rgba,
    after: Option<ExportState>,
    action: CaptureAction,
)
    requires
        collects_capture(None, screenshot, capture, label, background, after, action),
    ensures
        after is None,
        action matches CaptureAction::Continue(effects) && commands::viewed(effects@).len() == 0,
{
}

/// The current export is the one that the exporter holds.
pub proof fn the_current_export_is_the_one_held(exporter: VideoExporter)
    ensures
        exporter.current() is Some <==> exporter.cropped_video_export is Some,
        exporter.cropped_video_export matches Some(export) ==> exporter.current() == Some(export@),
{
}

} // verus!
