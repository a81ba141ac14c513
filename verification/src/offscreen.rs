//! The export of a video without the window: each frame is rendered off screen and handed to the
//! encoder.
use crate::commands;
use crate::commands::Effect;
use crate::commands::EffectOf;
use crate::commands::EffectView;
use crate::commands::Severity;
use crate::text;
use crate::types::PlayState;
use crate::types::TimeControlCommand;
use crate::video_export::CroppedVideoExport;
use crate::video_export::VideoExporter;
use vstd::prelude::*;
use vstd::string::*;

verus! {

/// What a run waits for.
#[derive(Clone, Copy, Debug, PartialEq, Eq, Structural)]
pub enum OffscreenStage {
    CreateRenderer,
    CheckLayout,
    SpawnEncoder,
    RenderFrame,
    WriteFrame,
    FinishEncoder,
    Over,
}

/// A run over the frames of an export.
pub struct OffscreenRun {
    pub export: CroppedVideoExport,
    pub frame: usize,
    pub stage: OffscreenStage,
}

/// How the last action went.
#[derive(Debug, PartialEq, Eq)]
pub enum OffscreenEvent {
    Done,
    /// The viewport has no valid layout.
    InvalidLayout,
    Failed(String),
}

/// What is to be done next.
#[derive(Debug, PartialEq, Eq)]
pub enum OffscreenAction {
    CreateRenderer,
    CheckLayout,
    /// Prepare a time control with these commands, and start an encoder for frames of this size.
    SpawnEncoder { time_commands: Vec<TimeControlCommand>, width: u32, height: u32 },
    /// Go to this time, and render what is to be seen then.
    RenderFrame { time: i64 },
    /// Hand the rendered frame to the encoder.
    WriteFrame,
    FinishEncoder,
    End(Vec<Effect>),
}

/// The stage and the frame after an action went well.
pub open spec fn after_success(stage: OffscreenStage, frame: nat, count: nat) -> (
    OffscreenStage,
    nat,
) {
    match stage {
        OffscreenStage::CreateRenderer => (OffscreenStage::CheckLayout, frame),
        OffscreenStage::CheckLayout => (OffscreenStage::SpawnEncoder, frame),
        OffscreenStage::SpawnEncoder => if frame < count {
            (OffscreenStage::RenderFrame, frame)
        } else {
            (OffscreenStage::FinishEncoder, frame)
        },
        OffscreenStage::RenderFrame => (OffscreenStage::WriteFrame, frame),
        OffscreenStage::WriteFrame => if frame + 1 < count {
            (OffscreenStage::RenderFrame, frame + 1)
        } else {
            (OffscreenStage::FinishEncoder, frame)
        },
        OffscreenStage::FinishEncoder => (OffscreenStage::Over, frame),
        OffscreenStage::Over => (OffscreenStage::Over, frame),
    }
}

/// The encoder was started, so that there are frame files to clean up in the end.
pub open spec fn encoder_runs(stage: OffscreenStage) -> bool {
    stage is RenderFrame || stage is WriteFrame || stage is FinishEncoder
}

/// The time commands that a run starts with.
pub open spec fn preparing_commands(timeline: String) -> Seq<TimeControlCommand> {
    seq![
        TimeControlCommand::SetActiveTimeline(timeline),
        TimeControlCommand::SetPlayState(PlayState::Paused),
    ]
}

/// The action of a stage that is not over.
pub open spec fn action_is(
    export: CroppedVideoExport,
    stage: OffscreenStage,
    frame: nat,
    action: OffscreenAction,
) -> bool {
    match stage {
        OffscreenStage::CreateRenderer => action is CreateRenderer,
        OffscreenStage::CheckLayout => action is CheckLayout,
        OffscreenStage::SpawnEncoder => action matches OffscreenAction::SpawnEncoder {
            time_commands,
            width,
            height,
        } && time_commands@ == preparing_commands(export.original_timeline) && width
            == export.export_area.frame_width() && height == export.export_area.frame_height(),
        OffscreenStage::RenderFrame => action == OffscreenAction::RenderFrame {
            time: export.frame_times@[frame as int],
        },
        OffscreenStage::WriteFrame => action is WriteFrame,
        OffscreenStage::FinishEncoder => action is FinishEncoder,
        OffscreenStage::Over => action is End,
    }
}

/// What is left to do when a run ends: frame files are removed if the encoder was started, and
/// the user is told how it went.
pub open spec fn end_effects(
    export: CroppedVideoExport,
    stage: OffscreenStage,
    severity: Severity,
    text: Seq<char>,
) -> Seq<EffectView> {
    let cleanup = if encoder_runs(stage) {
        seq![EffectOf::RemoveDir(export.temp_dir)]
    } else {
        Seq::<EffectView>::empty()
    };
    cleanup + seq![commands::reported(severity, text)]
}

/// What the user is told about a saved video.
pub open spec fn saved_text(export: CroppedVideoExport) -> Seq<char> {
    "Saved "@ + text::decimal(export.frame_times@.len()) + " frame(s) for "@ + text::quoted(
        export.export_area.name@,
    ) + " to "@ + text::quoted_path(export.output_path@) + "."@
}

/// The effects of ending a run.
pub open spec fn ending(
    export: CroppedVideoExport,
    stage: OffscreenStage,
    event: OffscreenEvent,
) -> Seq<EffectView> {
    match event {
        OffscreenEvent::Done => if stage is FinishEncoder {
            end_effects(export, stage, Severity::Info, saved_text(export))
        } else {
            Seq::<EffectView>::empty()
        },
        OffscreenEvent::InvalidLayout => end_effects(
            export,
            stage,
            Severity::Error,
            "No valid viewport layout is available for video export"@,
        ),
        OffscreenEvent::Failed(err) => end_effects(export, stage, Severity::Error, err@),
    }
}

/// A run that has not done anything yet.
pub open spec fn fresh_run(export: CroppedVideoExport) -> OffscreenRun {
    OffscreenRun { export, frame: 0, stage: OffscreenStage::CreateRenderer }
}

impl VideoExporter {
    /// Hands the export in progress over to a run off screen.
    pub fn take_for_offscreen(&mut self) -> (res: Option<OffscreenRun>)
        requires
            old(self).wf(),
        ensures
            final(self).wf(),
            final(self).current() is None,
            final(self).next_export_id == old(self).next_export_id,
            match old(self).cropped_video_export {
                Some(export) => res == Some(fresh_run(export)),
                None => res is None,
            },
            res matches Some(run) ==> run.wf(),
    {
        match self.cropped_video_export.take() {
            Some(export) => Some(
                OffscreenRun { export, frame: 0, stage: OffscreenStage::CreateRenderer },
            ),
            None => None,
        }
    }
}

/// A run gets from one state to the next when its last action went as told, and this is what it does
/// then.
pub open spec fn advances(
    run: OffscreenRun,
    event: OffscreenEvent,
    next: OffscreenRun,
    action: OffscreenAction,
) -> bool {
    &&& next.export == run.export
    &&& if event is Done && !(run.stage is FinishEncoder) {
        &&& (next.stage, next.frame as nat) == after_success(
            run.stage,
            run.frame as nat,
            run.export.frame_times@.len(),
        )
        &&& action_is(run.export, next.stage, next.frame as nat, action)
    } else {
        &&& next.stage is Over
        &&& next.frame == run.frame
        &&& action matches OffscreenAction::End(effects)
        &&& commands::viewed(effects@) == ending(run.export, run.stage, event)
    }
}

impl OffscreenRun {
    /// The current frame is one of the frames.
    pub open spec fn wf(self) -> bool {
        self.frame < self.export.frame_times@.len()
    }

    /// The action that the run starts with.
    pub fn first_action(&self) -> (res: OffscreenAction)
        requires
            self.stage is CreateRenderer,
        ensures
            action_is(self.export, self.stage, self.frame as nat, res),
    {
        OffscreenAction::CreateRenderer
    }

    /// Goes on after an action, or ends the run.
    pub fn advance(&mut self, event: OffscreenEvent) -> (res: OffscreenAction)
        requires
            old(self).wf(),
            !(old(self).stage is Over),
        ensures
            final(self).wf(),
            advances(*old(self), event, *final(self), res),
    {
        match event {
            OffscreenEvent::Done => self.succeed(),
            OffscreenEvent::InvalidLayout => self.end(
                Severity::Error,
                "No valid viewport layout is available for video export".to_owned(),
            ),
            OffscreenEvent::Failed(err) => self.end(Severity::Error, err),
        }
    }

    fn end(&mut self, severity: Severity, text: String) -> (res: OffscreenAction)
        ensures
            *final(self) == (OffscreenRun { stage: OffscreenStage::Over, ..*old(self) }),
            res matches OffscreenAction::End(effects) && commands::viewed(effects@) == end_effects(
                old(self).export,
                old(self).stage,
                severity,
                text@,
            ),
    {
        let mut effects = commands::nothing();
        match self.stage {
            OffscreenStage::RenderFrame | OffscreenStage::WriteFrame
            | OffscreenStage::FinishEncoder => {
                commands::put(&mut effects, EffectOf::RemoveDir(self.export.temp_dir.clone()));
            },
            _ => {},
        }
        commands::put(&mut effects, commands::report(severity, text));
        assert(commands::viewed(effects@) =~= end_effects(
            self.export,
            self.stage,
            severity,
            text@,
        ));
        self.stage = OffscreenStage::Over;
        OffscreenAction::End(effects)
    }

    fn succeed(&mut self) -> (res: OffscreenAction)
        requires
            old(self).wf(),
            !(old(self).stage is Over),
        ensures
            final(self).wf(),
            advances(*old(self), OffscreenEvent::Done, *final(self), res),
    {
        assert(self.frame < self.export.frame_times.len());
        match self.stage {
            OffscreenStage::CreateRenderer => {
                self.stage = OffscreenStage::CheckLayout;
                OffscreenAction::CheckLayout
            },
            OffscreenStage::CheckLayout => {
                self.stage = OffscreenStage::SpawnEncoder;
                let (width, height) = self.export.export_area.frame_size();
                let mut time_commands = commands::one_time_command(
                    TimeControlCommand::SetActiveTimeline(self.export.original_timeline.clone()),
                );
                time_commands.push(TimeControlCommand::SetPlayState(PlayState::Paused));
                assert(time_commands@ =~= preparing_commands(self.export.original_timeline));
                OffscreenAction::SpawnEncoder { time_commands, width, height }
            },
            OffscreenStage::SpawnEncoder => {
                self.stage = OffscreenStage::RenderFrame;
                OffscreenAction::RenderFrame { time: self.export.frame_times[self.frame] }
            },
            OffscreenStage::RenderFrame => {
                self.stage = OffscreenStage::WriteFrame;
                OffscreenAction::WriteFrame
            },
            OffscreenStage::WriteFrame => {
                if self.frame + 1 < self.export.frame_times.len() {
                    self.frame = self.frame + 1;
                    self.stage = OffscreenStage::RenderFrame;
                    OffscreenAction::RenderFrame { time: self.export.frame_times[self.frame] }
                } else {
                    self.stage = OffscreenStage::FinishEncoder;
                    OffscreenAction::FinishEncoder
                }
            },
            OffscreenStage::FinishEncoder | OffscreenStage::Over => {
                let text = "Saved ".to_owned().concat(
                    text::decimal_text(self.export.frame_times.len() as u128).as_str(),
                ).concat(" frame(s) for ").concat(
                    text::quote(self.export.export_area.name.as_str()).as_str(),
                ).concat(" to ").concat(
                    text::quote_path(self.export.output_path.as_str()).as_str(),
                ).concat(".");
                self.end(Severity::Info, text)
            },
        }
    }
}

/// The stage and the frame after several actions went well.
pub open spec fn after_successes(
    stage: OffscreenStage,
    frame: nat,
    count: nat,
    actions: nat,
) -> (OffscreenStage, nat)
    decreases actions,
{
    if actions == 0 {
        (stage, frame)
    } else {
        let (stage, frame) = after_successes(stage, frame, count, (actions - 1) as nat);
        after_success(stage, frame, count)
    }
}

/// A run in which everything goes well renders every frame once and in order, hands each to the
/// encoder right after it was rendered, and then finishes the video.
pub proof fn every_frame_is_rendered_in_order(count: nat, frame: nat)
    requires
        frame < count,
    ensures
        after_successes(OffscreenStage::CreateRenderer, 0, count, 3 + 2 * frame) == (
            OffscreenStage::RenderFrame,
            frame,
        ),
        after_successes(OffscreenStage::CreateRenderer, 0, count, 4 + 2 * frame) == (
            OffscreenStage::WriteFrame,
            frame,
        ),
        frame + 1 == count ==> after_successes(
            OffscreenStage::CreateRenderer,
            0,
            count,
            5 + 2 * frame,
        ) == (OffscreenStage::FinishEncoder, frame),
    decreases frame,
{
    reveal_with_fuel(after_successes, 5);
    if frame > 0 {
        every_frame_is_rendered_in_order(count, (frame - 1) as nat);
        assert(4 + 2 * ((frame - 1) as nat) == 2 + 2 * frame);
    }
}

/// The stage and the frame of a run after so many actions went well.
pub open spec fn run_after(export: CroppedVideoExport, actions: nat) -> (OffscreenStage, nat) {
    after_successes(
        fresh_run(export).stage,
        fresh_run(export).frame as nat,
        export.frame_times@.len(),
        actions,
    )
}

proof fn run_stages(export: CroppedVideoExport, actions: nat)
    requires
        export.frame_times@.len() > 0,
        actions < 4 + 2 * export.frame_times@.len(),
    ensures
        ({
            let count = export.frame_times@.len();
            run_after(export, actions) == if actions == 0 {
                (OffscreenStage::CreateRenderer, 0nat)
            } else if actions == 1 {
                (OffscreenStage::CheckLayout, 0nat)
            } else if actions == 2 {
                (OffscreenStage::SpawnEncoder, 0nat)
            } else if actions == 3 + 2 * count {
                (OffscreenStage::FinishEncoder, (count - 1) as nat)
            } else if actions % 2 == 1 {
                (OffscreenStage::RenderFrame, ((actions - 3) / 2) as nat)
            } else {
                (OffscreenStage::WriteFrame, ((actions - 4) / 2) as nat)
            }
        }),
{
    let count = export.frame_times@.len();
    if actions < 3 {
        reveal_with_fuel(after_successes, 4);
    } else if actions == 3 + 2 * count {
        every_frame_is_rendered_in_order(count, (count - 1) as nat);
        assert(5 + 2 * ((count - 1) as nat) == actions);
    } else {
        every_frame_is_rendered_in_order(count, ((actions - 3) / 2) as nat);
    }
}

/// A run in which everything goes well renders at the times of the frames, each of them once and in
/// order: first what is needed for that is made, then each frame is rendered and handed over in
/// turn, and in the end the video is finished. `action` is what is to be done after so many actions.
pub proof fn the_frame_times_are_rendered(
    export: CroppedVideoExport,
    actions: nat,
    action: OffscreenAction,
)
    requires
        export.frame_times@.len() > 0,
        action_is(export, run_after(export, actions).0, run_after(export, actions).1, action),
        actions < 4 + 2 * export.frame_times@.len(),
    ensures
        ({
            let count = export.frame_times@.len();
            &&& action is CreateRenderer <==> actions == 0
            &&& action is CheckLayout <==> actions == 1
            &&& action is SpawnEncoder <==> actions == 2
            &&& action is RenderFrame <==> 3 <= actions < 3 + 2 * count && actions % 2 == 1
            &&& action is WriteFrame <==> 3 <= actions < 3 + 2 * count && actions % 2 == 0
            &&& action is FinishEncoder <==> actions == 3 + 2 * count
            &&& forall|k: int|
                0 <= k < count && actions == 3 + 2 * k ==> action == (OffscreenAction::RenderFrame {
                    time: #[trigger] export.frame_times@[k],
                })
        }),
{
    run_stages(export, actions);
}

/// What the renderer is told at first: the timeline of the export is shown, and nothing plays, so
/// that each frame shows its time. The encoder gets frames of the size of the area, which is never
/// empty.
pub proof fn the_encoder_is_made_for_the_area(export: CroppedVideoExport, action: OffscreenAction)
    requires
        action_is(export, OffscreenStage::SpawnEncoder, 0, action),
    ensures
        action matches OffscreenAction::SpawnEncoder { time_commands, width, height } && {
            &&& time_commands@.len() == 2
            &&& time_commands@[0] == TimeControlCommand::SetActiveTimeline(
                export.original_timeline,
            )
            &&& time_commands@[1] == TimeControlCommand::SetPlayState(PlayState::Paused)
            &&& width >= 1
            &&& height >= 1
            &&& export.export_area.rounded_width > 0 ==> width == export.export_area.rounded_width
            &&& export.export_area.rounded_height > 0 ==> height
                == export.export_area.rounded_height
        },
{
}

/// A run that fails tells why, as an error and in the end, and removes its directory if and only if
/// the encoder had been started by then. One that succeeds removes it, and tells so.
pub proof fn every_run_tells_how_it_went(
    export: CroppedVideoExport,
    actions: nat,
    event: OffscreenEvent,
)
    requires
        export.frame_times@.len() > 0,
        actions < 4 + 2 * export.frame_times@.len(),
        event is Done ==> actions == 3 + 2 * export.frame_times@.len(),
    ensures
        ({
            let effects = ending(export, run_after(export, actions).0, event);
            let told = effects.last();
            &&& effects.len() == if actions >= 3 {
                2int
            } else {
                1
            }
            &&& actions >= 3 ==> effects[0] == EffectView::RemoveDir(export.temp_dir)
            &&& match event {
                OffscreenEvent::Done => told matches EffectOf::Report { severity, .. } && severity
                    == Severity::Info,
                OffscreenEvent::Failed(err) => told == EffectView::Report {
                    severity: Severity::Error,
                    text: err@,
                },
                OffscreenEvent::InvalidLayout => told matches EffectOf::Report { severity, .. }
                    && severity == Severity::Error,
            }
        }),
{
    run_stages(export, actions);
}

proof fn runs_go_through_their_stages(
    export: CroppedVideoExport,
    runs: Seq<OffscreenRun>,
    actions: Seq<OffscreenAction>,
    n: int,
)
    requires
        export.frame_times@.len() > 0,
        runs.len() == actions.len() + 1,
        runs[0] == fresh_run(export),
        forall|i: int|
            0 <= i < actions.len() ==> advances(
                runs[i],
                OffscreenEvent::Done,
                #[trigger] runs[i + 1],
                actions[i],
            ),
        0 <= n < runs.len(),
        n < 4 + 2 * export.frame_times@.len(),
    ensures
        runs[n].export == export,
        (runs[n].stage, runs[n].frame as nat) == run_after(export, n as nat),
    decreases n,
{
    if n > 0 {
        runs_go_through_their_stages(export, runs, actions, n - 1);
        assert(advances(runs[n - 1], OffscreenEvent::Done, runs[n - 1 + 1], actions[n - 1]));
        run_stages(export, (n - 1) as nat);
    }
}

/// An export is rendered at its frame times. As long as each action goes well, the actions that a run
/// asks for after its first two are to render a frame and to hand it to the encoder, in turn, once for
/// each frame time and in order; no other action does either. After the last frame the video is
/// finished, and then the run is over.
pub proof fn exports_are_rendered_at_their_frame_times(
    export: CroppedVideoExport,
    runs: Seq<OffscreenRun>,
    actions: Seq<OffscreenAction>,
    n: int,
)
    requires
        export.frame_times@.len() > 0,
        runs.len() == actions.len() + 1,
        runs[0] == fresh_run(export),
        forall|i: int|
            0 <= i < actions.len() ==> advances(
                runs[i],
                OffscreenEvent::Done,
                #[trigger] runs[i + 1],
                actions[i],
            ),
        0 <= n < actions.len(),
        n < 3 + 2 * export.frame_times@.len() + 1,
    ensures
        ({
            let count = export.frame_times@.len();
            let frame = (n - 2) / 2;
            &&& actions[n] is RenderFrame <==> 2 <= n < 2 + 2 * count && n % 2 == 0
            &&& actions[n] is WriteFrame <==> 2 <= n < 2 + 2 * count && n % 2 == 1
            &&& actions[n] is RenderFrame ==> actions[n] == (OffscreenAction::RenderFrame {
                time: export.frame_times@[frame],
            })
            &&& actions[n] is FinishEncoder <==> n == 2 + 2 * count
            &&& actions[n] is End <==> n == 3 + 2 * count
        }),
{
    let count = export.frame_times@.len();
    runs_go_through_their_stages(export, runs, actions, n);
    assert(advances(runs[n], OffscreenEvent::Done, runs[n + 1], actions[n]));
    run_stages(export, n as nat);
    if n < 3 + 2 * count {
        the_frame_times_are_rendered(export, (n + 1) as nat, actions[n]);
    }
}

/// A run in which something fails is over at once, whatever it was doing.
pub proof fn failed_runs_are_over(
    run: OffscreenRun,
    event: OffscreenEvent,
    next: OffscreenRun,
    action: OffscreenAction,
)
    requires
        advances(run, event, next, action),
        !(event is Done),
    ensures
        action is End,
        next.stage is Over,
        next.export == run.export,
{
}

/// Stages come one after the other. After the last frame the encoder is finished, whatever the number of
/// frames; then the run is over, and stays so.
pub proof fn the_encoder_is_finished_after_the_last_frame(frame: nat, count: nat)
    ensures
        after_success(OffscreenStage::RenderFrame, frame, count) == (
            OffscreenStage::WriteFrame,
            frame,
        ),
        frame + 1 >= count ==> after_success(OffscreenStage::WriteFrame, frame, count) == (
            OffscreenStage::FinishEncoder,
            frame,
        ),
        frame + 1 < count ==> after_success(OffscreenStage::WriteFrame, frame, count) == (
            OffscreenStage::RenderFrame,
            frame + 1,
        ),
        frame >= count ==> after_success(OffscreenStage::SpawnEncoder, frame, count) == (
            OffscreenStage::FinishEncoder,
            frame,
        ),
        after_success(OffscreenStage::FinishEncoder, frame, count) == (OffscreenStage::Over, frame),
        after_success(OffscreenStage::Over, frame, count) == (OffscreenStage::Over, frame),
{
}

/// The last action of a run ends it. It removes the files of the frames if there are any, and tells
/// whether the video was saved, and how many frames it has, or why it was not.
pub proof fn runs_end_with_what_is_told(
    run: OffscreenRun,
    event: OffscreenEvent,
    next: OffscreenRun,
    action: OffscreenAction,
)
    requires
        advances(run, event, next, action),
        event is Done ==> run.stage is FinishEncoder,
    ensures
        next == (OffscreenRun { stage: OffscreenStage::Over, ..run }),
        action matches OffscreenAction::End(effects) && {
            let told = commands::viewed(effects@);
            &&& told.len() > 0
            &&& (run.stage is RenderFrame || run.stage is WriteFrame || run.stage is FinishEncoder)
                ==> told.len() == 2 && told[0] == EffectView::RemoveDir(run.export.temp_dir)
            &&& (run.stage is CreateRenderer || run.stage is CheckLayout || run.stage is SpawnEncoder)
                ==> told.len() == 1
            &&& event is Done ==> told.last() == (EffectView::Report {
                severity: Severity::Info,
                text: "Saved "@ + text::decimal(run.export.frame_times@.len()) + " frame(s) for "@
                    + text::quoted(run.export.export_area.name@) + " to "@ + text::quoted_path(
                    run.export.output_path@,
                ) + "."@,
            })
            &&& event matches OffscreenEvent::Failed(err) ==> told.last() == (EffectView::Report {
                severity: Severity::Error,
                text: err@,
            })
        },
{
}

} // verus!
