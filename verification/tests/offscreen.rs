use re_viewer::commands::Effect;
use re_viewer::commands::Severity;
use re_viewer::offscreen::OffscreenAction;
use re_viewer::offscreen::OffscreenEvent;
use re_viewer::offscreen::OffscreenRun;
use re_viewer::offscreen::OffscreenStage;
use re_viewer::types::PlayState;
use re_viewer::types::StoreId;
use re_viewer::types::TimeControlCommand;
use re_viewer::types::TimeRange;
use re_viewer::types::UiRect;
use re_viewer::video_export::VideoExportArea;
use re_viewer::video_export::VideoExporter;
use re_viewer::video_start::TimeControlState;
use re_viewer::video_start::VideoExportPlan;

fn run(frame_times: Vec<i64>) -> OffscreenRun {
    let mut exporter = VideoExporter::new();
    exporter.next_export_id = 2;
    let plan = VideoExportPlan {
        export_area: VideoExportArea {
            name: "scene".to_owned(),
            rect: UiRect {
                min_x: 0,
                min_y: 0,
                max_x: 0,
                max_y: 0,
            },
            views: vec![],
            pixels_per_point: 1f32.to_bits(),
            rounded_width: 8,
            rounded_height: 0,
        },
        time_control: TimeControlState {
            timeline: "frame".to_owned(),
            time: None,
            play_state: PlayState::Paused,
            fps: 30f32.to_bits(),
        },
        crop_range: TimeRange { min: 0, max: 9 },
    };
    exporter.start_export(
        plan,
        1,
        StoreId::recording("app".to_owned(), "rec".to_owned()),
        "out.mp4".to_owned(),
        "/tmp/frames".to_owned(),
        frame_times,
    );
    let run = exporter.take_for_offscreen().unwrap();
    assert!(exporter.cropped_video_export.is_none());
    assert!(exporter.take_for_offscreen().is_none());
    run
}

fn report(severity: Severity, text: &str) -> Effect {
    Effect::Report {
        severity,
        text: text.to_owned(),
    }
}

#[test]
fn a_run_renders_all_frames() {
    let mut run = run(vec![10, 20]);
    assert_eq!(run.first_action(), OffscreenAction::CreateRenderer);
    let mut actions = vec![];
    while run.stage != OffscreenStage::Over {
        actions.push(run.advance(OffscreenEvent::Done));
    }
    assert_eq!(
        actions,
        vec![
            OffscreenAction::CheckLayout,
            OffscreenAction::SpawnEncoder {
                time_commands: vec![
                    TimeControlCommand::SetActiveTimeline("frame".to_owned()),
                    TimeControlCommand::SetPlayState(PlayState::Paused),
                ],
                width: 8,
                height: 1,
            },
            OffscreenAction::RenderFrame { time: 10 },
            OffscreenAction::WriteFrame,
            OffscreenAction::RenderFrame { time: 20 },
            OffscreenAction::WriteFrame,
            OffscreenAction::FinishEncoder,
            OffscreenAction::End(vec![
                Effect::RemoveDir("/tmp/frames".to_owned()),
                report(
                    Severity::Info,
                    "Saved 2 frame(s) for \"scene\" to \"out.mp4\"."
                ),
            ]),
        ]
    );
}

#[test]
fn a_run_without_a_layout_ends() {
    let mut run = run(vec![10]);
    run.advance(OffscreenEvent::Done);
    assert_eq!(
        run.advance(OffscreenEvent::InvalidLayout),
        OffscreenAction::End(vec![report(
            Severity::Error,
            "No valid viewport layout is available for video export"
        )])
    );
}

#[test]
fn frame_files_are_removed_once_the_encoder_runs() {
    for successes in 0..6 {
        let mut run = run(vec![10]);
        for _ in 0..successes {
            run.advance(OffscreenEvent::Done);
        }
        let mut expected = vec![report(Severity::Error, "why")];
        if successes >= 3 {
            expected.insert(0, Effect::RemoveDir("/tmp/frames".to_owned()));
        }
        assert_eq!(
            run.advance(OffscreenEvent::Failed("why".to_owned())),
            OffscreenAction::End(expected)
        );
        assert_eq!(run.stage, OffscreenStage::Over);
    }
}
