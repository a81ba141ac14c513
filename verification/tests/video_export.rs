use re_viewer::commands::Effect;
use re_viewer::commands::Severity;
use re_viewer::commands::SystemCommand;
use re_viewer::gpu_bridge::RendererVideoExportScreenshot;
use re_viewer::gpu_bridge::RendererVideoExportState;
use re_viewer::rgba::Rgba;
use re_viewer::rgba::RgbaFrame;
use re_viewer::types::EncodingJob;
use re_viewer::types::PlayState;
use re_viewer::types::StoreId;
use re_viewer::types::TimeControlCommand;
use re_viewer::types::TimeRange;
use re_viewer::types::TimeReal;
use re_viewer::types::TimeTarget;
use re_viewer::types::UiRect;
use re_viewer::types::ViewId;
use re_viewer::video_export::composite_cropped_video_frame;
use re_viewer::video_export::on_encoding_started;
use re_viewer::video_export::CaptureAction;
use re_viewer::video_export::CaptureStep;
use re_viewer::video_export::CapturedVideoViewFrame;
use re_viewer::video_export::CroppedVideoExportPhase;
use re_viewer::video_export::VideoExportArea;
use re_viewer::video_export::VideoExportView;
use re_viewer::video_export::VideoExporter;
use re_viewer::video_start::TimeControlState;
use re_viewer::video_files::frame_files_head;
use re_viewer::video_start::VideoExportPlan;

const BACKGROUND: Rgba = Rgba {
    r: 9,
    g: 9,
    b: 9,
    a: 255,
};

fn rect() -> UiRect {
    UiRect {
        min_x: 0,
        min_y: 0,
        max_x: 4f32.to_bits(),
        max_y: 2f32.to_bits(),
    }
}

fn recording() -> StoreId {
    StoreId::recording("app".to_owned(), "rec".to_owned())
}

fn export_view(id: u128) -> VideoExportView {
    VideoExportView {
        view_id: ViewId { id },
        rect: rect(),
        label: format!("view {id}"),
    }
}

fn plan(ids: Vec<u128>) -> VideoExportPlan {
    VideoExportPlan {
        export_area: VideoExportArea {
            name: "scene".to_owned(),
            rect: rect(),
            views: ids.into_iter().map(export_view).collect(),
            pixels_per_point: 1f32.to_bits(),
            rounded_width: 4,
            rounded_height: 2,
        },
        time_control: TimeControlState {
            timeline: "frame".to_owned(),
            time: Some(TimeReal { bits: 77 }),
            play_state: PlayState::Playing,
            fps: 30f32.to_bits(),
        },
        crop_range: TimeRange { min: 0, max: 9 },
    }
}

fn exporter(ids: Vec<u128>, frame_times: Vec<i64>) -> VideoExporter {
    let mut exporter = VideoExporter::new();
    exporter.next_export_id = 6;
    let effects = exporter.start_export(
        plan(ids),
        5,
        recording(),
        "out.mp4".to_owned(),
        "/tmp/frames".to_owned(),
        frame_times.clone(),
    );
    assert_eq!(
        effects,
        vec![
            time_commands(vec![
                TimeControlCommand::SetActiveTimeline("frame".to_owned()),
                TimeControlCommand::SetPlayState(PlayState::Paused),
                TimeControlCommand::SetTime(TimeTarget::Int(frame_times[0])),
            ]),
            Effect::Report {
                severity: Severity::Info,
                text: format!(
                    "Starting video export for \"scene\" with {} frame(s).",
                    frame_times.len()
                ),
            },
            Effect::RequestRepaint,
        ]
    );
    exporter
}

fn time_commands(time_commands: Vec<TimeControlCommand>) -> Effect {
    Effect::SendSystem(SystemCommand::TimeControlCommands {
        store_id: recording(),
        time_commands,
    })
}

fn restored() -> Effect {
    time_commands(vec![
        TimeControlCommand::SetActiveTimeline("frame".to_owned()),
        TimeControlCommand::SetTime(TimeTarget::Real(TimeReal { bits: 77 })),
        TimeControlCommand::SetPlayState(PlayState::Playing),
    ])
}

fn screenshot(frame_index: usize, id: u128) -> RendererVideoExportScreenshot {
    RendererVideoExportScreenshot {
        export_id: 5,
        frame_index,
        view_id: ViewId { id },
        ui_rect: rect(),
        pixels_per_point: 1f32.to_bits(),
    }
}

fn pixels(color: [u8; 4], count: usize) -> Vec<u8> {
    color.repeat(count)
}

fn capture(exporter: &mut VideoExporter, frame_index: usize, id: u128) -> CaptureStep {
    exporter.handle_cropped_video_view_frame(
        pixels([1, 2, 3, 255], 4),
        2,
        2,
        screenshot(frame_index, id),
        "label",
        0,
        0,
        BACKGROUND,
    )
}

#[test]
fn a_new_exporter_is_idle() {
    let exporter = VideoExporter::new();
    assert!(!exporter.is_cropped_video_busy(false));
    assert!(exporter.is_cropped_video_busy(true));
    assert_eq!(exporter.next_export_id, 1);
}

#[test]
fn screenshots_are_asked_for_after_a_frame() {
    let mut exporter = exporter(vec![1, 2], vec![10, 20]);
    assert!(exporter.is_cropped_video_busy(false));
    assert_eq!(
        exporter.prepare_cropped_video_export_frame_request(),
        (None, true)
    );
    let (request, repaint) = exporter.prepare_cropped_video_export_frame_request();
    let request = request.unwrap();
    assert!(!repaint);
    assert_eq!((request.export_id, request.frame_index), (5, 0));
    assert_eq!(request.view_ids, vec![ViewId { id: 1 }, ViewId { id: 2 }]);
    assert_eq!(
        exporter.prepare_cropped_video_export_frame_request(),
        (None, true)
    );
    let export = exporter.cropped_video_export.unwrap();
    assert_eq!(export.phase, CroppedVideoExportPhase::AwaitViewScreenshots);
}

#[test]
fn the_renderer_is_asked_when_it_is_time() {
    let mut exporter = exporter(vec![1], vec![10]);
    let mut state = RendererVideoExportState::default();
    assert!(exporter.request_screenshots(&mut state));
    assert!(state.current_request.is_none());
    assert!(!exporter.request_screenshots(&mut state));
    let taken = state.take_request_for_view(ViewId { id: 1 }, rect(), 1f32.to_bits());
    assert_eq!(taken, Some(screenshot(0, 1)));
    assert!(exporter.request_screenshots(&mut state));
    assert!(state.current_request.is_none());
}

#[test]
fn all_frames_are_captured() {
    let mut exporter = exporter(vec![1, 2], vec![10, 20]);
    assert_eq!(capture(&mut exporter, 0, 1), CaptureStep::AwaitOthers);
    assert_eq!(capture(&mut exporter, 0, 1), CaptureStep::AwaitOthers);
    match capture(&mut exporter, 0, 2) {
        CaptureStep::WriteFrame { path, png } => {
            assert!(path.starts_with("/tmp/frames"));
            assert!(path.ends_with("frame_000000.png"));
            assert_eq!(&png[..8], b"\x89PNG\r\n\x1a\n");
        }
        other => panic!("unexpected: {other:?}"),
    }
    assert_eq!(
        exporter.on_frame_written(),
        vec![
            time_commands(vec![TimeControlCommand::SetTime(TimeTarget::Int(20))]),
            Effect::RequestRepaint,
        ]
    );
    let export = exporter.cropped_video_export.as_ref().unwrap();
    assert_eq!(export.frame_index, 1);
    assert_eq!(export.frames_until_capture, 1);
    assert_eq!(export.captured_views.len(), 0);

    assert_eq!(capture(&mut exporter, 1, 1), CaptureStep::AwaitOthers);
    assert!(matches!(
        capture(&mut exporter, 1, 2),
        CaptureStep::WriteFrame { .. }
    ));
    assert_eq!(
        exporter.on_frame_written(),
        vec![
            Effect::ClearVideoRequest,
            restored(),
            Effect::EncodeVideo(EncodingJob {
                temp_dir: "/tmp/frames".to_owned(),
                frame_head: frame_files_head("/tmp/frames"),
                output_path: "out.mp4".to_owned(),
                fps: 30f32.to_bits(),
                frame_count: 2,
                name: "scene".to_owned(),
            }),
            Effect::RequestRepaint,
        ]
    );
    assert!(exporter.cropped_video_export.is_none());
    assert_eq!(exporter.on_frame_written(), vec![]);
}

#[test]
fn late_captures_are_ignored() {
    let mut exporter = exporter(vec![1], vec![10, 20]);
    assert_eq!(capture(&mut exporter, 1, 1), CaptureStep::Ignored);
    let mut other = screenshot(0, 1);
    other.export_id = 4;
    assert_eq!(
        exporter.handle_cropped_video_view_frame(
            Vec::new(),
            2,
            2,
            other,
            "label",
            0,
            0,
            BACKGROUND
        ),
        CaptureStep::Ignored
    );
    assert_eq!(
        exporter
            .cropped_video_export
            .as_ref()
            .unwrap()
            .captured_views
            .len(),
        0
    );
    let mut idle = VideoExporter::new();
    assert_eq!(capture(&mut idle, 0, 1), CaptureStep::Ignored);
}

#[test]
fn frames_of_any_size_are_waited_for() {
    let mut exporter = exporter(vec![1, 2], vec![10, 20]);
    let export = exporter.cropped_video_export.as_mut().unwrap();
    export.export_area.rounded_width = u32::MAX;
    export.export_area.rounded_height = u32::MAX;
    assert_eq!(capture(&mut exporter, 1, 1), CaptureStep::Ignored);
    assert_eq!(capture(&mut exporter, 0, 1), CaptureStep::AwaitOthers);
    assert_eq!(capture(&mut exporter, 0, 1), CaptureStep::AwaitOthers);
}

#[test]
fn short_captures_end_the_export() {
    let mut exporter = exporter(vec![1], vec![10]);
    let step = exporter.handle_cropped_video_view_frame(
        vec![0; 15],
        2,
        2,
        screenshot(0, 1),
        "view 1",
        0,
        0,
        BACKGROUND,
    );
    assert_eq!(
        step,
        CaptureStep::Failed("Failed to reconstruct renderer screenshot for view 1".to_owned())
    );
    let action = exporter.collect_cropped_video_view_frame(
        vec![0; 15],
        2,
        2,
        screenshot(0, 1),
        "view 1",
        0,
        0,
        BACKGROUND,
    );
    assert_eq!(
        action,
        CaptureAction::Abort(vec![
            Effect::ClearVideoRequest,
            restored(),
            Effect::RemoveDir("/tmp/frames".to_owned()),
            Effect::Report {
                severity: Severity::Error,
                text: "Failed to reconstruct renderer screenshot for view 1".to_owned(),
            },
        ])
    );
    assert!(exporter.cropped_video_export.is_none());
}

#[test]
fn captures_of_other_views_do_not_make_a_frame() {
    let mut exporter = exporter(vec![1, 2], vec![10]);
    assert_eq!(capture(&mut exporter, 0, 1), CaptureStep::AwaitOthers);
    assert_eq!(
        capture(&mut exporter, 0, 3),
        CaptureStep::Failed("Missing captured view image for view 2".to_owned())
    );
}

#[test]
fn collecting_waits_writes_and_goes_on() {
    let mut exporter = exporter(vec![1, 2], vec![10]);
    let mut collect = |frame_index: usize, id: u128| {
        exporter.collect_cropped_video_view_frame(
            pixels([1, 2, 3, 255], 4),
            2,
            2,
            screenshot(frame_index, id),
            "label",
            0,
            0,
            BACKGROUND,
        )
    };
    assert_eq!(collect(9, 1), CaptureAction::Continue(vec![]));
    assert_eq!(
        collect(0, 1),
        CaptureAction::Continue(vec![Effect::RequestRepaint])
    );
    assert!(matches!(collect(0, 2), CaptureAction::WriteFrame { .. }));
}

#[test]
fn an_idle_exporter_can_be_aborted() {
    let mut exporter = VideoExporter::new();
    assert_eq!(
        exporter.abort_cropped_video_export("why".to_owned()),
        vec![
            Effect::ClearVideoRequest,
            Effect::Report {
                severity: Severity::Error,
                text: "why".to_owned(),
            },
        ]
    );
    assert_eq!(
        exporter.finish_cropped_video_capture(),
        vec![Effect::ClearVideoRequest]
    );
}

#[test]
fn nothing_is_set_to_an_unknown_time() {
    let mut exporter = exporter(vec![1], vec![10]);
    exporter.cropped_video_export.as_mut().unwrap().original_time = None;
    let effects = exporter.abort_cropped_video_export("why".to_owned());
    assert_eq!(
        effects[1],
        time_commands(vec![
            TimeControlCommand::SetActiveTimeline("frame".to_owned()),
            TimeControlCommand::SetPlayState(PlayState::Playing),
        ])
    );
}

#[test]
fn captures_are_laid_over_the_background() {
    let mut exporter = exporter(vec![1, 2], vec![10]);
    let export = exporter.cropped_video_export.as_mut().unwrap();
    let image = |color: [u8; 4], width: u32, height: u32| RgbaFrame {
        width,
        height,
        data: pixels(color, (width * height) as usize),
    };
    export.captured_views.insert(
        1,
        CapturedVideoViewFrame {
            image: image([1, 1, 1, 255], 3, 3),
            x: -1,
            y: -1,
        },
    );
    export.captured_views.insert(
        2,
        CapturedVideoViewFrame {
            image: image([2, 2, 2, 255], 1, 2),
            x: 1,
            y: 1,
        },
    );
    let frame = composite_cropped_video_frame(export, BACKGROUND).unwrap();
    assert_eq!((frame.width, frame.height), (4, 2));
    let reds: Vec<u8> = frame.data.chunks(4).map(|pixel| pixel[0]).collect();
    assert_eq!(reds, vec![1, 1, 9, 9, 1, 2, 9, 9]);
}

#[test]
fn transparent_captures_leave_the_background() {
    let mut exporter = exporter(vec![1], vec![10]);
    let export = exporter.cropped_video_export.as_mut().unwrap();
    export.captured_views.insert(
        1,
        CapturedVideoViewFrame {
            image: RgbaFrame {
                width: 4,
                height: 2,
                data: pixels([200, 0, 0, 0], 8),
            },
            x: 0,
            y: 0,
        },
    );
    let frame = composite_cropped_video_frame(export, BACKGROUND).unwrap();
    assert_eq!(frame.data, pixels([9, 9, 9, 255], 8));
    export.captured_views.get_mut(&1).unwrap().image.data = pixels([209, 9, 9, 128], 8);
    let frame = composite_cropped_video_frame(export, BACKGROUND).unwrap();
    assert!(frame.data[0] > 9 && frame.data[0] < 209);
    let mut mixed = image::Rgba([9u8, 9, 9, 255]);
    image::Pixel::blend(&mut mixed, &image::Rgba([209, 9, 9, 128]));
    assert_eq!(frame.data[..4], mixed.0);
}

#[test]
fn frames_are_never_empty() {
    let mut area = plan(vec![1]).export_area;
    assert_eq!(area.frame_size(), (4, 2));
    area.rounded_width = 0;
    area.rounded_height = 0;
    assert_eq!(area.frame_size(), (1, 1));
}

#[test]
fn the_user_is_told_that_encoding_has_started() {
    let job = || EncodingJob {
        temp_dir: "/tmp/frames".to_owned(),
        frame_head: "/tmp/frames/frame_".to_owned(),
        output_path: "out.mp4".to_owned(),
        fps: 30f32.to_bits(),
        frame_count: 12,
        name: "my \"scene\"".to_owned(),
    };
    assert_eq!(
        on_encoding_started(job(), Ok(())),
        vec![Effect::Report {
            severity: Severity::Info,
            text: "Captured 12 frame(s) for \"my \\\"scene\\\"\"; encoding MP4 in the background."
                .to_owned(),
        }]
    );
    assert_eq!(
        on_encoding_started(job(), Err("busy".to_owned())),
        vec![
            Effect::RemoveDir("/tmp/frames".to_owned()),
            Effect::Report {
                severity: Severity::Error,
                text: "Failed to start cropped video export: busy".to_owned(),
            },
        ]
    );
}
