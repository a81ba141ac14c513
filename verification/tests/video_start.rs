use re_viewer::commands::Effect;
use re_viewer::commands::Severity;
use re_viewer::types::PlayState;
use re_viewer::types::StoreId;
use re_viewer::types::TimeRange;
use re_viewer::types::TimeSelection;
use re_viewer::types::UiRect;
use re_viewer::types::ViewId;
use re_viewer::video_export::VideoExportArea;
use re_viewer::video_export::VideoExportView;
use re_viewer::video_export::VideoExporter;
use re_viewer::video_start::check_frames;
use re_viewer::video_start::on_video_encoded;
use re_viewer::video_start::plan_video_export;
use re_viewer::video_start::views_to_capture;
use re_viewer::video_start::CapturableClasses;
use re_viewer::video_start::PathStep;
use re_viewer::video_start::PublishedViewInfo;
use re_viewer::video_start::TimeControlState;
use re_viewer::video_start::ViewportView;

fn rect(n: u32) -> UiRect {
    UiRect {
        min_x: n,
        min_y: n,
        max_x: n,
        max_y: n,
    }
}

fn classes() -> CapturableClasses {
    CapturableClasses {
        spatial_2d: "2D".to_owned(),
        spatial_3d: "3D".to_owned(),
        map: "Map".to_owned(),
    }
}

fn view(id: u32, class: Option<&str>, name: Option<&str>) -> ViewportView {
    ViewportView {
        view_id: ViewId { id: id as u128 },
        label: format!("view {id}"),
        class_identifier: class.map(str::to_owned),
        info: name.map(|name| PublishedViewInfo {
            name: name.to_owned(),
            rect: rect(id),
        }),
    }
}

fn area() -> VideoExportArea {
    VideoExportArea {
        name: "scene".to_owned(),
        rect: rect(0),
        views: vec![],
        pixels_per_point: 0,
        rounded_width: 4,
        rounded_height: 2,
    }
}

fn time_control() -> TimeControlState {
    TimeControlState {
        timeline: "frame".to_owned(),
        time: None,
        play_state: PlayState::Paused,
        fps: 0,
    }
}

fn range(min: i64, max: i64) -> TimeRange {
    TimeRange { min, max }
}

fn err<T>(text: &str) -> Result<T, String> {
    Err(text.to_owned())
}

#[test]
fn a_single_view_gives_its_name() {
    let views = vec![
        view(1, Some("3D"), Some("scene")),
        view(2, Some("Plot"), None),
        view(3, None, Some("gone")),
    ];
    let captured = views_to_capture(&views, &classes()).unwrap();
    assert_eq!(captured.name, "scene");
    assert_eq!(
        captured.views,
        vec![VideoExportView {
            view_id: ViewId { id: 1 },
            rect: rect(1),
            label: "view 1".to_owned(),
        }]
    );
}

#[test]
fn several_views_are_the_viewport() {
    let views = vec![
        view(1, Some("2D"), Some("a")),
        view(2, Some("Map"), Some("b")),
    ];
    let captured = views_to_capture(&views, &classes()).unwrap();
    assert_eq!(captured.name, "viewport");
    assert_eq!(captured.views.len(), 2);
    let made = captured.video_export_area(rect(9), true, 7, 5, 6).unwrap();
    assert_eq!(made.views.len(), 2);
    assert_eq!((made.rect, made.pixels_per_point), (rect(9), 7));
    assert_eq!((made.rounded_width, made.rounded_height), (5, 6));
}

#[test]
fn all_visible_views_have_to_be_capturable() {
    assert_eq!(views_to_capture(&vec![], &classes()), None);
    assert_eq!(
        views_to_capture(&vec![view(1, Some("2D"), None)], &classes()),
        None
    );
    let views = vec![
        view(1, Some("2D"), Some("a")),
        view(2, Some("Plot"), Some("b")),
        view(3, Some("2D"), Some("c")),
    ];
    assert_eq!(views_to_capture(&views, &classes()), None);
}

#[test]
fn an_empty_area_is_none() {
    let views = vec![view(1, Some("2D"), Some("a"))];
    let captured = views_to_capture(&views, &classes()).unwrap();
    assert_eq!(captured.video_export_area(rect(0), false, 0, 0, 0), None);
}

#[test]
fn exports_do_not_overlap() {
    let mut exporter = VideoExporter::new();
    assert_eq!(exporter.check_export_can_start(true, false), Ok(()));
    assert_eq!(
        exporter.check_export_can_start(false, true),
        err("No recording data to export")
    );
    assert_eq!(
        exporter.check_export_can_start(true, true),
        err("A cropped video export is already in progress")
    );
    let plan = plan_video_export(
        Some(area()),
        Some(time_control()),
        Some(range(0, 1)),
        None,
    )
    .unwrap();
    exporter.next_export_id = 2;
    exporter.start_export(
        plan,
        1,
        StoreId::recording("a".to_owned(), "b".to_owned()),
        String::new(),
        String::new(),
        vec![1, 2, 3],
    );
    assert_eq!(
        exporter.check_export_can_start(true, false),
        err("A cropped video export is already in progress")
    );
    let progress = exporter.progress(true).unwrap();
    assert_eq!(progress.title, "cropped_video_capture_spin");
    assert_eq!(progress.details, "Capturing cropped video\u{2026} 1/3");
}

#[test]
fn a_plan_needs_a_layout_a_time_control_and_data() {
    assert_eq!(
        plan_video_export(None, None, None, None),
        err("No visible viewport layout is available for video export")
    );
    assert_eq!(
        plan_video_export(Some(area()), None, None, None),
        err("No time control available for the active recording")
    );
    assert_eq!(
        plan_video_export(Some(area()), Some(time_control()), None, None),
        err("The active timeline has no temporal data")
    );
}

#[test]
fn the_loop_selection_crops_its_own_timeline() {
    let selection = |timeline: &str| {
        Some(TimeSelection {
            timeline: timeline.to_owned(),
            range: range(3, 4),
        })
    };
    let crop = |selection: Option<TimeSelection>| {
        plan_video_export(
            Some(area()),
            Some(time_control()),
            Some(range(0, 9)),
            selection,
        )
        .unwrap()
        .crop_range
    };
    assert_eq!(crop(selection("frame")), range(3, 4));
    assert_eq!(crop(selection("log_time")), range(0, 9));
    assert_eq!(crop(None), range(0, 9));
}

#[test]
fn an_empty_range_is_an_error() {
    assert_eq!(check_frames(&vec![1]), Ok(()));
    assert_eq!(
        check_frames(&vec![]),
        err("The current crop range contains no frames on the active timeline")
    );
}

#[test]
fn nothing_is_handed_out_without_a_file() {
    let mut exporter = VideoExporter::new();
    exporter.next_export_id = u64::MAX;
    assert!(matches!(
        exporter.on_video_path_chosen(None),
        PathStep::Cancelled(_)
    ));
    assert_eq!(exporter.next_export_id, u64::MAX);
}

#[test]
fn each_export_gets_an_id_of_its_own() {
    let mut exporter = VideoExporter::new();
    let mut ids = vec![];
    for path in [Some("a"), None, Some("b"), Some("b")] {
        match exporter.on_video_path_chosen(path.map(str::to_owned)) {
            PathStep::CreateTempDir {
                export_id,
                output_path,
            } => {
                assert_eq!(Some(output_path.as_str()), path);
                ids.push(export_id);
            }
            PathStep::Cancelled(effects) => {
                assert_eq!(path, None);
                assert_eq!(
                    effects,
                    vec![Effect::Report {
                        severity: Severity::Info,
                        text: "No file selected - video not saved.".to_owned(),
                    }]
                );
            }
        }
    }
    assert_eq!(ids, vec![1, 2, 3]);
}

#[test]
fn encoding_shows_its_progress() {
    let exporter = VideoExporter::new();
    assert_eq!(exporter.progress(false), None);
    let progress = exporter.progress(true).unwrap();
    assert_eq!(progress.title, "cropped_video_encode_spin");
    assert_eq!(progress.details, "Encoding cropped video\u{2026}");
}

#[test]
fn the_user_is_told_about_the_video() {
    assert_eq!(
        on_video_encoded(Ok("/home/my video.mp4".to_owned())),
        vec![Effect::Report {
            severity: Severity::Info,
            text: "Cropped video saved to \"/home/my video.mp4\".".to_owned(),
        }]
    );
    assert_eq!(
        on_video_encoded(Err("why".to_owned())),
        vec![Effect::Report {
            severity: Severity::Error,
            text: "why".to_owned(),
        }]
    );
}
