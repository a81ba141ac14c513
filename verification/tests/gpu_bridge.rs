use re_viewer::commands::Effect;
use re_viewer::commands::Severity;
use re_viewer::gpu_bridge::report_pane_failure;
use re_viewer::gpu_bridge::PaneFailure;
use re_viewer::gpu_bridge::RendererPaneMetadata;
use re_viewer::gpu_bridge::RendererVideoExportScreenshot;
use re_viewer::gpu_bridge::RendererVideoExportState;
use re_viewer::types::UiRect;
use re_viewer::types::ViewId;

fn rect() -> UiRect {
    UiRect {
        min_x: 0f32.to_bits(),
        min_y: 0f32.to_bits(),
        max_x: 10f32.to_bits(),
        max_y: 20f32.to_bits(),
    }
}

fn view(id: u128) -> ViewId {
    ViewId { id }
}

#[test]
fn nothing_is_wanted_at_first() {
    let mut state = RendererVideoExportState::default();
    assert_eq!(state.take_request_for_view(view(1), rect(), 1), None);
}

#[test]
fn each_view_takes_its_screenshot_once() {
    let mut state = RendererVideoExportState::default();
    state.set_request(7, 3, vec![view(1), view(2)]);
    let scale = 1.5f32.to_bits();
    assert_eq!(
        state.take_request_for_view(view(2), rect(), scale),
        Some(RendererVideoExportScreenshot {
            export_id: 7,
            frame_index: 3,
            view_id: view(2),
            ui_rect: rect(),
            pixels_per_point: scale,
        })
    );
    assert_eq!(state.take_request_for_view(view(2), rect(), scale), None);
    assert_eq!(state.take_request_for_view(view(3), rect(), scale), None);
    assert!(state.current_request.is_some());
    assert!(state.take_request_for_view(view(1), rect(), scale).is_some());
    assert!(state.current_request.is_none());
}

#[test]
fn a_new_request_takes_the_place_of_the_old_one() {
    let mut state = RendererVideoExportState::default();
    state.set_request(1, 0, vec![view(1)]);
    state.set_request(1, 1, vec![view(2)]);
    assert_eq!(state.take_request_for_view(view(1), rect(), 0), None);
    let screenshot = state.take_request_for_view(view(2), rect(), 0).unwrap();
    assert_eq!(screenshot.frame_index, 1);
}

#[test]
fn a_cleared_request_is_gone() {
    let mut state = RendererVideoExportState::default();
    state.set_request(1, 0, vec![view(1)]);
    state.clear_request();
    assert_eq!(state.take_request_for_view(view(1), rect(), 0), None);
}

#[test]
fn a_view_that_is_asked_for_twice_is_served_once() {
    let mut state = RendererVideoExportState::default();
    state.set_request(1, 0, vec![view(1), view(1)]);
    assert!(state.take_request_for_view(view(1), rect(), 0).is_some());
    assert!(state.current_request.is_none());
}

#[test]
fn panes_without_a_view_take_nothing() {
    let mut state = RendererVideoExportState::default();
    state.set_request(1, 0, vec![view(1)]);
    assert_eq!(state.take_request_for_pane(None, rect(), 0), None);
    let pane = RendererPaneMetadata { view_id: view(1) };
    assert!(state.take_request_for_pane(Some(pane), rect(), 0).is_some());
    assert_eq!(state.take_request_for_pane(Some(pane), rect(), 0), None);
}

#[test]
fn failures_of_panes_are_told_once() {
    let cases = vec![
        (
            PaneFailure::NoContextToPrepare,
            Severity::Error,
            "Failed to execute egui prepare callback. No render context available.",
        ),
        (
            PaneFailure::NoContextToPaint,
            Severity::Error,
            "Failed to execute egui draw callback. No render context available.",
        ),
        (
            PaneFailure::ScreenshotNotScheduled("why".to_owned()),
            Severity::Warning,
            "Failed to schedule video export screenshot: why",
        ),
        (
            PaneFailure::NotDrawn("why".to_owned()),
            Severity::Error,
            "Failed to fill view builder: why",
        ),
    ];
    for (failure, severity, text) in cases {
        assert_eq!(
            report_pane_failure(failure),
            Effect::ReportOnce {
                severity,
                text: text.to_owned()
            }
        );
    }
}
