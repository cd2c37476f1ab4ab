use luminance_glutin::CursorMode;
use luminance_glutin::DeviceError;
use luminance_glutin::WindowDim;
use luminance_glutin::WindowOpt;
use luminance_glutin::WindowPlan;
use luminance_glutin::context_request;
use luminance_glutin::cursor_mode;
use luminance_glutin::open_plan;
use luminance_glutin::plan_window;
use luminance_glutin::size_from;

#[test]
fn default_cursor_visible() {
    let opt = WindowOpt::default();
    assert!(!opt.is_cursor_hidden());
}

#[test]
fn hide_cursor_builder_toggles_flag() {
    let opt = WindowOpt::default().hide_cursor(true);
    assert!(opt.is_cursor_hidden());
    let opt = opt.hide_cursor(false);
    assert!(!opt.is_cursor_hidden());
}

#[test]
fn cursor_mode_follows_option() {
    assert_eq!(cursor_mode(&WindowOpt::default()), CursorMode::Visible);
    assert_eq!(
        cursor_mode(&WindowOpt::default().hide_cursor(true)),
        CursorMode::Hidden
    );
}

#[test]
fn plan_windowed_keeps_dimensions() {
    let plan = plan_window(&WindowDim::Windowed(800, 600));
    assert_eq!(
        plan,
        WindowPlan {
            dimensions: Some((800, 600)),
            fullscreen: false,
        }
    );
}

#[test]
fn plan_fullscreen_fixes_no_dimensions() {
    let plan = plan_window(&WindowDim::Fullscreen);
    assert_eq!(
        plan,
        WindowPlan {
            dimensions: None,
            fullscreen: true,
        }
    );
}

#[test]
fn plan_fullscreen_restricted_keeps_dimensions() {
    let plan = plan_window(&WindowDim::FullscreenRestricted(1024, 768));
    assert_eq!(
        plan,
        WindowPlan {
            dimensions: Some((1024, 768)),
            fullscreen: true,
        }
    );
}

#[test]
fn context_request_is_opengl_3_3_core() {
    let ctx = context_request();
    assert_eq!(ctx.api_major, 3);
    assert_eq!(ctx.api_minor, 3);
    assert!(ctx.core_profile);
}

#[test]
fn open_plan_scenario_windowed_800_600() {
    let plan = open_plan(
        &WindowDim::Windowed(800, 600),
        "t".to_string(),
        &WindowOpt::default(),
    );
    assert_eq!(plan.window.dimensions, Some((800, 600)));
    assert!(!plan.window.fullscreen);
    assert_eq!(plan.context.api_major, 3);
    assert_eq!(plan.context.api_minor, 3);
    assert!(plan.context.core_profile);
    assert_eq!(plan.cursor, CursorMode::Visible);
    assert_eq!(plan.title, "t");
}

#[test]
fn size_matches_backend_report() {
    assert_eq!(size_from(Some((800, 600))), [800, 600]);
}

#[test]
fn honored_plan_reports_requested_size() {
    let plan = plan_window(&WindowDim::Windowed(800, 600));
    assert_eq!(size_from(plan.dimensions), [800, 600]);
    let plan = plan_window(&WindowDim::FullscreenRestricted(1024, 768));
    assert_eq!(size_from(plan.dimensions), [1024, 768]);
}

#[test]
fn size_zero_without_backend_report() {
    assert_eq!(size_from(None), [0, 0]);
}

#[test]
fn device_error_wraps_creation_message() {
    let err = DeviceError::creation("context lost".to_string());
    assert_eq!(err, DeviceError::CreationError("context lost".to_string()));
    assert_eq!(err.message().as_str(), "context lost");
}
