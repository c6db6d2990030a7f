use colormel::capture::{
    classify_acquire, negotiate_capture_format, release_tolerated, AcquireOutcome, CaptureStep,
    Duplication, ERROR_INVALID_CALL, FORMAT_B8G8R8A8_UNORM, FORMAT_B8G8R8A8_UNORM_SRGB,
    FORMAT_R16G16B16A16_FLOAT,
};
use colormel::color::Pixel;
use colormel::config::{
    Config, Rect, COLORCLOUD_MODE_HSL, FILTER_MODE_LUMA, HISTOGRAM_MODE_RGB,
};
use colormel::pipeline::{
    pass_sequence, pipeline_step, LoopAction, PassKind, Pipeline, Visualizer,
};
use colormel::swapchain::SwapChain;

fn px(r: u8, g: u8, b: u8) -> Pixel {
    Pixel { r, g, b }
}

fn config_with_window(width: u32, height: u32) -> Config {
    let mut c = Config::default();
    c.window_rect = Rect { x: 0, y: 0, width, height };
    c
}

#[test]
fn format_negotiation() {
    assert_eq!(negotiate_capture_format(FORMAT_B8G8R8A8_UNORM), FORMAT_B8G8R8A8_UNORM_SRGB);
    assert_eq!(negotiate_capture_format(FORMAT_R16G16B16A16_FLOAT), FORMAT_R16G16B16A16_FLOAT);
    assert_eq!(negotiate_capture_format(24), FORMAT_R16G16B16A16_FLOAT);
}

#[test]
fn acquire_classification() {
    assert_eq!(
        classify_acquire(AcquireOutcome::Acquired { accumulated_frames: 0 }),
        CaptureStep::NoFrame
    );
    assert_eq!(
        classify_acquire(AcquireOutcome::Acquired { accumulated_frames: 3 }),
        CaptureStep::Frame
    );
    assert_eq!(classify_acquire(AcquireOutcome::TimedOut), CaptureStep::NoFrame);
    assert_eq!(
        classify_acquire(AcquireOutcome::Failed { code: 77 }),
        CaptureStep::Fatal { code: 77 }
    );
}

#[test]
fn release_error_tolerance() {
    assert!(release_tolerated(ERROR_INVALID_CALL));
    assert!(!release_tolerated(5));
}

#[test]
fn duplication_owns_frame_only_after_fresh_capture() {
    let mut dupl = Duplication::new(FORMAT_B8G8R8A8_UNORM);
    assert_eq!(dupl.format, FORMAT_B8G8R8A8_UNORM_SRGB);
    assert!(!dupl.has_frame);
    let step = dupl.duplicate(AcquireOutcome::Acquired { accumulated_frames: 1 });
    assert_eq!(step, CaptureStep::Frame);
    assert!(dupl.has_frame);
    // The next call releases the held frame whatever happens.
    let step = dupl.duplicate(AcquireOutcome::TimedOut);
    assert_eq!(step, CaptureStep::NoFrame);
    assert!(!dupl.has_frame);
}

#[test]
fn pass_order_is_fixed() {
    let mut c = Config::default();
    c.enable_filter = true;
    c.enable_histogram = true;
    c.enable_color_cloud = true;
    c.show_grid = true;
    let order = pass_sequence(&c);
    assert_eq!(
        order,
        vec![PassKind::Filter, PassKind::ColorCloud, PassKind::Grid, PassKind::Histogram]
    );
}

#[test]
fn grid_runs_only_beside_the_cloud() {
    let mut c = Config::default();
    c.show_grid = true;
    c.enable_histogram = true;
    let order = pass_sequence(&c);
    assert_eq!(order, vec![PassKind::Histogram]);
    c.enable_color_cloud = true;
    let order = pass_sequence(&c);
    assert_eq!(order, vec![PassKind::ColorCloud, PassKind::Grid, PassKind::Histogram]);
}

#[test]
fn step_decisions() {
    assert_eq!(pipeline_step(true, true, CaptureStep::NoFrame), LoopAction::Backoff { ms: 10 });
    assert_eq!(pipeline_step(true, true, CaptureStep::Frame), LoopAction::Render);
    assert_eq!(
        pipeline_step(true, true, CaptureStep::Fatal { code: 3 }),
        LoopAction::Abort { code: 3 }
    );
    assert_eq!(pipeline_step(true, false, CaptureStep::Frame), LoopAction::Exit);
}

#[test]
fn stop_flag_exits_under_every_capture_outcome() {
    for capture in [CaptureStep::Frame, CaptureStep::NoFrame, CaptureStep::Fatal { code: 9 }] {
        assert_eq!(pipeline_step(false, true, capture), LoopAction::Exit);
        assert_eq!(pipeline_step(false, false, capture), LoopAction::Exit);
    }
}

#[test]
fn terminate_lowers_the_flag_idempotently() {
    let mut v = Visualizer::new();
    assert!(v.keep_running);
    v.terminate();
    assert!(!v.keep_running);
    v.terminate();
    assert!(!v.keep_running);
}

#[test]
fn resize_same_size_is_a_no_op() {
    let mut sc = SwapChain::new(640, 480);
    let before = sc.render_target();
    sc.resize(640, 480);
    let after = sc.render_target();
    assert_eq!(before, after);
    assert_eq!(sc.generation, 0);
}

#[test]
fn resize_new_size_reallocates() {
    let mut sc = SwapChain::new(640, 480);
    sc.resize(800, 600);
    assert_eq!(sc.width, 800);
    assert_eq!(sc.height, 600);
    assert_eq!(sc.generation, 1);
    sc.resize(800, 601);
    assert_eq!(sc.generation, 2);
}

#[test]
fn luma_filter_over_gray_frame_shows_the_input() {
    // Filter enabled in luma mode, everything else off: a solid gray frame
    // comes back unchanged and no histogram or cloud output exists.
    let mut pipeline = Pipeline::new();
    let mut config = config_with_window(8, 4);
    config.enable_filter = true;
    config.filter_mode = FILTER_MODE_LUMA;
    config.enable_histogram = false;
    config.enable_color_cloud = false;
    let frame = vec![px(120, 120, 120); 32];
    let out = pipeline.process(&frame, &config);
    let (params, shown) = out.filter.expect("filter enabled");
    assert_eq!(params.mode, FILTER_MODE_LUMA);
    assert_eq!(shown, frame);
    assert!(out.histogram.is_none());
    assert!(out.cloud.is_none());
    assert!(out.grid.is_none());
    assert_eq!(out.clear_alpha, 0);
}

#[test]
fn rgb_histogram_of_solid_red_frame() {
    // Histogram enabled in RGB mode: a solid red frame puts width*height
    // pixels in the red channel's top bin and nothing anywhere else.
    let mut pipeline = Pipeline::new();
    let mut config = config_with_window(8, 4);
    config.enable_histogram = true;
    config.histogram_mode = HISTOGRAM_MODE_RGB;
    let frame = vec![px(255, 0, 0); 8 * 4];
    let out = pipeline.process(&frame, &config);
    assert!(out.histogram.is_some());
    assert!(out.filter.is_none());
    assert_eq!(pipeline.histogram.bin_at(0, 255), 8 * 4);
    for v in 0..255 {
        assert_eq!(pipeline.histogram.bin_at(0, v), 0);
    }
    for v in 0..256 {
        assert_eq!(pipeline.histogram.bin_at(1, v), 0);
        assert_eq!(pipeline.histogram.bin_at(2, v), 0);
    }
}

#[test]
fn cloud_and_grid_outputs_follow_the_toggles() {
    let mut pipeline = Pipeline::new();
    let mut config = config_with_window(6, 6);
    config.enable_color_cloud = true;
    config.color_cloud_mode = COLORCLOUD_MODE_HSL;
    config.show_grid = true;
    config.bg_opacity = 40;
    let frame = vec![px(10, 20, 30); 36];
    let out = pipeline.process(&frame, &config);
    assert_eq!(out.clear_alpha, 60);
    let cloud = out.cloud.expect("cloud enabled");
    assert_eq!(cloud.max_count, 4);
    assert_eq!(cloud.color_space, COLORCLOUD_MODE_HSL);
    let grid = out.grid.expect("grid enabled beside the cloud");
    assert_eq!(grid.color_space, COLORCLOUD_MODE_HSL);
    assert_eq!(grid.vertex_count, 770);
    assert_eq!(pipeline.colorcloud.cell_at(10 * 65536 + 20 * 256 + 30), 36);
}
