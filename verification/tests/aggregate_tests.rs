use colormel::color::Pixel;
use colormel::colorcloud::ColorCloud;
use colormel::config::{
    Config, Rect, HISTOGRAM_MODE_HUE, HISTOGRAM_MODE_LUMA, HISTOGRAM_MODE_RGB,
    HISTOGRAM_MODE_RGBL,
};
use colormel::histogram::Histogram;

fn px(r: u8, g: u8, b: u8) -> Pixel {
    Pixel { r, g, b }
}

fn frame_of(p: Pixel, n: usize) -> Vec<Pixel> {
    vec![p; n]
}

fn small_config(width: u32, height: u32) -> Config {
    let mut c = Config::default();
    c.window_rect = Rect { x: 0, y: 0, width, height };
    c
}

#[test]
fn histogram_clear_zeroes_every_bin() {
    let mut h = Histogram::new();
    h.accumulate(&frame_of(px(10, 20, 30), 5), HISTOGRAM_MODE_RGB);
    h.clear();
    for ch in 0..4 {
        for v in 0..256 {
            assert_eq!(h.bin_at(ch, v), 0);
        }
    }
}

#[test]
fn histogram_red_frame_fills_one_bin_per_channel() {
    let mut h = Histogram::new();
    let n: u32 = 12 * 8;
    h.accumulate(&frame_of(px(255, 0, 0), n as usize), HISTOGRAM_MODE_RGB);
    // Red channel: everything lands in the top bin.
    assert_eq!(h.bin_at(0, 255), n);
    for v in 0..255 {
        assert_eq!(h.bin_at(0, v), 0);
    }
    // Green and blue samples are zero-valued and accumulate nowhere.
    for v in 0..256 {
        assert_eq!(h.bin_at(1, v), 0);
        assert_eq!(h.bin_at(2, v), 0);
        // The fourth channel is inactive in plain RGB mode.
        assert_eq!(h.bin_at(3, v), 0);
    }
}

#[test]
fn histogram_channel_totals_bounded_by_pixels() {
    let mut h = Histogram::new();
    let mut frame = Vec::new();
    for i in 0..300u32 {
        frame.push(px((i % 256) as u8, (i % 17) as u8, 9));
    }
    h.accumulate(&frame, HISTOGRAM_MODE_RGBL);
    for ch in 0..4 {
        assert!(h.channel_total(ch) <= frame.len() as u64);
    }
}

#[test]
fn histogram_luma_and_hue_use_fourth_channel() {
    let mut h = Histogram::new();
    h.accumulate(&frame_of(px(80, 80, 80), 7), HISTOGRAM_MODE_LUMA);
    assert_eq!(h.bin_at(3, 80), 7);
    assert_eq!(h.bin_at(0, 80), 0);
    h.clear();
    // Pure green has hue 85 on the eight-bit circle.
    h.accumulate(&frame_of(px(0, 200, 0), 4), HISTOGRAM_MODE_HUE);
    assert_eq!(h.bin_at(3, 85), 4);
    assert_eq!(h.bin_at(1, 200), 0);
}

#[test]
fn histogram_rgbl_adds_luma() {
    let mut h = Histogram::new();
    h.accumulate(&frame_of(px(100, 100, 100), 3), HISTOGRAM_MODE_RGBL);
    assert_eq!(h.bin_at(0, 100), 3);
    assert_eq!(h.bin_at(1, 100), 3);
    assert_eq!(h.bin_at(2, 100), 3);
    assert_eq!(h.bin_at(3, 100), 3);
}

#[test]
fn histogram_process_disabled_changes_nothing() {
    let mut h = Histogram::new();
    let mut config = small_config(8, 4);
    config.enable_histogram = false;
    let r = h.process(&frame_of(px(1, 2, 3), 32), &config);
    assert!(r.is_none());
    for ch in 0..4 {
        assert_eq!(h.channel_total(ch), 0);
    }
}

#[test]
fn histogram_process_draw_parameters() {
    let mut h = Histogram::new();
    let mut config = small_config(40, 30);
    config.enable_histogram = true;
    config.histogram_mode = HISTOGRAM_MODE_RGB;
    config.histogram_scale = 50;
    let p = h.process(&frame_of(px(9, 9, 9), 4), &config).unwrap();
    assert_eq!(p.instances, 3);
    assert_eq!(p.vertices, 512);
    assert_eq!(p.scale_num, 50);
    assert_eq!(p.scale_den, 10 * 40 * 30);
    assert_eq!(p.dispatch_x, 3);
    assert_eq!(p.dispatch_y, 2);

    config.histogram_mode = HISTOGRAM_MODE_HUE;
    let p = h.process(&frame_of(px(9, 9, 9), 4), &config).unwrap();
    assert_eq!(p.instances, 1);
    assert_eq!(p.scale_den, 500 * 40 * 30);

    config.histogram_mode = HISTOGRAM_MODE_RGBL;
    let p = h.process(&frame_of(px(9, 9, 9), 4), &config).unwrap();
    assert_eq!(p.instances, 4);
}

#[test]
fn cloud_single_color_fills_exactly_one_cell() {
    let mut cloud = ColorCloud::new();
    let n: u32 = 6 * 4;
    cloud.accumulate(&frame_of(px(200, 100, 50), n as usize));
    let idx = 200 * 65536 + 100 * 256 + 50;
    for i in 0..(256usize * 256 * 256) {
        if i == idx {
            assert_eq!(cloud.cell_at(i), n);
        } else {
            assert_eq!(cloud.cell_at(i), 0);
        }
    }
}

#[test]
fn cloud_clear_zeroes_every_cell() {
    let mut cloud = ColorCloud::new();
    cloud.accumulate(&frame_of(px(1, 2, 3), 9));
    cloud.clear();
    for i in 0..(256usize * 256 * 256) {
        assert_eq!(cloud.cell_at(i), 0);
    }
}

#[test]
fn cloud_process_draw_parameters() {
    let mut cloud = ColorCloud::new();
    let mut config = small_config(90, 60);
    config.enable_color_cloud = true;
    let p = cloud.process(&frame_of(px(0, 0, 0), 16), &config).unwrap();
    assert_eq!(p.min_count, 0);
    assert_eq!(p.max_count, 90 * 60 / 9);
    assert_eq!(p.color_space, 0);
    assert_eq!(p.dispatch_x, 12);
    assert_eq!(p.dispatch_y, 8);
    assert_eq!(p.mesh_dim, 32);
}

#[test]
fn cloud_process_disabled_changes_nothing() {
    let mut cloud = ColorCloud::new();
    let config = small_config(8, 8);
    let r = cloud.process(&frame_of(px(4, 4, 4), 16), &config);
    assert!(r.is_none());
    assert_eq!(cloud.cell_at(4 * 65536 + 4 * 256 + 4), 0);
}
