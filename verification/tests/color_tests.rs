use colormel::color::{channel_mask, filter_pixel, hsl_disc, hue8, luma8, sat8, Pixel};
use colormel::config::{FILTER_MODE_HUE, FILTER_MODE_LUMA, FILTER_MODE_RGB, FILTER_MODE_SAT};
use colormel::math::{Fx, FX_SCALE};

fn px(r: u8, g: u8, b: u8) -> Pixel {
    Pixel { r, g, b }
}

#[test]
fn luma_of_gray_is_identity() {
    for v in [0u8, 1, 17, 128, 200, 255] {
        assert_eq!(luma8(px(v, v, v)), v);
    }
}

#[test]
fn luma_weights() {
    assert_eq!(luma8(px(255, 0, 0)), ((54 * 255) / 256) as u8);
    assert_eq!(luma8(px(0, 255, 0)), ((183 * 255) / 256) as u8);
    assert_eq!(luma8(px(0, 0, 255)), ((19 * 255) / 256) as u8);
}

#[test]
fn hue_of_primaries() {
    assert_eq!(hue8(px(0, 0, 0)), 0);
    assert_eq!(hue8(px(128, 128, 128)), 0);
    assert_eq!(hue8(px(255, 0, 0)), 0);
    // Green sits a third of the way around: 512 / 6.
    assert_eq!(hue8(px(0, 255, 0)), 85);
    // Blue sits two thirds of the way around: 1024 / 6.
    assert_eq!(hue8(px(0, 0, 255)), 170);
    // Yellow sits between red and green: 256 / 6.
    assert_eq!(hue8(px(255, 255, 0)), 42);
}

#[test]
fn saturation_extremes() {
    assert_eq!(sat8(px(0, 0, 0)), 0);
    assert_eq!(sat8(px(90, 90, 90)), 0);
    assert_eq!(sat8(px(255, 0, 0)), 255);
    assert_eq!(sat8(px(255, 255, 255)), 0);
    // A washed-out red: spread 55 over headroom 255 - |455 - 255| = 55.
    assert_eq!(sat8(px(255, 200, 200)), 255);
}

#[test]
fn filter_luma_mode_keeps_gray() {
    let all = [true, true, true, true];
    for v in [0u8, 5, 127, 255] {
        let p = px(v, v, v);
        assert_eq!(filter_pixel(FILTER_MODE_LUMA, &all, p), p);
    }
}

#[test]
fn filter_property_modes_spread_to_gray() {
    let all = [true, true, true, true];
    let p = px(0, 255, 0);
    let shown = filter_pixel(FILTER_MODE_HUE, &all, p);
    assert_eq!((shown.r, shown.g, shown.b), (85, 85, 85));
    let shown = filter_pixel(FILTER_MODE_SAT, &all, p);
    assert_eq!((shown.r, shown.g, shown.b), (255, 255, 255));
}

#[test]
fn filter_rgb_mode_masks_channels() {
    let mask_gb = [false, true, true, true];
    let p = px(10, 20, 30);
    let shown = filter_pixel(FILTER_MODE_RGB, &mask_gb, p);
    assert_eq!((shown.r, shown.g, shown.b), (0, 20, 30));
    let mask_none = [false, false, false, true];
    let shown = filter_pixel(FILTER_MODE_RGB, &mask_none, p);
    assert_eq!((shown.r, shown.g, shown.b), (0, 0, 0));
}

#[test]
fn channel_mask_is_unit_per_enabled_channel() {
    let m = channel_mask(&[true, false, true, true]);
    assert_eq!(m[0].raw, FX_SCALE);
    assert_eq!(m[1].raw, 0);
    assert_eq!(m[2].raw, FX_SCALE);
}

#[test]
fn disc_equator_is_unit_radius() {
    // Full saturation at mid lightness: exactly on the rim.
    let (radius, height) = hsl_disc(Fx { raw: FX_SCALE }, Fx { raw: 0 });
    assert_eq!(radius.raw, FX_SCALE);
    assert_eq!(height.raw, 0);
}

#[test]
fn disc_poles_reach_unit_height() {
    // Zero saturation at extreme lightness normalizes onto the axis ends.
    let (radius, height) = hsl_disc(Fx { raw: 0 }, Fx { raw: FX_SCALE });
    assert_eq!(radius.raw, 0);
    assert_eq!(height.raw, FX_SCALE);
    let (radius, height) = hsl_disc(Fx { raw: 0 }, Fx { raw: -FX_SCALE });
    assert_eq!(radius.raw, 0);
    assert_eq!(height.raw, -FX_SCALE);
}

#[test]
fn disc_center_is_fixed() {
    let (radius, height) = hsl_disc(Fx { raw: 0 }, Fx { raw: 0 });
    assert_eq!(radius.raw, 0);
    assert_eq!(height.raw, 0);
}

#[test]
fn disc_diagonal_reaches_the_rim() {
    // Half saturation at three-quarter lightness: the squircle factor
    // (s + |l|) / sqrt(s^2 + l^2) pushes the diagonal outward.
    let (radius, height) = hsl_disc(Fx { raw: 32768 }, Fx { raw: 32768 });
    // The normalization factor is sqrt(2) here, so both components grow.
    assert!(radius.raw > 32768);
    assert!(height.raw > 32768);
    assert_eq!(radius.raw, height.raw);
}
