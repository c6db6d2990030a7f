use colormel::math::{div_round_up, isqrt64, Fx, FX_SCALE};
use colormel::matrix::{Matrix, Vec4};
use colormel::config::{Config, Rect};

fn fx(raw: i64) -> Fx {
    Fx { raw }
}

#[test]
fn div_round_up_exact_values() {
    assert_eq!(div_round_up(0, 16), 0);
    assert_eq!(div_round_up(1, 16), 1);
    assert_eq!(div_round_up(16, 16), 1);
    assert_eq!(div_round_up(17, 16), 2);
    assert_eq!(div_round_up(1920, 16), 120);
    assert_eq!(div_round_up(1080, 16), 68);
    assert_eq!(div_round_up(1919, 8), 240);
    assert_eq!(div_round_up(u32::MAX, 1), u32::MAX);
}

#[test]
fn isqrt_perfect_and_between() {
    assert_eq!(isqrt64(0), 0);
    assert_eq!(isqrt64(1), 1);
    assert_eq!(isqrt64(2), 1);
    assert_eq!(isqrt64(3), 1);
    assert_eq!(isqrt64(4), 2);
    assert_eq!(isqrt64(65536 * 65536), 65536);
    assert_eq!(isqrt64(65536 * 65536 - 1), 65535);
    assert_eq!(isqrt64(u64::MAX), 0xFFFF_FFFF);
}

#[test]
fn fx_arithmetic() {
    let one = Fx::one();
    let two = Fx::from_int(2);
    assert_eq!(one.add(one), two);
    assert_eq!(two.sub(one), one);
    assert_eq!(one.mul(one), one);
    assert_eq!(two.mul(two), Fx::from_int(4));
    // Truncation toward zero: -1.5 * 0.5 is -0.75 exactly here.
    let minus_three_half = fx(-3 * 32768);
    let half = fx(32768);
    assert_eq!(minus_three_half.mul(half).raw, -49152);
    assert_eq!(one.div(two), half);
    // Square roots land on the fixed-point grid, truncated.
    assert_eq!(one.sqrt(), one);
    assert_eq!(Fx::from_int(4).sqrt(), two);
    assert_eq!(two.sqrt().raw, 92681);  // floor(sqrt(2) * 65536)
}

#[test]
fn matrix_identity_is_neutral() {
    let id = Matrix::identity();
    let m = Matrix::new(
        Vec4::new(fx(100), fx(200), fx(300), fx(400)),
        Vec4::new(fx(-100), fx(50), fx(0), fx(65536)),
        Vec4::new(fx(1), fx(2), fx(3), fx(4)),
        Vec4::new(fx(0), fx(0), fx(0), fx(65536)),
    );
    assert_eq!(m.mul(&id), m);
    assert_eq!(id.mul(&m), m);
}

#[test]
fn matrix_rotation_layout() {
    // A quarter turn about z: sine one, cosine zero.
    let r = Matrix::rot_z(Fx::one(), Fx::zero());
    assert_eq!(r.cols[0].e[0].raw, 0);
    assert_eq!(r.cols[0].e[1].raw, FX_SCALE);
    assert_eq!(r.cols[1].e[0].raw, -FX_SCALE);
    assert_eq!(r.cols[1].e[1].raw, 0);
    assert_eq!(r.cols[2].e[2].raw, FX_SCALE);
    assert_eq!(r.cols[3].e[3].raw, FX_SCALE);
}

#[test]
fn projection_repeatable_and_square_scaled() {
    let mut config = Config::default();
    config.window_rect = Rect { x: 0, y: 0, width: 1280, height: 720 };
    let a = config.projection_matrix();
    let b = config.projection_matrix();
    // Identical inputs give the identical matrix, however often it is built.
    assert_eq!(a, b);
    // Under the identity rotation the diagonal carries the uniform scale
    // 0.9 * 720 / 1280 and the depth quarter-scale.
    let s = 58982 * 720 / 1280;
    assert_eq!(a.cols[0].e[0].raw, s);
    assert_eq!(a.cols[1].e[1].raw, s);
    assert_eq!(a.cols[2].e[2].raw, 16384);
    // The half-unit depth offset sits in the fourth component of the third
    // column, as the shader constants expect it.
    assert_eq!(a.cols[2].e[3].raw, 32768);
    assert_eq!(a.cols[3].e[3].raw, FX_SCALE);
}

#[test]
fn projection_square_window_keeps_margin() {
    let mut config = Config::default();
    config.window_rect = Rect { x: 0, y: 0, width: 512, height: 512 };
    let a = config.projection_matrix();
    assert_eq!(a.cols[0].e[0].raw, 58982);
    assert_eq!(a.cols[1].e[1].raw, 58982);
}

#[test]
fn as_4x3_returns_first_three_columns() {
    let m = Matrix::identity();
    let flat = m.as_4x3();
    assert_eq!(flat[0].raw, FX_SCALE);
    assert_eq!(flat[1].raw, 0);
    assert_eq!(flat[5].raw, FX_SCALE);
    assert_eq!(flat[10].raw, FX_SCALE);
    assert_eq!(flat.len(), 12);
}
