//! Pixel-space color kernels: the quantities the filter and histogram
//! stages derive from a captured pixel, and the squircle-like normalization
//! that places a hue/saturation/lightness triple on the color cylinder.

use vstd::prelude::*;

use crate::config::{FILTER_MODE_HUE, FILTER_MODE_LUMA, FILTER_MODE_SAT};
use crate::math::{fx_div_spec, fx_mul_spec, trunc_div_exec, Fx, FX_SCALE};

verus! {

/// One captured pixel, quantized to eight bits per channel.
#[derive(Clone, Copy, Debug, PartialEq, Eq, Structural)]
pub struct Pixel {
    pub r: u8,
    pub g: u8,
    pub b: u8,
}

/// Integer luma: Rec. 709 weights scaled to sum to exactly 256, so a gray
/// pixel's luma is its own channel value.
pub open spec fn luma_spec(p: Pixel) -> int {
    (54 * p.r + 183 * p.g + 19 * p.b) / 256
}

/// The larger of two and of three values.
pub open spec fn max2(a: int, b: int) -> int {
    if a >= b {
        a
    } else {
        b
    }
}

pub open spec fn min2(a: int, b: int) -> int {
    if a <= b {
        a
    } else {
        b
    }
}

/// Hue quantized to eight bits, 0 for achromatic pixels.  Computed on a
/// 1536-step circle (256 steps per sextant) and divided down, with the red
/// sextant winning ties.
pub open spec fn hue_spec(p: Pixel) -> int {
    let r = p.r as int;
    let g = p.g as int;
    let b = p.b as int;
    let mx = max2(r, max2(g, b));
    let mn = min2(r, min2(g, b));
    let del = mx - mn;
    if del == 0 {
        0
    } else {
        let h = if mx == r {
            if g >= b {
                (g - b) * 256 / del
            } else {
                1536 - (b - g) * 256 / del
            }
        } else if mx == g {
            if b >= r {
                512 + (b - r) * 256 / del
            } else {
                512 - (r - b) * 256 / del
            }
        } else {
            if r >= g {
                1024 + (r - g) * 256 / del
            } else {
                1024 - (g - r) * 256 / del
            }
        };
        h / 6
    }
}

/// Saturation quantized to eight bits: the channel spread over the headroom
/// left by the lightness, 0 for achromatic pixels.
pub open spec fn sat_spec(p: Pixel) -> int {
    let r = p.r as int;
    let g = p.g as int;
    let b = p.b as int;
    let mx = max2(r, max2(g, b));
    let mn = min2(r, min2(g, b));
    let del = mx - mn;
    if del == 0 {
        0
    } else {
        let t = mx + mn;
        let headroom = if t >= 255 {
            510 - t
        } else {
            t
        };
        del * 255 / headroom
    }
}

/// Luma lies in the eight-bit range for every pixel.
pub proof fn lemma_luma_range(p: Pixel)
    ensures
        0 <= luma_spec(p) <= 255,
{
    let s: int = 54 * p.r + 183 * p.g + 19 * p.b;
    assert(s <= 256 * 255);
    vstd::arithmetic::div_mod::lemma_div_is_ordered(s, 256 * 255int, 256int);
    vstd::arithmetic::div_mod::lemma_div_pos_is_pos(s, 256int);
}

/// A gray pixel's luma is its channel value.
pub proof fn lemma_luma_gray(p: Pixel)
    requires
        p.r == p.g,
        p.g == p.b,
    ensures
        luma_spec(p) == p.r,
{
    assert(54 * p.r + 183 * p.g + 19 * p.b == 256 * p.r);
    assert(256 * p.r as int / 256 == p.r) by (nonlinear_arith);
}

pub fn luma8(p: Pixel) -> (v: u8)
    ensures
        v == luma_spec(p),
{
    proof {
        lemma_luma_range(p);
    }
    let s: u32 = 54 * (p.r as u32) + 183 * (p.g as u32) + 19 * (p.b as u32);
    (s / 256) as u8
}

pub fn hue8(p: Pixel) -> (v: u8)
    ensures
        v == hue_spec(p),
{
    let r = p.r as u32;
    let g = p.g as u32;
    let b = p.b as u32;
    let mx = if r >= g && r >= b {
        r
    } else if g >= b {
        g
    } else {
        b
    };
    let mn = if r <= g && r <= b {
        r
    } else if g <= b {
        g
    } else {
        b
    };
    let del = mx - mn;
    if del == 0 {
        0
    } else {
        let h: u32 = if mx == r {
            if g >= b {
                proof {
                    assert((g - b) * 256 / (del as int) <= 256) by (nonlinear_arith)
                        requires
                            0 <= g - b <= del,
                            1 <= del <= 255;
                }
                (g - b) * 256 / del
            } else {
                let q = (b - g) * 256 / del;
                proof {
                    assert(1 <= (b - g) * 256 / (del as int) <= 256) by (nonlinear_arith)
                        requires
                            1 <= b - g <= del,
                            1 <= del <= 255;
                }
                1536 - q
            }
        } else if mx == g {
            if b >= r {
                proof {
                    assert((b - r) * 256 / (del as int) <= 256) by (nonlinear_arith)
                        requires
                            0 <= b - r <= del,
                            1 <= del <= 255;
                }
                512 + (b - r) * 256 / del
            } else {
                let q = (r - b) * 256 / del;
                proof {
                    assert((r - b) * 256 / (del as int) <= 256) by (nonlinear_arith)
                        requires
                            0 <= r - b <= del,
                            1 <= del <= 255;
                }
                512 - q
            }
        } else {
            if r >= g {
                proof {
                    assert((r - g) * 256 / (del as int) <= 256) by (nonlinear_arith)
                        requires
                            0 <= r - g <= del,
                            1 <= del <= 255;
                }
                1024 + (r - g) * 256 / del
            } else {
                let q = (g - r) * 256 / del;
                proof {
                    assert((g - r) * 256 / (del as int) <= 256) by (nonlinear_arith)
                        requires
                            0 <= g - r <= del,
                            1 <= del <= 255;
                }
                1024 - q
            }
        };
        proof {
            assert(h <= 1535);
        }
        (h / 6) as u8
    }
}

pub fn sat8(p: Pixel) -> (v: u8)
    ensures
        v == sat_spec(p),
{
    let r = p.r as u32;
    let g = p.g as u32;
    let b = p.b as u32;
    let mx = if r >= g && r >= b {
        r
    } else if g >= b {
        g
    } else {
        b
    };
    let mn = if r <= g && r <= b {
        r
    } else if g <= b {
        g
    } else {
        b
    };
    let del = mx - mn;
    if del == 0 {
        0
    } else {
        let t = mx + mn;
        let headroom = if t >= 255 {
            510 - t
        } else {
            t
        };
        proof {
            assert((del as int) * 255 / (headroom as int) <= 255) by (nonlinear_arith)
                requires
                    1 <= del <= headroom,
                    headroom <= 510;
        }
        (del * 255 / headroom) as u8
    }
}

/// What the filter pass shows for one pixel: the channel-masked color in
/// pass-through mode, or the selected property spread across all channels.
pub open spec fn spec_filter_pixel(mode: u32, channels: [bool; 4], p: Pixel) -> Pixel {
    if mode == FILTER_MODE_LUMA {
        let v = luma_spec(p) as u8;
        Pixel { r: v, g: v, b: v }
    } else if mode == FILTER_MODE_SAT {
        let v = sat_spec(p) as u8;
        Pixel { r: v, g: v, b: v }
    } else if mode == FILTER_MODE_HUE {
        let v = hue_spec(p) as u8;
        Pixel { r: v, g: v, b: v }
    } else {
        Pixel {
            r: if channels[0] {
                p.r
            } else {
                0
            },
            g: if channels[1] {
                p.g
            } else {
                0
            },
            b: if channels[2] {
                p.b
            } else {
                0
            },
        }
    }
}

pub fn filter_pixel(mode: u32, channels: &[bool; 4], p: Pixel) -> (r: Pixel)
    ensures
        r == spec_filter_pixel(mode, *channels, p),
{
    if mode == FILTER_MODE_LUMA {
        let v = luma8(p);
        Pixel { r: v, g: v, b: v }
    } else if mode == FILTER_MODE_SAT {
        let v = sat8(p);
        Pixel { r: v, g: v, b: v }
    } else if mode == FILTER_MODE_HUE {
        let v = hue8(p);
        Pixel { r: v, g: v, b: v }
    } else {
        Pixel {
            r: if channels[0] {
                p.r
            } else {
                0
            },
            g: if channels[1] {
                p.g
            } else {
                0
            },
            b: if channels[2] {
                p.b
            } else {
                0
            },
        }
    }
}

/// The luma view leaves a gray pixel unchanged.
pub proof fn lemma_filter_luma_gray(channels: [bool; 4], p: Pixel)
    requires
        p.r == p.g,
        p.g == p.b,
    ensures
        spec_filter_pixel(FILTER_MODE_LUMA, channels, p) == p,
{
    lemma_luma_gray(p);
}

/// The per-channel mask the filter draw hands the shader: one where a
/// channel is enabled, zero where it is not.
pub fn channel_mask(channels: &[bool; 4]) -> (r: [Fx; 3])
    ensures
        forall|k: int|
            0 <= k < 3 ==> (#[trigger] r[k]).raw == if channels[k] {
                FX_SCALE as int
            } else {
                0
            },
{
    let m0 = if channels[0] {
        Fx::one()
    } else {
        Fx::zero()
    };
    let m1 = if channels[1] {
        Fx::one()
    } else {
        Fx::zero()
    };
    let m2 = if channels[2] {
        Fx::one()
    } else {
        Fx::zero()
    };
    [m0, m1, m2]
}

/// Constant facts about the unit value's products and quotients.
proof fn lemma_unit_fx_consts()
    ensures
        FX_SCALE as int * FX_SCALE as int == 0x1_0000_0000,
        fx_mul_spec(FX_SCALE as int, FX_SCALE as int) == FX_SCALE as int,
        fx_mul_spec(0, 0) == 0,
        fx_mul_spec(0, FX_SCALE as int) == 0,
        fx_div_spec(FX_SCALE as int, FX_SCALE as int) == FX_SCALE as int,
{
    assert(FX_SCALE as int * FX_SCALE as int == 0x1_0000_0000) by (nonlinear_arith);
    assert(0x1_0000_0000int / 65536int == 65536int) by (nonlinear_arith);
    assert(0 * FX_SCALE as int == 0) by (nonlinear_arith);
    assert(0int / 65536int == 0) by (nonlinear_arith);
}

/// Magnitude of a raw value.
pub open spec fn abs_int(v: int) -> int {
    if v >= 0 {
        v
    } else {
        -v
    }
}

/// Squared norm of a saturation/signed-lightness pair, as a raw value.
pub open spec fn disc_norm_sq(s: Fx, l: Fx) -> int {
    fx_mul_spec(s.raw as int, s.raw as int) + fx_mul_spec(l.raw as int, l.raw as int)
}

/// `b` is the fixed-point square root of the value with raw `v`.
pub open spec fn is_fx_sqrt(v: int, b: int) -> bool {
    &&& b >= 0
    &&& b * b <= v * FX_SCALE
    &&& (b + 1) * (b + 1) > v * FX_SCALE
}

/// The normalized pair, given the raw norm `b`: both components scaled by
/// `(s + |l|) / b`, or unchanged where the norm vanishes.  The factor pulls
/// diagonal directions outward so that full saturation or extreme lightness
/// always reaches the rim.
pub open spec fn disc_result(s: Fx, l: Fx, b: int) -> (Fx, Fx) {
    if b > 0 {
        let n = fx_div_spec(s.raw + abs_int(l.raw as int), b);
        (
            Fx { raw: fx_mul_spec(s.raw as int, n) as i64 },
            Fx { raw: fx_mul_spec(l.raw as int, n) as i64 },
        )
    } else {
        (s, l)
    }
}

/// The pair `(out_s, out_l)` is the disc normalization of `(s, l)`.
pub open spec fn disc_normalized(s: Fx, l: Fx, out_s: Fx, out_l: Fx) -> bool {
    exists|b: int|
        #[trigger] is_fx_sqrt(disc_norm_sq(s, l), b) && (out_s, out_l) == disc_result(s, l, b)
}

/// Normalize a saturation/signed-lightness pair onto the unit disc of the
/// color cylinder: saturation in `[0, 1]`, lightness in `[-1, 1]`, both as
/// fixed-point scalars.
pub fn hsl_disc(s: Fx, l: Fx) -> (r: (Fx, Fx))
    requires
        0 <= s.raw <= FX_SCALE,
        -FX_SCALE <= l.raw <= FX_SCALE,
    ensures
        disc_normalized(s, l, r.0, r.1),
        s.raw == FX_SCALE && l.raw == 0 ==> r.0.raw == FX_SCALE && r.1.raw == 0,
{
    let a = s.add(l.abs());
    proof {
        crate::math::lemma_fx_mul_bound(s.raw as int, s.raw as int, FX_SCALE as int, FX_SCALE as int);
        crate::math::lemma_fx_mul_bound(l.raw as int, l.raw as int, FX_SCALE as int, FX_SCALE as int);
        assert(s.raw * s.raw >= 0) by (nonlinear_arith);
        assert(l.raw * l.raw >= 0) by (nonlinear_arith);
        vstd::arithmetic::div_mod::lemma_div_pos_is_pos(s.raw * s.raw, FX_SCALE as int);
        vstd::arithmetic::div_mod::lemma_div_pos_is_pos(l.raw * l.raw, FX_SCALE as int);
    }
    let nsq = s.mul(s).add(l.mul(l));
    let b = nsq.sqrt();
    let ghost braw = b.raw as int;
    proof {
        assert(is_fx_sqrt(disc_norm_sq(s, l), braw));
    }
    if b.raw > 0 {
        let n = a.div(b);
        proof {
            let araw = a.raw as int;
            assert(n.raw == araw * FX_SCALE / braw);
            assert(araw * FX_SCALE / braw <= araw * FX_SCALE) by (nonlinear_arith)
                requires
                    braw >= 1,
                    araw >= 0;
            vstd::arithmetic::div_mod::lemma_div_pos_is_pos(araw * FX_SCALE, braw);
            assert(0 <= s.raw * n.raw <= 0x4000_0000_0000_0000) by (nonlinear_arith)
                requires
                    0 <= s.raw <= 0x1_0000,
                    0 <= n.raw <= 0x2_0000_0000;
            assert(-0x4000_0000_0000_0000 <= l.raw * n.raw <= 0x4000_0000_0000_0000)
                by (nonlinear_arith)
                requires
                    -0x1_0000 <= l.raw <= 0x1_0000,
                    0 <= n.raw <= 0x2_0000_0000;
        }
        let sp = Fx { raw: trunc_div_exec(s.raw * n.raw, FX_SCALE) };
        let lp = Fx { raw: trunc_div_exec(l.raw * n.raw, FX_SCALE) };
        proof {
            if s.raw == FX_SCALE && l.raw == 0 {
                lemma_unit_fx_consts();
                assert(disc_norm_sq(s, l) == FX_SCALE as int);
                assert(braw == FX_SCALE) by (nonlinear_arith)
                    requires
                        braw >= 0,
                        braw * braw <= 0x1_0000_0000,
                        (braw + 1) * (braw + 1) > 0x1_0000_0000;
                assert(n.raw == fx_div_spec(FX_SCALE as int, FX_SCALE as int));
                assert(n.raw == FX_SCALE);
                assert(sp.raw == fx_mul_spec(FX_SCALE as int, FX_SCALE as int));
            }
            assert(is_fx_sqrt(disc_norm_sq(s, l), braw) && (sp, lp) == disc_result(s, l, braw));
        }
        (sp, lp)
    } else {
        proof {
            if s.raw == FX_SCALE && l.raw == 0 {
                lemma_unit_fx_consts();
                assert(disc_norm_sq(s, l) == FX_SCALE as int);
                assert(is_fx_sqrt(FX_SCALE as int, braw));
                assert(braw == 0);
                assert((braw + 1) * (braw + 1) == 1) by (nonlinear_arith)
                    requires
                        braw == 0;
                assert(false);
            }
            assert(is_fx_sqrt(disc_norm_sq(s, l), braw) && (s, l) == disc_result(s, l, braw));
        }
        (s, l)
    }
}

/// The equator of the cylinder: at full saturation and mid lightness the
/// normalized pair is exactly one unit from the axis at zero height,
/// whatever the hue — the hue only turns the point around the axis.
pub proof fn lemma_hsl_equator(s: Fx, l: Fx, r: (Fx, Fx))
    requires
        s.raw == FX_SCALE,
        l.raw == 0,
        disc_normalized(s, l, r.0, r.1),
    ensures
        r.0.raw == FX_SCALE,
        r.1.raw == 0,
{
    let b = choose|b: int|
        is_fx_sqrt(disc_norm_sq(s, l), b) && (r.0, r.1) == disc_result(s, l, b);
    lemma_unit_fx_consts();
    assert(disc_norm_sq(s, l) == FX_SCALE as int);
    assert(b == FX_SCALE) by (nonlinear_arith)
        requires
            b >= 0,
            b * b <= 0x1_0000_0000,
            (b + 1) * (b + 1) > 0x1_0000_0000;
}

} // verus!
