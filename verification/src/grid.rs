//! Grid pass: static wireframe reference geometry for the color cloud — the
//! RGB cube's twelve edges, and an HSL double cone whose meridians and
//! equator are polylines on the color cylinder.  Both are generated once at
//! startup and drawn as antialiased line lists under the shared projection.

use vstd::prelude::*;

use crate::color::{disc_normalized, hsl_disc};
use crate::config::{proj_entry, Config, COLORCLOUD_MODE_RGB};
use crate::math::{fx_mul_spec, trunc_div_exec, Fx, FX_SCALE};
use crate::matrix::{mat_raw, Matrix};

verus! {

/// A cube-grid vertex: a position in the cloud's model space and a color.
#[derive(Clone, Copy, Debug, PartialEq, Eq)]
pub struct Vertex {
    pub position: [Fx; 3],
    pub color: [Fx; 3],
}

/// A cone-grid vertex in cylindrical form: the hue as an exact fraction of
/// a turn, the distance from the axis, the height, and the vertex color.
/// The platform layer turns hue and radius into Cartesian x and z.
#[derive(Clone, Copy, Debug, PartialEq, Eq)]
pub struct HslVertex {
    pub hue_num: u32,
    pub hue_den: u32,
    pub radius: Fx,
    pub height: Fx,
    pub color: [Fx; 3],
}

/// Raw position coordinate of a cube corner: the channel value, centered
/// and widened by a quarter.
pub open spec fn cube_coord(c: int) -> int {
    81920 * c - 40960
}

/// One cube-grid vertex from a corner of the unit RGB cube.
pub open spec fn rgb_vertex_spec(r: int, g: int, b: int) -> Vertex {
    Vertex {
        position: [
            Fx { raw: cube_coord(r) as i64 },
            Fx { raw: cube_coord(g) as i64 },
            Fx { raw: cube_coord(b) as i64 },
        ],
        color: [
            Fx { raw: (r * FX_SCALE) as i64 },
            Fx { raw: (g * FX_SCALE) as i64 },
            Fx { raw: (b * FX_SCALE) as i64 },
        ],
    }
}

/// The cube grid as a line list: each consecutive pair is one of the
/// twelve edges.
pub open spec fn spec_rgb_grid() -> Seq<Vertex> {
    seq![
        rgb_vertex_spec(0, 0, 0),
        rgb_vertex_spec(1, 0, 0),
        rgb_vertex_spec(0, 0, 0),
        rgb_vertex_spec(0, 1, 0),
        rgb_vertex_spec(0, 0, 0),
        rgb_vertex_spec(0, 0, 1),
        rgb_vertex_spec(1, 0, 0),
        rgb_vertex_spec(1, 1, 0),
        rgb_vertex_spec(1, 0, 0),
        rgb_vertex_spec(1, 0, 1),
        rgb_vertex_spec(0, 1, 0),
        rgb_vertex_spec(1, 1, 0),
        rgb_vertex_spec(0, 1, 0),
        rgb_vertex_spec(0, 1, 1),
        rgb_vertex_spec(0, 0, 1),
        rgb_vertex_spec(1, 0, 1),
        rgb_vertex_spec(0, 0, 1),
        rgb_vertex_spec(0, 1, 1),
        rgb_vertex_spec(1, 1, 0),
        rgb_vertex_spec(1, 1, 1),
        rgb_vertex_spec(1, 0, 1),
        rgb_vertex_spec(1, 1, 1),
        rgb_vertex_spec(0, 1, 1),
        rgb_vertex_spec(1, 1, 1),
    ]
}

fn rgb_vertex(r: u32, g: u32, b: u32) -> (v: Vertex)
    requires
        r <= 1,
        g <= 1,
        b <= 1,
    ensures
        v == rgb_vertex_spec(r as int, g as int, b as int),
{
    let pr: i64 = 81920 * (r as i64) - 40960;
    let pg: i64 = 81920 * (g as i64) - 40960;
    let pb: i64 = 81920 * (b as i64) - 40960;
    Vertex {
        position: [Fx { raw: pr }, Fx { raw: pg }, Fx { raw: pb }],
        color: [
            Fx { raw: (r as i64) * FX_SCALE },
            Fx { raw: (g as i64) * FX_SCALE },
            Fx { raw: (b as i64) * FX_SCALE },
        ],
    }
}

/// The RGB cube's edges, each as a pair of vertices.
pub fn rgb_grid() -> (r: Vec<Vertex>)
    ensures
        r@ == spec_rgb_grid(),
{
    let v0 = rgb_vertex(0, 0, 0);
    let vr = rgb_vertex(1, 0, 0);
    let vg = rgb_vertex(0, 1, 0);
    let vb = rgb_vertex(0, 0, 1);
    let rg = rgb_vertex(1, 1, 0);
    let rb = rgb_vertex(1, 0, 1);
    let gb = rgb_vertex(0, 1, 1);
    let v1 = rgb_vertex(1, 1, 1);
    let mut out: Vec<Vertex> = Vec::new();
    out.push(v0);
    out.push(vr);
    out.push(v0);
    out.push(vg);
    out.push(v0);
    out.push(vb);
    out.push(vr);
    out.push(rg);
    out.push(vr);
    out.push(rb);
    out.push(vg);
    out.push(rg);
    out.push(vg);
    out.push(gb);
    out.push(vb);
    out.push(rb);
    out.push(vb);
    out.push(gb);
    out.push(rg);
    out.push(v1);
    out.push(rb);
    out.push(v1);
    out.push(gb);
    out.push(v1);
    proof {
        assert(out@ =~= spec_rgb_grid());
    }
    out
}

/// Raw lightness of cone step `i` of `n`: the fraction of the way from the
/// dark apex to the bright apex.
pub open spec fn cone_light_raw(i: int, n_div: int) -> int {
    FX_SCALE * i / n_div
}

/// The lightness recentred to the signed range.
pub open spec fn cone_lsigned_raw(i: int, n_div: int) -> int {
    2 * cone_light_raw(i, n_div) - FX_SCALE
}

/// Raw saturation of cone step `i`: full at the equator, vanishing at both
/// apexes.
pub open spec fn cone_sat_raw(i: int, n_div: int) -> int {
    FX_SCALE - if cone_lsigned_raw(i, n_div) >= 0 {
        cone_lsigned_raw(i, n_div)
    } else {
        -cone_lsigned_raw(i, n_div)
    }
}

/// The color of a hue/saturation/lightness triple, piecewise linear over
/// the six hue sextants, all raw fixed-point values.
pub open spec fn spec_hsl_color(num: int, den: int, s: int, light: int) -> (int, int, int) {
    let mx = light + s / 2;
    let mn = light - s / 2;
    let del = mx - mn;
    let u = 6 * num;
    let seg = u / den;
    let fr = FX_SCALE * (u % den) / den;
    let ifr = FX_SCALE - fr;
    if seg == 0 {
        (mx, mn + fx_mul_spec(del, fr), mn)
    } else if seg == 1 {
        (mn + fx_mul_spec(del, ifr), mx, mn)
    } else if seg == 2 {
        (mn, mx, mn + fx_mul_spec(del, fr))
    } else if seg == 3 {
        (mn, mn + fx_mul_spec(del, ifr), mx)
    } else if seg == 4 {
        (mn + fx_mul_spec(del, fr), mn, mx)
    } else if seg == 5 {
        (mx, mn, mn + fx_mul_spec(del, ifr))
    } else {
        (mx, mn, mn)
    }
}

fn hsl_color(num: u32, den: u32, s: Fx, light: Fx) -> (c: [Fx; 3])
    requires
        1 <= den,
        num <= den,
        0 <= s.raw <= FX_SCALE,
        0 <= light.raw <= FX_SCALE,
    ensures
        ({
            let (cr, cg, cb) = spec_hsl_color(num as int, den as int, s.raw as int, light.raw as int);
            c[0].raw == cr && c[1].raw == cg && c[2].raw == cb
        }),
{
    let half_s: i64 = ((s.raw as u64) / 2) as i64;
    let mx: i64 = light.raw + half_s;
    let mn: i64 = light.raw - half_s;
    let del: i64 = mx - mn;
    let u: u64 = 6 * (num as u64);
    let seg: u64 = u / (den as u64);
    let rem: u64 = u % (den as u64);
    let fr: i64 = ((FX_SCALE as u64) * rem / (den as u64)) as i64;
    proof {
        assert(FX_SCALE as int * (rem as int) / (den as int) < FX_SCALE as int)
            by (nonlinear_arith)
            requires
                rem < den,
                den >= 1,
                FX_SCALE == 65536;
    }
    let ifr: i64 = FX_SCALE - fr;
    proof {
        assert(0 <= del * fr <= 0x1_0000_0000) by (nonlinear_arith)
            requires
                0 <= del <= 0x1_0000,
                0 <= fr <= 0x1_0000;
        assert(0 <= del * ifr <= 0x1_0000_0000) by (nonlinear_arith)
            requires
                0 <= del <= 0x1_0000,
                0 <= ifr <= 0x1_0000;
    }
    let e0 = trunc_div_exec(del * fr, FX_SCALE);
    let e1 = trunc_div_exec(del * ifr, FX_SCALE);
    if seg == 0 {
        [Fx { raw: mx }, Fx { raw: mn + e0 }, Fx { raw: mn }]
    } else if seg == 1 {
        [Fx { raw: mn + e1 }, Fx { raw: mx }, Fx { raw: mn }]
    } else if seg == 2 {
        [Fx { raw: mn }, Fx { raw: mx }, Fx { raw: mn + e0 }]
    } else if seg == 3 {
        [Fx { raw: mn }, Fx { raw: mn + e1 }, Fx { raw: mx }]
    } else if seg == 4 {
        [Fx { raw: mn + e0 }, Fx { raw: mn }, Fx { raw: mx }]
    } else if seg == 5 {
        [Fx { raw: mx }, Fx { raw: mn }, Fx { raw: mn + e1 }]
    } else {
        [Fx { raw: mx }, Fx { raw: mn }, Fx { raw: mn }]
    }
}

/// A cone vertex carries its hue fraction, sits at the disc normalization
/// of its saturation and signed lightness, and shows the triple's color.
pub open spec fn hsl_vertex_matches(v: HslVertex, num: int, den: int, s: int, light: int) -> bool {
    &&& v.hue_num == num
    &&& v.hue_den == den
    &&& disc_normalized(
        Fx { raw: s as i64 },
        Fx { raw: (2 * light - FX_SCALE) as i64 },
        v.radius,
        v.height,
    )
    &&& ({
        let (cr, cg, cb) = spec_hsl_color(num, den, s, light);
        v.color[0].raw == cr && v.color[1].raw == cg && v.color[2].raw == cb
    })
}

/// Build one cone vertex from its hue fraction, saturation and lightness.
pub fn hsl_vertex(num: u32, den: u32, s: Fx, light: Fx) -> (v: HslVertex)
    requires
        1 <= den,
        num <= den,
        0 <= s.raw <= FX_SCALE,
        0 <= light.raw <= FX_SCALE,
    ensures
        hsl_vertex_matches(v, num as int, den as int, s.raw as int, light.raw as int),
        s.raw == FX_SCALE && 2 * light.raw == FX_SCALE ==> v.radius.raw == FX_SCALE
            && v.height.raw == 0,
{
    let lsigned = Fx { raw: 2 * light.raw - FX_SCALE };
    let (radius, height) = hsl_disc(s, lsigned);
    let color = hsl_color(num, den, s, light);
    HslVertex { hue_num: num, hue_den: den, radius, height, color }
}

/// The cone-meridian segment at flat index `t` (hue strip `t / n_div`,
/// radial step `t % n_div + 1`): the segment starts at the dark apex for
/// the first step and at the previous step's end otherwise, and ends at
/// the vertex of its own parameters.
pub open spec fn cone_clause(s: Seq<HslVertex>, n_hue: int, n_div: int, t: int) -> bool {
    let h = t / n_div;
    let i = t % n_div + 1;
    let k = 2 + 2 * t;
    &&& s[k] == if i == 1 {
        s[0]
    } else {
        s[k - 1]
    }
    &&& hsl_vertex_matches(s[k + 1], h, n_hue, cone_sat_raw(i, n_div), cone_light_raw(i, n_div))
}

/// The equator segment for hue step `i` of `2 * n_div`: it starts at the
/// zero-hue rim point for the first step and at the previous step's end
/// otherwise, and ends at the rim point of hue `i`.
pub open spec fn equator_clause(s: Seq<HslVertex>, n_hue: int, n_div: int, i: int) -> bool {
    let k = 2 + 2 * n_hue * n_div + 2 * (i - 1);
    &&& (i == 1 ==> hsl_vertex_matches(s[k], 0, 2 * n_div, FX_SCALE as int, FX_SCALE as int / 2))
    &&& (i > 1 ==> s[k] == s[k - 1])
    &&& hsl_vertex_matches(s[k + 1], i, 2 * n_div, FX_SCALE as int, FX_SCALE as int / 2)
}

/// The HSL double cone as a line list: one meridian polyline from the dark
/// apex to the bright apex per hue division, then the equator ring.  Every
/// vertex of the equator ring sits at unit radius and zero height: the rim
/// is reached exactly, whatever the hue.
pub fn hsl_grid(n_hue: u32, n_div: u32) -> (r: Vec<HslVertex>)
    requires
        1 <= n_hue <= 64,
        1 <= n_div <= 256,
    ensures
        r@.len() == 2 + 2 * n_hue * n_div + 4 * n_div,
        hsl_vertex_matches(r@[0], 0, n_hue as int, 0, 0),
        hsl_vertex_matches(r@[1], 0, n_hue as int, 0, FX_SCALE as int),
        forall|t: int|
            0 <= t < n_hue * n_div ==> #[trigger] cone_clause(r@, n_hue as int, n_div as int, t),
        forall|i: int|
            1 <= i <= 2 * n_div ==> #[trigger] equator_clause(r@, n_hue as int, n_div as int, i),
        forall|k: int|
            2 + 2 * n_hue * n_div <= k < r@.len() ==> (#[trigger] r@[k]).radius.raw == FX_SCALE
                && r@[k].height.raw == 0,
{
    proof {
        assert(n_hue * n_div <= 16384) by (nonlinear_arith)
            requires
                n_hue <= 64,
                n_div <= 256;
    }
    let total: u32 = n_hue * n_div;
    let mut ver: Vec<HslVertex> = Vec::new();
    let e0 = hsl_vertex(0, n_hue, Fx::zero(), Fx::zero());
    let e1 = hsl_vertex(0, n_hue, Fx::zero(), Fx::one());
    ver.push(e0);
    ver.push(e1);
    let mut t: u32 = 0;
    while t < total
        invariant
            1 <= n_hue <= 64,
            1 <= n_div <= 256,
            total == n_hue * n_div,
            t <= total,
            ver@.len() == 2 + 2 * t,
            hsl_vertex_matches(ver@[0], 0, n_hue as int, 0, 0),
            hsl_vertex_matches(ver@[1], 0, n_hue as int, 0, FX_SCALE as int),
            forall|t2: int|
                0 <= t2 < t ==> #[trigger] cone_clause(ver@, n_hue as int, n_div as int, t2),
        decreases total - t,
    {
        let ghost prev = ver@;
        let h: u32 = t / n_div;
        let i: u32 = t % n_div + 1;
        proof {
            assert(h < n_hue && i <= n_div) by (nonlinear_arith)
                requires
                    h == t / n_div,
                    i == t % n_div + 1,
                    0 <= t < n_hue * n_div,
                    1 <= n_div,
                    1 <= n_hue;
        }
        if i == 1 {
            let c = ver[0];
            ver.push(c);
        } else {
            let c = ver[ver.len() - 1];
            ver.push(c);
        }
        let light_raw: u64 = (FX_SCALE as u64) * (i as u64) / (n_div as u64);
        proof {
            assert(FX_SCALE as int * (i as int) / (n_div as int) <= FX_SCALE as int)
                by (nonlinear_arith)
                requires
                    1 <= i <= n_div,
                    FX_SCALE == 65536;
            vstd::arithmetic::div_mod::lemma_div_pos_is_pos(
                FX_SCALE as int * i as int,
                n_div as int,
            );
        }
        let light = Fx { raw: light_raw as i64 };
        let ls: i64 = 2 * light.raw - FX_SCALE;
        let sat = Fx {
            raw: FX_SCALE - (if ls >= 0 {
                ls
            } else {
                -ls
            }),
        };
        let v = hsl_vertex(h, n_hue, sat, light);
        ver.push(v);
        proof {
            assert(sat.raw == cone_sat_raw(i as int, n_div as int));
            assert(light.raw == cone_light_raw(i as int, n_div as int));
            assert(cone_clause(ver@, n_hue as int, n_div as int, t as int));
            assert forall|t2: int| 0 <= t2 < t implies #[trigger] cone_clause(
                ver@,
                n_hue as int,
                n_div as int,
                t2,
            ) by {
                assert(cone_clause(prev, n_hue as int, n_div as int, t2));
                let k = 2 + 2 * t2;
                assert(ver@[k] == prev[k]);
                assert(ver@[k + 1] == prev[k + 1]);
                assert(ver@[0] == prev[0]);
                if t2 % (n_div as int) + 1 != 1 {
                    assert(ver@[k - 1] == prev[k - 1]);
                }
            }
        }
        t = t + 1;
    }
    let den2: u32 = 2 * n_div;
    let half = Fx { raw: 32768 };
    let ghost cone_len = ver@.len();
    let mut i: u32 = 1;
    while i <= den2
        invariant
            1 <= n_hue <= 64,
            1 <= n_div <= 256,
            total == n_hue * n_div,
            den2 == 2 * n_div,
            half.raw == 32768,
            1 <= i <= den2 + 1,
            cone_len == 2 + 2 * total,
            ver@.len() == cone_len + 2 * (i - 1),
            hsl_vertex_matches(ver@[0], 0, n_hue as int, 0, 0),
            hsl_vertex_matches(ver@[1], 0, n_hue as int, 0, FX_SCALE as int),
            forall|t2: int|
                0 <= t2 < total ==> #[trigger] cone_clause(ver@, n_hue as int, n_div as int, t2),
            forall|i2: int|
                1 <= i2 < i ==> #[trigger] equator_clause(ver@, n_hue as int, n_div as int, i2),
            forall|k: int|
                cone_len <= k < ver@.len() ==> (#[trigger] ver@[k]).radius.raw == FX_SCALE
                    && ver@[k].height.raw == 0,
        decreases den2 + 1 - i,
    {
        let ghost prev = ver@;
        if i == 1 {
            let start = hsl_vertex(0, den2, Fx::one(), half);
            ver.push(start);
        } else {
            let c = ver[ver.len() - 1];
            ver.push(c);
        }
        let v = hsl_vertex(i, den2, Fx::one(), half);
        ver.push(v);
        proof {
            assert(2 * (n_hue as int) * (n_div as int) == 2 * (total as int)) by (nonlinear_arith)
                requires
                    total == n_hue * n_div;
            assert(cone_len == 2 + 2 * (n_hue as int) * (n_div as int));
            assert(FX_SCALE as int / 2 == 32768);
            assert(equator_clause(ver@, n_hue as int, n_div as int, i as int));
            assert forall|t2: int| 0 <= t2 < total implies #[trigger] cone_clause(
                ver@,
                n_hue as int,
                n_div as int,
                t2,
            ) by {
                assert(cone_clause(prev, n_hue as int, n_div as int, t2));
                let k = 2 + 2 * t2;
                assert(ver@[k] == prev[k]);
                assert(ver@[k + 1] == prev[k + 1]);
                assert(ver@[0] == prev[0]);
                if t2 % (n_div as int) + 1 != 1 {
                    assert(ver@[k - 1] == prev[k - 1]);
                }
            }
            assert forall|i2: int| 1 <= i2 < i implies #[trigger] equator_clause(
                ver@,
                n_hue as int,
                n_div as int,
                i2,
            ) by {
                assert(equator_clause(prev, n_hue as int, n_div as int, i2));
                let k = 2 + 2 * (n_hue as int) * (n_div as int) + 2 * (i2 - 1);
                assert(ver@[k] == prev[k]);
                assert(ver@[k + 1] == prev[k + 1]);
                if i2 > 1 {
                    assert(ver@[k - 1] == prev[k - 1]);
                }
            }
        }
        i = i + 1;
    }
    proof {
        assert(2 * (n_hue as int) * (n_div as int) == 2 * (total as int)) by (nonlinear_arith)
            requires
                total == n_hue * n_div;
    }
    ver
}

/// Parameters of the grid draw for one frame.
#[derive(Clone, Copy, Debug, PartialEq, Eq)]
pub struct GridDrawParams {
    /// Projection constant shared with the color-cloud draw.
    pub projection: Matrix,
    /// Which reference grid is drawn: the cloud's color space.
    pub color_space: u32,
    /// Vertices in the selected line list.
    pub vertex_count: u32,
}

/// The grid pass: both reference grids, generated once.
pub struct Grids {
    pub rgb: Vec<Vertex>,
    pub hsl: Vec<HslVertex>,
}

impl Grids {
    pub open spec fn wf(self) -> bool {
        &&& self.rgb@ == spec_rgb_grid()
        &&& self.hsl@.len() == 2 + 2 * 6 * 48 + 4 * 48
    }

    /// Generate both grids: the cube edges, and the double cone with six
    /// hue divisions and forty-eight radial steps.
    pub fn new() -> (r: Grids)
        ensures
            r.wf(),
            forall|t: int| 0 <= t < 288 ==> #[trigger] cone_clause(r.hsl@, 6, 48, t),
            forall|i: int| 1 <= i <= 96 ==> #[trigger] equator_clause(r.hsl@, 6, 48, i),
            forall|k: int|
                578 <= k < r.hsl@.len() ==> (#[trigger] r.hsl@[k]).radius.raw == FX_SCALE
                    && r.hsl@[k].height.raw == 0,
    {
        let rgb = rgb_grid();
        let hsl = hsl_grid(6, 48);
        Grids { rgb, hsl }
    }

    /// One frame of the pass: drawn only when the color cloud is enabled
    /// and the grid display is toggled on; the selected color space picks
    /// the line list and its vertex count.
    pub fn process(&self, config: &Config) -> (r: Option<GridDrawParams>)
        requires
            self.wf(),
            config.wf(),
        ensures
            r is Some <==> config.enable_color_cloud && config.show_grid,
            r is Some ==> {
                let p = r->Some_0;
                &&& p.color_space == config.color_cloud_mode
                &&& p.vertex_count == if config.color_cloud_mode == COLORCLOUD_MODE_RGB {
                    24int
                } else {
                    770int
                }
                &&& forall|i: int, j: int|
                    0 <= i < 4 && 0 <= j < 4 ==> #[trigger] mat_raw(p.projection, i, j)
                        == proj_entry(
                        config.rotation,
                        config.window_rect.width,
                        config.window_rect.height,
                        i,
                        j,
                    )
            },
    {
        if config.enable_color_cloud && config.show_grid {
            let vertex_count: u32 = if config.color_cloud_mode == COLORCLOUD_MODE_RGB {
                let n = self.rgb.len();
                proof {
                    assert(spec_rgb_grid().len() == 24);
                }
                n as u32
            } else {
                self.hsl.len() as u32
            };
            Some(
                GridDrawParams {
                    projection: config.projection_matrix(),
                    color_space: config.color_cloud_mode,
                    vertex_count,
                },
            )
        } else {
            None
        }
    }
}

} // verus!
