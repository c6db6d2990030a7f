//! Per-iteration configuration snapshot.  The pipeline thread copies one
//! `Config` value per frame from shared state and never mutates it; every
//! pass reads its own fields from the same snapshot, so a frame can never
//! observe a torn update.

use vstd::prelude::*;

use crate::math::{Fx, FX_SCALE};
use crate::matrix::{mat_bounded, mat_raw, mat_mul_entry, Matrix, Vec4, FX_MUL_BOUND};

verus! {

pub const FILTER_MODE_RGB: u32 = 0;

pub const FILTER_MODE_HUE: u32 = 1;

pub const FILTER_MODE_SAT: u32 = 2;

pub const FILTER_MODE_LUMA: u32 = 3;

pub const HISTOGRAM_MODE_RGB: u32 = 0;

pub const HISTOGRAM_MODE_RGBL: u32 = 1;

pub const HISTOGRAM_MODE_LUMA: u32 = 2;

pub const HISTOGRAM_MODE_HUE: u32 = 3;

pub const COLORCLOUD_MODE_RGB: u32 = 0;

pub const COLORCLOUD_MODE_HSL: u32 = 1;

/// Largest raw magnitude an accumulated rotation entry may reach.  True
/// rotation entries stay within one unit; the slack absorbs fixed-point
/// drift from repeated composition.
pub const ROTATION_BOUND: i64 = 0x100_0000;

/// Raw fixed-point value of the `0.9` margin factor in the projection scale.
pub const PROJ_MARGIN_RAW: i64 = 58982;

/// Raw fixed-point value of the projection's depth scale, one quarter.
pub const PROJ_Z_SCALE_RAW: i64 = 16384;

/// Raw fixed-point value of the projection's depth offset, one half.
pub const PROJ_Z_OFFSET_RAW: i64 = 32768;

/// Window placement and size, in pixels.
#[derive(Clone, Copy, Debug, PartialEq, Eq, Structural)]
pub struct Rect {
    pub x: i32,
    pub y: i32,
    pub width: u32,
    pub height: u32,
}

/// One snapshot of the user settings the pipeline acts on.
#[derive(Clone, Copy, Debug)]
pub struct Config {
    pub enable_filter: bool,
    pub filter_mode: u32,
    pub filter_channels: [bool; 4],
    pub enable_histogram: bool,
    pub histogram_mode: u32,
    /// Histogram display scale in percent, 0 to 100.
    pub histogram_scale: u32,
    pub enable_color_cloud: bool,
    pub color_cloud_mode: u32,
    pub show_grid: bool,
    /// Background opacity in percent, 0 to 100.
    pub bg_opacity: u32,
    pub window_rect: Rect,
    /// Accumulated free rotation, updated by the interface thread on drag.
    pub rotation: Matrix,
}

impl Config {
    /// A snapshot the pipeline can act on: a non-empty window, percent
    /// fields within range, mode selectors within their enumerations, and a
    /// rotation whose entries the fixed-point products can absorb.
    pub open spec fn wf(self) -> bool {
        &&& self.window_rect.width >= 1
        &&& self.window_rect.height >= 1
        &&& self.histogram_scale <= 100
        &&& self.bg_opacity <= 100
        &&& self.filter_mode <= 3
        &&& self.histogram_mode <= 3
        &&& self.color_cloud_mode <= 1
        &&& mat_bounded(self.rotation, ROTATION_BOUND as int)
    }

    /// The projection constant for the color-cloud and grid draws: the
    /// accumulated rotation, scaled uniformly so the cloud stays square
    /// under a non-square window, pushed half a unit into depth.
    pub fn projection_matrix(&self) -> (r: Matrix)
        requires
            self.wf(),
        ensures
            forall|i: int, j: int|
                0 <= i < 4 && 0 <= j < 4 ==> #[trigger] mat_raw(r, i, j) == proj_entry(
                    self.rotation,
                    self.window_rect.width,
                    self.window_rect.height,
                    i,
                    j,
                ),
    {
        let width = self.window_rect.width;
        let height = self.window_rect.height;
        let mn: u32 = if width < height {
            width
        } else {
            height
        };
        let mx: u32 = if width < height {
            height
        } else {
            width
        };
        let s_raw: u64 = (PROJ_MARGIN_RAW as u64) * (mn as u64) / (mx as u64);
        proof {
            let p = PROJ_MARGIN_RAW as int * mn as int;
            assert(p / (mx as int) <= PROJ_MARGIN_RAW as int) by (nonlinear_arith)
                requires
                    p == PROJ_MARGIN_RAW as int * mn as int,
                    0 < mn <= mx;
        }
        let s = Fx { raw: s_raw as i64 };
        let sm = Matrix::scale(s, s, Fx { raw: PROJ_Z_SCALE_RAW });
        let tm = Matrix::translate(Fx::zero(), Fx::zero(), Fx { raw: PROJ_Z_OFFSET_RAW });
        let ghost sm_s = spec_proj_scale_mat(width, height);
        let ghost tm_s = spec_proj_translate_mat();
        let ghost m1_s = spec_mat_mul(self.rotation, sm_s);
        proof {
            assert forall|i: int, j: int| 0 <= i < 4 && 0 <= j < 4 implies #[trigger] mat_raw(
                sm,
                i,
                j,
            ) == mat_raw(sm_s, i, j) by {}
            assert forall|i: int, j: int| 0 <= i < 4 && 0 <= j < 4 implies #[trigger] mat_raw(
                tm,
                i,
                j,
            ) == mat_raw(tm_s, i, j) by {}
            assert(mat_bounded(sm, FX_SCALE as int));
            assert(mat_bounded(tm, FX_SCALE as int));
            assert(mat_bounded(sm_s, FX_SCALE as int));
            assert(mat_bounded(self.rotation, FX_MUL_BOUND as int));
            crate::matrix::lemma_mat_mul_result_bounded(
                self.rotation,
                sm_s,
                ROTATION_BOUND as int,
                FX_SCALE as int,
            );
            crate::matrix::lemma_mat_mul_result_bounded(
                self.rotation,
                sm,
                ROTATION_BOUND as int,
                FX_SCALE as int,
            );
        }
        let m1 = self.rotation.mul(&sm);
        proof {
            assert forall|i: int, j: int| 0 <= i < 4 && 0 <= j < 4 implies #[trigger] mat_raw(
                m1,
                i,
                j,
            ) == mat_raw(m1_s, i, j) by {
                assert(mat_raw(m1, i, j) == mat_mul_entry(self.rotation, sm, i, j));
                assert(mat_mul_entry(self.rotation, sm, i, j) == mat_mul_entry(
                    self.rotation,
                    sm_s,
                    i,
                    j,
                ));
            }
            assert(mat_bounded(m1, FX_MUL_BOUND as int));
            assert(mat_bounded(m1_s, FX_MUL_BOUND as int));
            crate::matrix::lemma_mat_mul_result_bounded(
                m1_s,
                tm_s,
                FX_MUL_BOUND as int,
                FX_SCALE as int,
            );
        }
        let m2 = m1.mul(&tm);
        proof {
            assert forall|i: int, j: int| 0 <= i < 4 && 0 <= j < 4 implies #[trigger] mat_raw(
                m2,
                i,
                j,
            ) == proj_entry(self.rotation, width, height, i, j) by {
                assert(mat_raw(m2, i, j) == mat_mul_entry(m1, tm, i, j));
                assert(mat_mul_entry(m1, tm, i, j) == mat_mul_entry(m1_s, tm_s, i, j));
            }
        }
        m2
    }
}

impl Default for Config {
    /// The settings used when no stored configuration can be read: every
    /// visualization off, neutral modes, half histogram scale, an opaque
    /// background, a 1280 by 720 window, and no rotation.
    fn default() -> (r: Config)
        ensures
            r.wf(),
            !r.enable_filter && !r.enable_histogram && !r.enable_color_cloud,
            r.filter_mode == FILTER_MODE_RGB,
            r.filter_channels == [true, true, true, true],
            r.histogram_mode == HISTOGRAM_MODE_RGB,
            r.histogram_scale == 50,
            r.color_cloud_mode == COLORCLOUD_MODE_RGB,
            !r.show_grid,
            r.bg_opacity == 100,
            r.window_rect == (Rect { x: 100, y: 100, width: 1280, height: 720 }),
            forall|i: int, j: int|
                0 <= i < 4 && 0 <= j < 4 ==> #[trigger] mat_raw(r.rotation, i, j) == if i == j {
                    FX_SCALE as int
                } else {
                    0
                },
    {
        Config {
            enable_filter: false,
            filter_mode: FILTER_MODE_RGB,
            filter_channels: [true, true, true, true],
            enable_histogram: false,
            histogram_mode: HISTOGRAM_MODE_RGB,
            histogram_scale: 50,
            enable_color_cloud: false,
            color_cloud_mode: COLORCLOUD_MODE_RGB,
            show_grid: false,
            bg_opacity: 100,
            window_rect: Rect { x: 100, y: 100, width: 1280, height: 720 },
            rotation: Matrix::identity(),
        }
    }
}

/// Raw fixed-point value of the projection's uniform scale for a window of
/// the given size: `0.9` of the shorter side over the longer side.
pub open spec fn spec_proj_scale(width: u32, height: u32) -> int {
    let mn = if width < height {
        width as int
    } else {
        height as int
    };
    let mx = if width < height {
        height as int
    } else {
        width as int
    };
    PROJ_MARGIN_RAW * mn / mx
}

/// The fixed-point matrix product as a value, entry by entry.
pub open spec fn spec_mat_mul(a: Matrix, b: Matrix) -> Matrix {
    Matrix {
        cols: [
            Vec4 {
                e: [
                    Fx { raw: mat_mul_entry(a, b, 0, 0) as i64 },
                    Fx { raw: mat_mul_entry(a, b, 1, 0) as i64 },
                    Fx { raw: mat_mul_entry(a, b, 2, 0) as i64 },
                    Fx { raw: mat_mul_entry(a, b, 3, 0) as i64 },
                ],
            },
            Vec4 {
                e: [
                    Fx { raw: mat_mul_entry(a, b, 0, 1) as i64 },
                    Fx { raw: mat_mul_entry(a, b, 1, 1) as i64 },
                    Fx { raw: mat_mul_entry(a, b, 2, 1) as i64 },
                    Fx { raw: mat_mul_entry(a, b, 3, 1) as i64 },
                ],
            },
            Vec4 {
                e: [
                    Fx { raw: mat_mul_entry(a, b, 0, 2) as i64 },
                    Fx { raw: mat_mul_entry(a, b, 1, 2) as i64 },
                    Fx { raw: mat_mul_entry(a, b, 2, 2) as i64 },
                    Fx { raw: mat_mul_entry(a, b, 3, 2) as i64 },
                ],
            },
            Vec4 {
                e: [
                    Fx { raw: mat_mul_entry(a, b, 0, 3) as i64 },
                    Fx { raw: mat_mul_entry(a, b, 1, 3) as i64 },
                    Fx { raw: mat_mul_entry(a, b, 2, 3) as i64 },
                    Fx { raw: mat_mul_entry(a, b, 3, 3) as i64 },
                ],
            },
        ],
    }
}

/// The scale matrix of the projection, as a value.
pub open spec fn spec_proj_scale_mat(width: u32, height: u32) -> Matrix {
    let s = spec_proj_scale(width, height) as i64;
    Matrix {
        cols: [
            Vec4 { e: [Fx { raw: s }, Fx { raw: 0 }, Fx { raw: 0 }, Fx { raw: 0 }] },
            Vec4 { e: [Fx { raw: 0 }, Fx { raw: s }, Fx { raw: 0 }, Fx { raw: 0 }] },
            Vec4 { e: [Fx { raw: 0 }, Fx { raw: 0 }, Fx { raw: PROJ_Z_SCALE_RAW }, Fx { raw: 0 }] },
            Vec4 { e: [Fx { raw: 0 }, Fx { raw: 0 }, Fx { raw: 0 }, Fx { raw: FX_SCALE }] },
        ],
    }
}

/// The fixed translation of the projection, as a value: half a unit along z.
pub open spec fn spec_proj_translate_mat() -> Matrix {
    Matrix {
        cols: [
            Vec4 { e: [Fx { raw: FX_SCALE }, Fx { raw: 0 }, Fx { raw: 0 }, Fx { raw: 0 }] },
            Vec4 { e: [Fx { raw: 0 }, Fx { raw: FX_SCALE }, Fx { raw: 0 }, Fx { raw: 0 }] },
            Vec4 { e: [Fx { raw: 0 }, Fx { raw: 0 }, Fx { raw: FX_SCALE }, Fx { raw: PROJ_Z_OFFSET_RAW }] },
            Vec4 { e: [Fx { raw: 0 }, Fx { raw: 0 }, Fx { raw: 0 }, Fx { raw: FX_SCALE }] },
        ],
    }
}

/// What the projection constant is: rotation, then uniform scale, then the
/// fixed depth translation.
pub open spec fn spec_projection(rotation: Matrix, width: u32, height: u32) -> Matrix {
    spec_mat_mul(spec_mat_mul(rotation, spec_proj_scale_mat(width, height)), spec_proj_translate_mat())
}

/// Entry `(i, j)` of the projection constant.
pub open spec fn proj_entry(rotation: Matrix, width: u32, height: u32, i: int, j: int) -> int {
    mat_mul_entry(
        spec_mat_mul(rotation, spec_proj_scale_mat(width, height)),
        spec_proj_translate_mat(),
        i,
        j,
    )
}

/// Projection construction is a function of the rotation and the window size
/// alone: two snapshots that agree on those agree on the whole projection,
/// however often it is rebuilt.
pub proof fn lemma_projection_deterministic(a: Config, b: Config)
    requires
        a.rotation == b.rotation,
        a.window_rect.width == b.window_rect.width,
        a.window_rect.height == b.window_rect.height,
    ensures
        spec_projection(a.rotation, a.window_rect.width, a.window_rect.height)
            == spec_projection(b.rotation, b.window_rect.width, b.window_rect.height),
{
}

} // verus!
