//! Color-cloud pass: a 256-cubed occupancy counter indexed by quantized
//! RGB, cleared and refilled from the captured pixels each frame, then
//! drawn as a mesh-shaded point cloud under the projection constant.

use vstd::prelude::*;

use crate::color::Pixel;
use crate::config::{proj_entry, Config};
use crate::math::div_round_up;
use crate::matrix::{mat_raw, Matrix};

verus! {

/// Cells of the occupancy grid: one per quantized RGB triple.
pub const CLOUD_CELLS: u32 = 0x100_0000;

/// The occupancy cell a pixel lands in.
pub open spec fn cell_index(p: Pixel) -> int {
    p.r * 0x1_0000 + p.g * 0x100 + p.b
}

/// How many pixels of the sequence land in one cell.
pub open spec fn occ_count(s: Seq<Pixel>, i: int) -> nat
    decreases s.len(),
{
    if s.len() == 0 {
        0
    } else {
        occ_count(s.drop_last(), i) + if cell_index(s.last()) == i {
            1nat
        } else {
            0nat
        }
    }
}

/// No cell can hold more pixels than the sequence has.
pub proof fn lemma_occ_count_le_len(s: Seq<Pixel>, i: int)
    ensures
        occ_count(s, i) <= s.len(),
    decreases s.len(),
{
    if s.len() > 0 {
        lemma_occ_count_le_len(s.drop_last(), i);
    }
}

/// A frame of one repeated color fills exactly one cell with the frame's
/// whole pixel count and leaves every other cell at zero.
pub proof fn lemma_occ_count_uniform(s: Seq<Pixel>, q: Pixel, i: int)
    requires
        forall|k: int| 0 <= k < s.len() ==> s[k] == q,
    ensures
        occ_count(s, i) == if cell_index(q) == i {
            s.len()
        } else {
            0nat
        },
    decreases s.len(),
{
    if s.len() > 0 {
        assert(s.last() == q);
        lemma_occ_count_uniform(s.drop_last(), q, i);
    }
}

/// Parameters of the color-cloud work for one frame: the compute dispatch
/// over the capture rectangle, the mesh dispatch over the cell grid, and
/// the draw constants.
#[derive(Clone, Copy, Debug, PartialEq, Eq)]
pub struct CloudDrawParams {
    /// Projection constant shared with the grid draw.
    pub projection: Matrix,
    /// Smallest occupancy drawn; always zero.
    pub min_count: u32,
    /// Occupancy normalized to full opacity: a ninth of the pixel count.
    pub max_count: u32,
    /// Selected color space for the voxel layout.
    pub color_space: u32,
    /// Compute dispatch size over the capture rectangle.
    pub dispatch_x: u32,
    pub dispatch_y: u32,
    /// Mesh dispatch size per axis: the cell grid in chunks of eight.
    pub mesh_dim: u32,
}

/// The color-cloud pass and its occupancy counter, one cell per quantized
/// RGB triple, indexed red-major.
pub struct ColorCloud {
    pub counter: Vec<u32>,
}

impl ColorCloud {
    pub open spec fn wf(self) -> bool {
        self.counter@.len() == CLOUD_CELLS
    }

    /// The count in one cell.
    pub open spec fn cell(self, i: int) -> int {
        self.counter@[i] as int
    }

    pub fn new() -> (r: ColorCloud)
        ensures
            r.wf(),
            forall|i: int| 0 <= i < CLOUD_CELLS ==> #[trigger] r.cell(i) == 0,
    {
        let n = CLOUD_CELLS as usize;
        let mut counter: Vec<u32> = Vec::with_capacity(n);
        let mut i: usize = 0;
        while i < n
            invariant
                counter@.len() == i,
                i <= n,
                n == CLOUD_CELLS,
                forall|k: int| 0 <= k < i ==> counter@[k] == 0,
            decreases n - i,
        {
            counter.push(0);
            i = i + 1;
        }
        ColorCloud { counter }
    }

    /// Reset every cell to zero, as the pass does before each frame's
    /// accumulation; afterwards all cells read back zero.
    pub fn clear(&mut self)
        requires
            old(self).wf(),
        ensures
            final(self).wf(),
            forall|i: int| 0 <= i < CLOUD_CELLS ==> #[trigger] final(self).cell(i) == 0,
    {
        let n = CLOUD_CELLS as usize;
        let mut i: usize = 0;
        while i < n
            invariant
                self.wf(),
                i <= n,
                n == CLOUD_CELLS,
                forall|k: int| 0 <= k < i ==> self.counter@[k] == 0,
            decreases n - i,
        {
            self.counter[i] = 0;
            i = i + 1;
        }
    }

    /// The stored count of one cell.
    pub fn cell_at(&self, i: usize) -> (r: u32)
        requires
            self.wf(),
            i < CLOUD_CELLS,
        ensures
            r == self.cell(i as int),
    {
        self.counter[i]
    }

    /// Count one pixel into its cell.
    fn bump(&mut self, p: Pixel)
        requires
            old(self).wf(),
            old(self).cell(cell_index(p)) < u32::MAX,
        ensures
            final(self).wf(),
            forall|i: int|
                0 <= i < CLOUD_CELLS ==> #[trigger] final(self).cell(i) == old(self).cell(i)
                    + if cell_index(p) == i {
                    1int
                } else {
                    0int
                },
    {
        let idx: usize = (p.r as usize) * 0x1_0000 + (p.g as usize) * 0x100 + (p.b as usize);
        proof {
            assert(idx == cell_index(p));
        }
        let cur = self.counter[idx];
        proof {
            assert(cur == old(self).cell(cell_index(p)));
        }
        self.counter[idx] = cur + 1;
    }

    /// Accumulate a captured frame: afterwards each cell has grown by
    /// exactly the number of pixels whose quantized color lands in it.
    pub fn accumulate(&mut self, frame: &Vec<Pixel>)
        requires
            old(self).wf(),
            forall|i: int|
                0 <= i < CLOUD_CELLS ==> #[trigger] old(self).cell(i) + frame@.len() <= u32::MAX,
        ensures
            final(self).wf(),
            forall|i: int|
                0 <= i < CLOUD_CELLS ==> #[trigger] final(self).cell(i) == old(self).cell(i)
                    + occ_count(frame@, i),
    {
        let n = frame.len();
        let mut k: usize = 0;
        while k < n
            invariant
                self.wf(),
                k <= n,
                n == frame@.len(),
                forall|i: int|
                    0 <= i < CLOUD_CELLS ==> #[trigger] old(self).cell(i) + frame@.len()
                        <= u32::MAX,
                forall|i: int|
                    0 <= i < CLOUD_CELLS ==> #[trigger] self.cell(i) == old(self).cell(i)
                        + occ_count(frame@.take(k as int), i),
            decreases n - k,
        {
            let p = frame[k];
            proof {
                let pre = frame@.take(k as int);
                let post = frame@.take(k + 1);
                assert(post.drop_last() =~= pre);
                assert(post.last() == frame@[k as int]);
                assert forall|i: int| 0 <= i < CLOUD_CELLS implies #[trigger] occ_count(pre, i)
                    <= k by {
                    lemma_occ_count_le_len(pre, i);
                }
                assert(self.cell(cell_index(p)) == old(self).cell(cell_index(p)) + occ_count(
                    pre,
                    cell_index(p),
                ));
            }
            self.bump(p);
            k = k + 1;
        }
        proof {
            assert(frame@.take(n as int) =~= frame@);
        }
    }

    /// One frame of the pass: nothing when disabled; otherwise clear and
    /// refill the occupancy grid and hand back the dispatch sizes and draw
    /// constants — the shared projection, a zero visibility floor, and a
    /// ninth of the pixel count as the occupancy that saturates opacity.
    pub fn process(&mut self, frame: &Vec<Pixel>, config: &Config) -> (r: Option<CloudDrawParams>)
        requires
            old(self).wf(),
            config.wf(),
            frame@.len() <= u32::MAX,
            config.window_rect.width * config.window_rect.height <= u32::MAX,
        ensures
            final(self).wf(),
            !config.enable_color_cloud ==> r is None && *final(self) == *old(self),
            config.enable_color_cloud ==> r is Some && {
                let p = r->Some_0;
                let w = config.window_rect.width;
                let h = config.window_rect.height;
                &&& forall|i: int|
                    0 <= i < CLOUD_CELLS ==> #[trigger] final(self).cell(i) == occ_count(frame@, i)
                &&& forall|i: int, j: int|
                    0 <= i < 4 && 0 <= j < 4 ==> #[trigger] mat_raw(p.projection, i, j)
                        == proj_entry(config.rotation, w, h, i, j)
                &&& p.min_count == 0
                &&& p.max_count == (w * h) as int / 9
                &&& p.color_space == config.color_cloud_mode
                &&& p.dispatch_x == (w + 7) / 8
                &&& p.dispatch_y == (h + 7) / 8
                &&& p.mesh_dim == 32
            },
    {
        if !config.enable_color_cloud {
            return None;
        }
        self.clear();
        self.accumulate(frame);
        let w = config.window_rect.width;
        let h = config.window_rect.height;
        let max_count: u32 = w * h / 9;
        Some(
            CloudDrawParams {
                projection: config.projection_matrix(),
                min_count: 0,
                max_count,
                color_space: config.color_cloud_mode,
                dispatch_x: div_round_up(w, 8),
                dispatch_y: div_round_up(h, 8),
                mesh_dim: 32,
            },
        )
    }
}

} // verus!
