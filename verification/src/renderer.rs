//! Per-frame renderer model: the two viewport rectangles, the bump cursor
//! over the frame's shader-visible descriptor copies, the timestamp ring,
//! and the pairing of labeled timestamps into elapsed times after the GPU
//! has finished.

use vstd::prelude::*;

use crate::error::PipelineError;
use crate::math::{Fx, FX_SCALE};

verus! {

/// Slots in the timestamp query ring.
pub const TIMESTAMP_SLOTS: usize = 64;

/// Descriptors in the per-frame shader-visible pool.
pub const SHADER_VISIBLE_DESCRIPTORS: usize = 16;

/// A viewport rectangle in fixed-point pixels: the adjusted viewport's
/// corner can sit at half-pixel positions.
#[derive(Clone, Copy, Debug, PartialEq, Eq, Structural)]
pub struct Viewport {
    pub x: Fx,
    pub y: Fx,
    pub width: Fx,
    pub height: Fx,
}

/// Which of the frame's two viewports a draw uses.
#[derive(Clone, Copy, Debug, PartialEq, Eq, Structural)]
pub enum ViewportKind {
    /// The full target, for screen-space passes.
    Full,
    /// The centered square spanning the longer side, for the cloud.
    Adjust,
}

/// The full viewport of a target.
pub open spec fn spec_full_viewport(width: u32, height: u32) -> Viewport {
    Viewport {
        x: Fx { raw: 0 },
        y: Fx { raw: 0 },
        width: Fx { raw: (width * FX_SCALE) as i64 },
        height: Fx { raw: (height * FX_SCALE) as i64 },
    }
}

/// The square viewport: its side is the longer of width and height, and it
/// is centered, so the corner offsets are half the (non-positive)
/// difference, exact at half pixels.
pub open spec fn spec_adjusted_viewport(width: u32, height: u32) -> Viewport {
    let side = if width >= height {
        width as int
    } else {
        height as int
    };
    Viewport {
        x: Fx { raw: ((width - side) * (FX_SCALE / 2)) as i64 },
        y: Fx { raw: ((height - side) * (FX_SCALE / 2)) as i64 },
        width: Fx { raw: (side * FX_SCALE) as i64 },
        height: Fx { raw: (side * FX_SCALE) as i64 },
    }
}

/// Both viewports of a target: the full rectangle and the centered square.
pub fn compute_viewports(width: u32, height: u32) -> (r: [Viewport; 2])
    ensures
        r[0] == spec_full_viewport(width, height),
        r[1] == spec_adjusted_viewport(width, height),
{
    let side: u32 = if width >= height {
        width
    } else {
        height
    };
    let full = Viewport {
        x: Fx { raw: 0 },
        y: Fx { raw: 0 },
        width: Fx { raw: (width as i64) * FX_SCALE },
        height: Fx { raw: (height as i64) * FX_SCALE },
    };
    let adjusted = Viewport {
        x: Fx { raw: (width as i64 - side as i64) * (FX_SCALE / 2) },
        y: Fx { raw: (height as i64 - side as i64) * (FX_SCALE / 2) },
        width: Fx { raw: (side as i64) * FX_SCALE },
        height: Fx { raw: (side as i64) * FX_SCALE },
    };
    [full, adjusted]
}

/// The frame's bump cursor over the shader-visible descriptor pool.  The
/// pool is sized at startup for the known maximum per-frame usage, so
/// running out is a fatal logic error, not a condition to recover from.
#[derive(Clone, Copy, Debug, PartialEq, Eq, Structural)]
pub struct DescriptorArena {
    pub next: usize,
    pub capacity: usize,
}

impl DescriptorArena {
    pub fn new(capacity: usize) -> (r: DescriptorArena)
        ensures
            r.next == 0,
            r.capacity == capacity,
    {
        DescriptorArena { next: 0, capacity }
    }

    /// Claim `count` consecutive slots: the claim succeeds exactly when it
    /// fits in what remains, returning the first claimed slot; on failure
    /// the cursor is unchanged.
    pub fn claim(&mut self, count: usize) -> (r: Result<usize, PipelineError>)
        ensures
            final(self).capacity == old(self).capacity,
            old(self).next + count <= old(self).capacity ==> r == Result::<
                usize,
                PipelineError,
            >::Ok(old(self).next) && final(self).next == old(self).next + count,
            old(self).next + count > old(self).capacity ==> r == Result::<
                usize,
                PipelineError,
            >::Err(PipelineError::DescriptorsExhausted) && *final(self) == *old(self),
    {
        if count <= self.capacity && self.next <= self.capacity - count {
            let start = self.next;
            self.next = self.next + count;
            Ok(start)
        } else {
            Err(PipelineError::DescriptorsExhausted)
        }
    }
}

/// The frame's timestamp ring: labels recorded in order, capped at the
/// query pool's size.  Recording past the cap silently drops the sample —
/// a soft limit that only truncates instrumentation.
pub struct TimestampRing {
    pub labels: Vec<u64>,
    pub capacity: usize,
}

impl TimestampRing {
    pub fn new(capacity: usize) -> (r: TimestampRing)
        ensures
            r.labels@.len() == 0,
            r.capacity == capacity,
    {
        TimestampRing { labels: Vec::new(), capacity }
    }

    /// Record a labeled timestamp if a slot remains, returning its query
    /// index; past capacity nothing changes and nothing is recorded.
    pub fn timestamp(&mut self, label: u64) -> (r: Option<u32>)
        requires
            old(self).capacity <= u32::MAX,
            old(self).labels@.len() <= old(self).capacity,
        ensures
            final(self).capacity == old(self).capacity,
            old(self).labels@.len() < old(self).capacity ==> r == Some(
                old(self).labels@.len() as u32,
            ) && final(self).labels@ == old(self).labels@.push(label),
            old(self).labels@.len() >= old(self).capacity ==> r is None && final(self).labels@
                == old(self).labels@,
    {
        if self.labels.len() < self.capacity {
            let index = self.labels.len();
            self.labels.push(label);
            Some(index as u32)
        } else {
            None
        }
    }

    /// How many timestamps were recorded, for the resolve call.
    pub fn count(&self) -> (r: usize)
        ensures
            r == self.labels@.len(),
    {
        self.labels.len()
    }
}

/// Occurrences of a label in the first `upto` entries.
pub open spec fn count_eq(s: Seq<u64>, label: u64, upto: int) -> nat
    decreases upto,
{
    if upto <= 0 {
        0
    } else {
        count_eq(s, label, upto - 1) + if s[upto - 1] == label {
            1nat
        } else {
            0nat
        }
    }
}

/// Index of the first occurrence of a label at or after `from`; the length
/// when there is none.
pub open spec fn find_first(s: Seq<u64>, label: u64, from: int) -> int
    decreases s.len() - from,
{
    if from < 0 || from >= s.len() {
        s.len() as int
    } else if s[from] == label {
        from
    } else {
        find_first(s, label, from + 1)
    }
}

/// Elapsed microseconds between two timestamps at a tick frequency,
/// clamped below at zero ticks and above at the representable maximum.
pub open spec fn spec_elapsed_micros(t0: u64, t1: u64, freq: u64) -> int {
    let dt: int = if t1 >= t0 {
        t1 - t0
    } else {
        0
    };
    let micros = dt * 1_000_000 / freq as int;
    if micros > u64::MAX {
        u64::MAX as int
    } else {
        micros
    }
}

pub fn elapsed_micros(t0: u64, t1: u64, freq: u64) -> (r: u64)
    requires
        freq > 0,
    ensures
        r == spec_elapsed_micros(t0, t1, freq),
{
    let dt: u64 = if t1 >= t0 {
        t1 - t0
    } else {
        0
    };
    let micros: u128 = (dt as u128) * 1_000_000 / (freq as u128);
    proof {
        assert((dt as int) * 1_000_000 <= 0xFFFF_FFFF_FFFF_FFFF * 1_000_000int) by (nonlinear_arith)
            requires
                0 <= dt <= 0xFFFF_FFFF_FFFF_FFFF;
    }
    if micros > u64::MAX as u128 {
        u64::MAX
    } else {
        micros as u64
    }
}

/// The labeled elapsed times of a frame, in order of each label's second
/// occurrence: the first occurrence starts the region, the second stops
/// it, and any further occurrences of the same label are ignored.
pub open spec fn spec_elapsed_pairs(labels: Seq<u64>, times: Seq<u64>, freq: u64, upto: int) -> Seq<
    (u64, u64),
>
    decreases upto,
{
    if upto <= 0 {
        Seq::empty()
    } else {
        let rest = spec_elapsed_pairs(labels, times, freq, upto - 1);
        let j = upto - 1;
        if count_eq(labels, labels[j], j) == 1 {
            let i = find_first(labels, labels[j], 0);
            rest.push((labels[j], spec_elapsed_micros(times[i], times[j], freq) as u64))
        } else {
            rest
        }
    }
}

/// Match the resolved timestamps into labeled elapsed times.
pub fn elapsed_pairs(labels: &Vec<u64>, times: &Vec<u64>, freq: u64) -> (r: Vec<(u64, u64)>)
    requires
        freq > 0,
        times@.len() >= labels@.len(),
    ensures
        r@ == spec_elapsed_pairs(labels@, times@, freq, labels@.len() as int),
{
    let n = labels.len();
    let mut out: Vec<(u64, u64)> = Vec::new();
    let mut j: usize = 0;
    while j < n
        invariant
            freq > 0,
            j <= n,
            n == labels@.len(),
            times@.len() >= labels@.len(),
            out@ == spec_elapsed_pairs(labels@, times@, freq, j as int),
        decreases n - j,
    {
        let lj = labels[j];
        let mut cnt: u64 = 0;
        let mut k: usize = 0;
        while k < j
            invariant
                k <= j,
                j < n,
                n == labels@.len(),
                lj == labels@[j as int],
                cnt == count_eq(labels@, lj, k as int),
                cnt <= k,
            decreases j - k,
        {
            if labels[k] == lj {
                cnt = cnt + 1;
            }
            k = k + 1;
        }
        if cnt == 1 {
            let mut first: usize = 0;
            while first < j && labels[first] != lj
                invariant
                    first <= j,
                    j < n,
                    n == labels@.len(),
                    lj == labels@[j as int],
                    find_first(labels@, lj, 0) == find_first(labels@, lj, first as int),
                decreases j - first,
            {
                first = first + 1;
            }
            proof {
                if first < j {
                    assert(find_first(labels@, lj, first as int) == first);
                } else {
                    assert(labels@[j as int] == lj);
                    assert(find_first(labels@, lj, j as int) == j);
                }
            }
            let micros = elapsed_micros(times[first], times[j], freq);
            out.push((lj, micros));
        }
        j = j + 1;
    }
    out
}

} // verus!
