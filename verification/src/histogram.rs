//! Histogram pass: four parallel 256-bin accumulators (red, green, blue,
//! and a fourth channel that carries luma or hue depending on the mode),
//! cleared every frame and refilled from the captured pixels, then drawn as
//! instanced bar strips.

use vstd::prelude::*;

use crate::color::{hue_spec, hue8, luma_spec, luma8, Pixel};
use crate::config::{Config, HISTOGRAM_MODE_HUE, HISTOGRAM_MODE_RGB, HISTOGRAM_MODE_RGBL};
use crate::math::div_round_up;

verus! {

/// Bins per channel: the sample domain is fixed at eight bits.
pub const HISTOGRAM_BINS: u32 = 256;

/// Whether a channel accumulates anything in the given mode.
pub open spec fn channel_active(mode: u32, ch: int) -> bool {
    if mode == HISTOGRAM_MODE_RGB {
        0 <= ch < 3
    } else if mode == HISTOGRAM_MODE_RGBL {
        0 <= ch < 4
    } else {
        ch == 3
    }
}

/// The sample a pixel contributes to a channel: its own color component for
/// the first three, luma or hue for the fourth.
pub open spec fn channel_sample(mode: u32, ch: int, p: Pixel) -> int {
    if ch == 0 {
        p.r as int
    } else if ch == 1 {
        p.g as int
    } else if ch == 2 {
        p.b as int
    } else if mode == HISTOGRAM_MODE_HUE {
        hue_spec(p)
    } else {
        luma_spec(p)
    }
}

/// Whether a pixel lands in bin `v` of a channel.  A sample of value zero
/// leaves its channel untouched, so a disabled or absent signal draws no
/// bar at the origin.
pub open spec fn contributes(mode: u32, ch: int, p: Pixel, v: int) -> bool {
    channel_active(mode, ch) && v == channel_sample(mode, ch, p) && v != 0
}

/// How many pixels of the sequence land in bin `v` of a channel.
pub open spec fn hist_count(s: Seq<Pixel>, mode: u32, ch: int, v: int) -> nat
    decreases s.len(),
{
    if s.len() == 0 {
        0
    } else {
        hist_count(s.drop_last(), mode, ch, v) + if contributes(mode, ch, s.last(), v) {
            1nat
        } else {
            0nat
        }
    }
}

/// No bin can hold more pixels than the sequence has.
pub proof fn lemma_hist_count_le_len(s: Seq<Pixel>, mode: u32, ch: int, v: int)
    ensures
        hist_count(s, mode, ch, v) <= s.len(),
    decreases s.len(),
{
    if s.len() > 0 {
        lemma_hist_count_le_len(s.drop_last(), mode, ch, v);
    }
}

/// Sum of a channel's first `vmax` bins.
pub open spec fn hist_count_sum(s: Seq<Pixel>, mode: u32, ch: int, vmax: int) -> nat
    decreases vmax,
{
    if vmax <= 0 {
        0
    } else {
        hist_count_sum(s, mode, ch, vmax - 1) + hist_count(s, mode, ch, vmax - 1)
    }
}

proof fn lemma_hist_sum_empty(s: Seq<Pixel>, mode: u32, ch: int, vmax: int)
    requires
        s.len() == 0,
    ensures
        hist_count_sum(s, mode, ch, vmax) == 0,
    decreases vmax,
{
    if vmax > 0 {
        lemma_hist_sum_empty(s, mode, ch, vmax - 1);
    }
}

/// Appending one pixel raises the partial sum by one exactly when the
/// pixel's sample is a positive value below the partial bound.
proof fn lemma_hist_sum_step(s: Seq<Pixel>, mode: u32, ch: int, vmax: int)
    requires
        s.len() > 0,
        0 <= vmax,
    ensures
        hist_count_sum(s, mode, ch, vmax) == hist_count_sum(s.drop_last(), mode, ch, vmax)
            + if channel_active(mode, ch) && 0 < channel_sample(mode, ch, s.last()) < vmax {
            1nat
        } else {
            0nat
        },
    decreases vmax,
{
    if vmax > 0 {
        lemma_hist_sum_step(s, mode, ch, vmax - 1);
    }
}

/// Bin counts across a channel sum to at most the number of captured
/// pixels: each pixel lands in at most one bin of the channel, and pixels
/// whose sample is zero land in none.
pub proof fn lemma_hist_sum_bounded(s: Seq<Pixel>, mode: u32, ch: int)
    ensures
        hist_count_sum(s, mode, ch, 256) <= s.len(),
    decreases s.len(),
{
    if s.len() == 0 {
        lemma_hist_sum_empty(s, mode, ch, 256);
    } else {
        lemma_hist_sum_bounded(s.drop_last(), mode, ch);
        lemma_hist_sum_step(s, mode, ch, 256);
    }
}

/// In a sequence of one repeated pixel, a bin holds the whole length where
/// the pixel contributes to it and nothing anywhere else.
pub proof fn lemma_hist_count_uniform(s: Seq<Pixel>, q: Pixel, mode: u32, ch: int, v: int)
    requires
        forall|i: int| 0 <= i < s.len() ==> s[i] == q,
    ensures
        hist_count(s, mode, ch, v) == if contributes(mode, ch, q, v) {
            s.len()
        } else {
            0nat
        },
    decreases s.len(),
{
    if s.len() > 0 {
        assert(s.last() == q);
        lemma_hist_count_uniform(s.drop_last(), q, mode, ch, v);
    }
}

/// Parameters of the histogram draw: per-channel instancing and the
/// vertical normalization handed to the shader as an exact rational.
#[derive(Clone, Copy, Debug, PartialEq, Eq, Structural)]
pub struct HistogramDrawParams {
    pub mode: u32,
    /// Instances drawn: one per active channel.
    pub instances: u32,
    /// Vertices per instance: two per bin, as a triangle strip.
    pub vertices: u32,
    /// Numerator of the vertical scale.
    pub scale_num: u64,
    /// Denominator of the vertical scale.
    pub scale_den: u64,
    /// Compute dispatch size over the capture rectangle.
    pub dispatch_x: u32,
    pub dispatch_y: u32,
}

/// The histogram pass: its four aggregation channels, stored as one flat
/// buffer of `4 * 256` bins indexed channel-major.
pub struct Histogram {
    pub bins: Vec<u32>,
}

impl Histogram {
    pub open spec fn wf(self) -> bool {
        self.bins@.len() == 1024
    }

    /// The count in bin `v` of channel `ch`.
    pub open spec fn bin(self, ch: int, v: int) -> int {
        self.bins@[ch * 256 + v] as int
    }

    pub fn new() -> (r: Histogram)
        ensures
            r.wf(),
            forall|ch: int, v: int| 0 <= ch < 4 && 0 <= v < 256 ==> #[trigger] r.bin(ch, v) == 0,
    {
        let mut bins: Vec<u32> = Vec::new();
        let mut i: usize = 0;
        while i < 1024
            invariant
                bins@.len() == i,
                i <= 1024,
                forall|k: int| 0 <= k < i ==> bins@[k] == 0,
            decreases 1024 - i,
        {
            bins.push(0);
            i = i + 1;
        }
        Histogram { bins }
    }

    /// Reset every bin of every channel to zero, as the pass does before
    /// each frame's accumulation; afterwards all bins read back zero.
    pub fn clear(&mut self)
        requires
            old(self).wf(),
        ensures
            final(self).wf(),
            forall|ch: int, v: int|
                0 <= ch < 4 && 0 <= v < 256 ==> #[trigger] final(self).bin(ch, v) == 0,
    {
        let mut i: usize = 0;
        while i < 1024
            invariant
                self.wf(),
                i <= 1024,
                forall|k: int| 0 <= k < i ==> self.bins@[k] == 0,
            decreases 1024 - i,
        {
            self.bins[i] = 0;
            i = i + 1;
        }
    }

    /// Add one sample to a channel; a zero value is not accumulated.
    fn bump(&mut self, mode: u32, ch: usize, v: u8)
        requires
            old(self).wf(),
            ch < 4,
            old(self).bin(ch as int, v as int) < u32::MAX,
        ensures
            final(self).wf(),
            forall|c: int, w: int|
                0 <= c < 4 && 0 <= w < 256 ==> #[trigger] final(self).bin(c, w) == old(self).bin(
                    c,
                    w,
                ) + if c == ch && w == v && v != 0 {
                    1int
                } else {
                    0int
                },
    {
        if v > 0 {
            let idx: usize = ch * 256 + (v as usize);
            let cur = self.bins[idx];
            self.bins[idx] = cur + 1;
        }
    }

    /// Accumulate a captured frame into the four channels under the given
    /// mode: afterwards each bin has grown by exactly the number of pixels
    /// whose sample lands in it.
    pub fn accumulate(&mut self, frame: &Vec<Pixel>, mode: u32)
        requires
            old(self).wf(),
            forall|ch: int, v: int|
                0 <= ch < 4 && 0 <= v < 256 ==> #[trigger] old(self).bin(ch, v) + frame@.len()
                    <= u32::MAX,
        ensures
            final(self).wf(),
            forall|ch: int, v: int|
                0 <= ch < 4 && 0 <= v < 256 ==> #[trigger] final(self).bin(ch, v) == old(self).bin(
                    ch,
                    v,
                ) + hist_count(frame@, mode, ch, v),
    {
        let n = frame.len();
        let mut i: usize = 0;
        while i < n
            invariant
                self.wf(),
                i <= n,
                n == frame@.len(),
                forall|ch: int, v: int|
                    0 <= ch < 4 && 0 <= v < 256 ==> #[trigger] old(self).bin(ch, v) + frame@.len()
                        <= u32::MAX,
                forall|ch: int, v: int|
                    0 <= ch < 4 && 0 <= v < 256 ==> #[trigger] self.bin(ch, v) == old(self).bin(
                        ch,
                        v,
                    ) + hist_count(frame@.take(i as int), mode, ch, v),
            decreases n - i,
        {
            let p = frame[i];
            proof {
                let pre = frame@.take(i as int);
                let post = frame@.take(i + 1);
                assert(post.drop_last() =~= pre);
                assert(post.last() == frame@[i as int]);
                assert forall|ch: int, v: int| 0 <= ch < 4 && 0 <= v < 256 implies #[trigger] hist_count(
                    pre,
                    mode,
                    ch,
                    v,
                ) <= i by {
                    lemma_hist_count_le_len(pre, mode, ch, v);
                }
            }
            if mode == HISTOGRAM_MODE_RGB {
                self.bump(mode, 0, p.r);
                self.bump(mode, 1, p.g);
                self.bump(mode, 2, p.b);
            } else if mode == HISTOGRAM_MODE_RGBL {
                self.bump(mode, 0, p.r);
                self.bump(mode, 1, p.g);
                self.bump(mode, 2, p.b);
                self.bump(mode, 3, luma8(p));
            } else if mode == HISTOGRAM_MODE_HUE {
                self.bump(mode, 3, hue8(p));
            } else {
                self.bump(mode, 3, luma8(p));
            }
            i = i + 1;
        }
        proof {
            assert(frame@.take(n as int) =~= frame@);
        }
    }

    /// The stored count of one bin.
    pub fn bin_at(&self, ch: usize, v: usize) -> (r: u32)
        requires
            self.wf(),
            ch < 4,
            v < 256,
        ensures
            r == self.bin(ch as int, v as int),
    {
        self.bins[ch * 256 + v]
    }

    /// Total pixels accumulated across one channel's bins.
    pub fn channel_total(&self, ch: usize) -> (total: u64)
        requires
            self.wf(),
            ch < 4,
        ensures
            total == hist_total_spec(*self, ch as int, 256),
    {
        let mut total: u64 = 0;
        let mut v: usize = 0;
        while v < 256
            invariant
                self.wf(),
                ch < 4,
                v <= 256,
                total == hist_total_spec(*self, ch as int, v as int),
                total <= v * 0xFFFF_FFFF,
            decreases 256 - v,
        {
            proof {
                assert((v + 1) * 0xFFFF_FFFF == v * 0xFFFF_FFFF + 0xFFFF_FFFF) by (nonlinear_arith);
            }
            total = total + (self.bins[ch * 256 + v] as u64);
            v = v + 1;
        }
        total
    }
}

/// Sum of the first `vmax` bins of a channel, over the stored counts.
pub open spec fn hist_total_spec(h: Histogram, ch: int, vmax: int) -> int
    decreases vmax,
{
    if vmax <= 0 {
        0
    } else {
        hist_total_spec(h, ch, vmax - 1) + h.bin(ch, vmax - 1)
    }
}

/// The stored totals match the counting spec once the bins hold exactly the
/// counts of a sequence.
pub proof fn lemma_hist_total_matches(h: Histogram, s: Seq<Pixel>, mode: u32, ch: int, vmax: int)
    requires
        h.wf(),
        0 <= ch < 4,
        0 <= vmax <= 256,
        forall|c: int, v: int|
            0 <= c < 4 && 0 <= v < 256 ==> #[trigger] h.bin(c, v) == hist_count(s, mode, c, v),
    ensures
        hist_total_spec(h, ch, vmax) == hist_count_sum(s, mode, ch, vmax),
    decreases vmax,
{
    if vmax > 0 {
        lemma_hist_total_matches(h, s, mode, ch, vmax - 1);
    }
}

/// Bin counts across a channel of bins that hold exactly a sequence's
/// counts sum to at most the sequence's length: the histogram never counts
/// a pixel twice.
pub proof fn lemma_channel_sum_bounded(h: Histogram, s: Seq<Pixel>, mode: u32, ch: int)
    requires
        h.wf(),
        0 <= ch < 4,
        forall|c: int, v: int|
            0 <= c < 4 && 0 <= v < 256 ==> #[trigger] h.bin(c, v) == hist_count(s, mode, c, v),
    ensures
        hist_total_spec(h, ch, 256) <= s.len(),
{
    lemma_hist_total_matches(h, s, mode, ch, 256);
    lemma_hist_sum_bounded(s, mode, ch);
}

/// Number of active channels the draw renders, one instance each.
pub fn histogram_channels(mode: u32) -> (r: u32)
    ensures
        r == 3 || r == 4 || r == 1,
        r == 3 <==> mode == HISTOGRAM_MODE_RGB,
        r == 4 <==> mode == HISTOGRAM_MODE_RGBL,
{
    if mode == HISTOGRAM_MODE_RGB {
        3
    } else if mode == HISTOGRAM_MODE_RGBL {
        4
    } else {
        1
    }
}

impl Histogram {
    /// One frame of the pass: nothing when disabled; otherwise clear all
    /// four channels, accumulate the captured pixels, and hand back the
    /// draw parameters — instancing per active channel and the vertical
    /// scale `histogram_scale * k / (width * height)` with `k` of one fifth
    /// for hue mode and ten otherwise, as an exact rational.
    pub fn process(&mut self, frame: &Vec<Pixel>, config: &Config) -> (r: Option<
        HistogramDrawParams,
    >)
        requires
            old(self).wf(),
            config.wf(),
            frame@.len() <= u32::MAX,
            config.window_rect.width * config.window_rect.height <= u32::MAX,
        ensures
            final(self).wf(),
            !config.enable_histogram ==> r is None && *final(self) == *old(self),
            config.enable_histogram ==> r is Some && {
                let p = r->Some_0;
                let w = config.window_rect.width;
                let h = config.window_rect.height;
                &&& forall|ch: int, v: int|
                    0 <= ch < 4 && 0 <= v < 256 ==> #[trigger] final(self).bin(ch, v) == hist_count(
                        frame@,
                        config.histogram_mode,
                        ch,
                        v,
                    )
                &&& p.mode == config.histogram_mode
                &&& (p.instances == 3 <==> config.histogram_mode == HISTOGRAM_MODE_RGB)
                &&& (p.instances == 4 <==> config.histogram_mode == HISTOGRAM_MODE_RGBL)
                &&& (p.instances == 1 || p.instances == 3 || p.instances == 4)
                &&& p.vertices == 512
                &&& p.scale_num == config.histogram_scale
                &&& p.scale_den == if config.histogram_mode == HISTOGRAM_MODE_HUE {
                    500 * (w * h)
                } else {
                    10 * (w * h)
                }
                &&& p.dispatch_x == (w + 15) / 16
                &&& p.dispatch_y == (h + 15) / 16
            },
    {
        if !config.enable_histogram {
            return None;
        }
        self.clear();
        self.accumulate(frame, config.histogram_mode);
        let w = config.window_rect.width;
        let h = config.window_rect.height;
        let area: u64 = (w as u64) * (h as u64);
        let instances = histogram_channels(config.histogram_mode);
        let scale_den: u64 = if config.histogram_mode == HISTOGRAM_MODE_HUE {
            500 * area
        } else {
            10 * area
        };
        Some(
            HistogramDrawParams {
                mode: config.histogram_mode,
                instances,
                vertices: 512,
                scale_num: config.histogram_scale as u64,
                scale_den,
                dispatch_x: div_round_up(w, 16),
                dispatch_y: div_round_up(h, 16),
            },
        )
    }
}

} // verus!
