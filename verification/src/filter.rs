//! Filter pass: a single full-screen draw that shows the captured frame
//! through a channel mask or as one of its properties (hue, saturation,
//! luma) spread to gray.

use vstd::prelude::*;

use crate::color::{channel_mask, filter_pixel, spec_filter_pixel, Pixel};
use crate::config::{Config, Rect};
use crate::math::{Fx, FX_SCALE};

verus! {

/// Constants of the filter draw: the mode selector and the per-channel
/// mask handed to the shader, plus the full-screen triangle's draw call.
#[derive(Clone, Copy, Debug, PartialEq, Eq)]
pub struct FilterDrawParams {
    /// The capture rectangle the shader samples.
    pub rect: Rect,
    pub mode: u32,
    pub mask: [Fx; 3],
    /// One full-screen triangle.
    pub vertices: u32,
    pub instances: u32,
}

/// What the filter pass's frame result says: present exactly when the
/// pass is enabled, and then the draw constants plus the frame as shown —
/// every pixel mapped through the selected mode and channel mask.
pub open spec fn filter_post(
    config: Config,
    frame: Seq<Pixel>,
    r: Option<(FilterDrawParams, Vec<Pixel>)>,
) -> bool {
    &&& (r is Some <==> config.enable_filter)
    &&& r is Some ==> {
        let (p, shown) = r->Some_0;
        &&& p.rect == config.window_rect
        &&& p.mode == config.filter_mode
        &&& forall|k: int|
            0 <= k < 3 ==> (#[trigger] p.mask[k]).raw == if config.filter_channels[k] {
                FX_SCALE as int
            } else {
                0
            }
        &&& p.vertices == 3
        &&& p.instances == 1
        &&& shown@.len() == frame.len()
        &&& forall|i: int|
            0 <= i < frame.len() ==> #[trigger] shown@[i] == spec_filter_pixel(
                config.filter_mode,
                config.filter_channels,
                frame[i],
            )
    }
}

/// Over a solid gray frame the luma view is the identity: what the filter
/// pass shows equals the captured input, pixel for pixel.
pub proof fn lemma_luma_view_of_gray_frame(
    config: Config,
    frame: Seq<Pixel>,
    r: Option<(FilterDrawParams, Vec<Pixel>)>,
)
    requires
        config.enable_filter,
        config.filter_mode == crate::config::FILTER_MODE_LUMA,
        filter_post(config, frame, r),
        forall|i: int|
            0 <= i < frame.len() ==> (#[trigger] frame[i]).r == frame[i].g && frame[i].g
                == frame[i].b,
    ensures
        r is Some,
        r->Some_0.1@ == frame,
{
    let shown = r->Some_0.1;
    assert forall|i: int| 0 <= i < frame.len() implies #[trigger] shown@[i] == frame[i] by {
        crate::color::lemma_filter_luma_gray(config.filter_channels, frame[i]);
    }
    assert(shown@ =~= frame);
}

/// The filter pass.  It owns no aggregation state: each frame is a single
/// draw over the captured view.
pub struct Filter {}

impl Filter {
    pub fn new() -> (r: Filter) {
        Filter {  }
    }

    /// One frame of the pass: nothing when disabled; otherwise the draw
    /// parameters and the frame as the draw shows it — every pixel mapped
    /// through the selected mode and channel mask.
    pub fn process(&self, frame: &Vec<Pixel>, config: &Config) -> (r: Option<
        (FilterDrawParams, Vec<Pixel>),
    >)
        requires
            config.wf(),
        ensures
            filter_post(*config, frame@, r),
    {
        if !config.enable_filter {
            return None;
        }
        let mask = channel_mask(&config.filter_channels);
        let n = frame.len();
        let mut shown: Vec<Pixel> = Vec::with_capacity(n);
        let mut i: usize = 0;
        while i < n
            invariant
                i <= n,
                n == frame@.len(),
                shown@.len() == i,
                forall|k: int|
                    0 <= k < i ==> #[trigger] shown@[k] == spec_filter_pixel(
                        config.filter_mode,
                        config.filter_channels,
                        frame@[k],
                    ),
            decreases n - i,
        {
            let p = filter_pixel(config.filter_mode, &config.filter_channels, frame[i]);
            shown.push(p);
            i = i + 1;
        }
        Some(
            (
                FilterDrawParams {
                    rect: config.window_rect,
                    mode: config.filter_mode,
                    mask,
                    vertices: 3,
                    instances: 1,
                },
                shown,
            ),
        )
    }
}

} // verus!
