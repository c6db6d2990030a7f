//! Pipeline orchestrator: one iteration takes a configuration snapshot,
//! tries a capture, and either idles briefly, renders the four passes in
//! their fixed order, or stops.  The loop runs on a dedicated thread and is
//! stopped cooperatively through a flag it checks once per iteration.

use vstd::prelude::*;

use crate::capture::{CaptureStep, NO_FRAME_BACKOFF_MS};
use crate::color::Pixel;
use crate::colorcloud::{CloudDrawParams, ColorCloud};
use crate::config::Config;
use crate::filter::{Filter, FilterDrawParams};
use crate::grid::{GridDrawParams, Grids};
use crate::histogram::{Histogram, HistogramDrawParams};

verus! {

/// The four passes in their fixed per-frame order.
#[derive(Clone, Copy, Debug, PartialEq, Eq, Structural)]
pub enum PassKind {
    Filter,
    ColorCloud,
    Grid,
    Histogram,
}

/// Whether a pass does work under a snapshot: the grid draws only beside
/// the color cloud and with its toggle on.
pub open spec fn pass_enabled(config: Config, kind: PassKind) -> bool {
    match kind {
        PassKind::Filter => config.enable_filter,
        PassKind::ColorCloud => config.enable_color_cloud,
        PassKind::Grid => config.enable_color_cloud && config.show_grid,
        PassKind::Histogram => config.enable_histogram,
    }
}

/// The passes that run in one frame, in order: the filter lays down the
/// base view, then the cloud, its reference grid, and the histogram stack
/// on top.  The order is fixed so the visual stacking is deterministic.
pub open spec fn spec_pass_sequence(config: Config) -> Seq<PassKind> {
    let s = Seq::<PassKind>::empty();
    let s = if config.enable_filter {
        s.push(PassKind::Filter)
    } else {
        s
    };
    let s = if config.enable_color_cloud {
        s.push(PassKind::ColorCloud)
    } else {
        s
    };
    let s = if config.enable_color_cloud && config.show_grid {
        s.push(PassKind::Grid)
    } else {
        s
    };
    if config.enable_histogram {
        s.push(PassKind::Histogram)
    } else {
        s
    }
}

/// The passes that will do work this frame, in their fixed order.
pub fn pass_sequence(config: &Config) -> (r: Vec<PassKind>)
    ensures
        r@ == spec_pass_sequence(*config),
{
    let mut r: Vec<PassKind> = Vec::new();
    if config.enable_filter {
        r.push(PassKind::Filter);
    }
    if config.enable_color_cloud {
        r.push(PassKind::ColorCloud);
    }
    if config.enable_color_cloud && config.show_grid {
        r.push(PassKind::Grid);
    }
    if config.enable_histogram {
        r.push(PassKind::Histogram);
    }
    r
}

/// What one loop iteration does next.
#[derive(Clone, Copy, Debug, PartialEq, Eq, Structural)]
pub enum LoopAction {
    /// The stop flag was observed, or the shared configuration can no
    /// longer be read: finish and let the join complete.
    Exit,
    /// No new frame: idle this many milliseconds, then retry.
    Backoff { ms: u64 },
    /// A frame is held: run the passes and present.
    Render,
    /// A fatal capture failure: report it and stop.
    Abort { code: u32 },
}

/// The iteration decision: the stop flag wins over everything, a lost
/// configuration lock also ends the loop, and otherwise the capture
/// outcome decides between idling, rendering, and aborting.
pub open spec fn spec_pipeline_step(
    keep_running: bool,
    config_readable: bool,
    capture: CaptureStep,
) -> LoopAction {
    if !keep_running || !config_readable {
        LoopAction::Exit
    } else {
        match capture {
            CaptureStep::NoFrame => LoopAction::Backoff { ms: NO_FRAME_BACKOFF_MS },
            CaptureStep::Frame => LoopAction::Render,
            CaptureStep::Fatal { code } => LoopAction::Abort { code },
        }
    }
}

pub fn pipeline_step(keep_running: bool, config_readable: bool, capture: CaptureStep) -> (r:
    LoopAction)
    ensures
        r == spec_pipeline_step(keep_running, config_readable, capture),
{
    if !keep_running || !config_readable {
        LoopAction::Exit
    } else {
        match capture {
            CaptureStep::NoFrame => LoopAction::Backoff { ms: NO_FRAME_BACKOFF_MS },
            CaptureStep::Frame => LoopAction::Render,
            CaptureStep::Fatal { code } => LoopAction::Abort { code },
        }
    }
}

/// Once the stop flag is down, the very next iteration exits, whatever the
/// capture brought back: a pending bounded capture wait is the only delay
/// between a terminate request and the join completing.
pub proof fn lemma_stop_flag_exits(config_readable: bool, capture: CaptureStep)
    ensures
        spec_pipeline_step(false, config_readable, capture) == LoopAction::Exit,
{
}

/// Everything one rendered frame hands the platform layer: the clear
/// color's alpha and each pass's outcome, in the fixed pass order.
pub struct FrameOutput {
    /// Alpha of the clear color, in percent: the complement of the
    /// configured background opacity.
    pub clear_alpha: u32,
    pub filter: Option<(FilterDrawParams, Vec<Pixel>)>,
    pub cloud: Option<CloudDrawParams>,
    pub grid: Option<GridDrawParams>,
    pub histogram: Option<HistogramDrawParams>,
}

/// The pipeline: the four passes and their aggregation state, created once
/// and reused every frame.
pub struct Pipeline {
    pub filter: Filter,
    pub colorcloud: ColorCloud,
    pub histogram: Histogram,
    pub grids: Grids,
}

impl Pipeline {
    pub open spec fn wf(self) -> bool {
        &&& self.colorcloud.wf()
        &&& self.histogram.wf()
        &&& self.grids.wf()
    }

    /// Create the passes and their aggregation buffers, all zeroed.
    pub fn new() -> (r: Pipeline)
        ensures
            r.wf(),
            forall|i: int| 0 <= i < 0x100_0000 ==> #[trigger] r.colorcloud.cell(i) == 0,
            forall|ch: int, v: int|
                0 <= ch < 4 && 0 <= v < 256 ==> #[trigger] r.histogram.bin(ch, v) == 0,
    {
        Pipeline {
            filter: Filter::new(),
            colorcloud: ColorCloud::new(),
            histogram: Histogram::new(),
            grids: Grids::new(),
        }
    }

    /// One rendered frame: every pass runs in the fixed order against the
    /// same snapshot and the same captured pixels; each disabled pass
    /// leaves nothing in the output and touches none of its state.
    pub fn process(&mut self, frame: &Vec<Pixel>, config: &Config) -> (r: FrameOutput)
        requires
            old(self).wf(),
            config.wf(),
            frame@.len() <= u32::MAX,
            config.window_rect.width * config.window_rect.height <= u32::MAX,
        ensures
            final(self).wf(),
            final(self).grids == old(self).grids,
            r.clear_alpha == 100 - config.bg_opacity,
            crate::filter::filter_post(*config, frame@, r.filter),
            !config.enable_color_cloud ==> r.cloud is None && final(self).colorcloud == old(
                self,
            ).colorcloud,
            config.enable_color_cloud ==> r.cloud is Some && forall|i: int|
                0 <= i < 0x100_0000 ==> #[trigger] final(self).colorcloud.cell(i)
                    == crate::colorcloud::occ_count(frame@, i),
            !config.enable_histogram ==> r.histogram is None && final(self).histogram == old(
                self,
            ).histogram,
            config.enable_histogram ==> r.histogram is Some && forall|ch: int, v: int|
                0 <= ch < 4 && 0 <= v < 256 ==> #[trigger] final(self).histogram.bin(ch, v)
                    == crate::histogram::hist_count(frame@, config.histogram_mode, ch, v),
            r.grid is Some <==> config.enable_color_cloud && config.show_grid,
    {
        let clear_alpha: u32 = 100 - config.bg_opacity;
        let filter_out = self.filter.process(frame, config);
        let cloud_out = self.colorcloud.process(frame, config);
        let grid_out = self.grids.process(config);
        let histogram_out = self.histogram.process(frame, config);
        FrameOutput {
            clear_alpha,
            filter: filter_out,
            cloud: cloud_out,
            grid: grid_out,
            histogram: histogram_out,
        }
    }
}

/// The pipeline thread's owner: the cooperative stop flag.  Termination
/// lowers the flag and joins; the loop observes it at the head of the next
/// iteration, so the join waits at most one capture timeout plus one frame.
#[derive(Clone, Copy, Debug, PartialEq, Eq, Structural)]
pub struct Visualizer {
    pub keep_running: bool,
}

impl Visualizer {
    pub fn new() -> (r: Visualizer)
        ensures
            r.keep_running,
    {
        Visualizer { keep_running: true }
    }

    /// Request the pipeline thread to stop.  Idempotent: the flag only
    /// ever goes down.
    pub fn terminate(&mut self)
        ensures
            !final(self).keep_running,
    {
        self.keep_running = false;
    }
}

} // verus!
