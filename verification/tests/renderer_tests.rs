use colormel::error::PipelineError;
use colormel::grid::{rgb_grid, hsl_grid, Grids};
use colormel::math::FX_SCALE;
use colormel::renderer::{
    compute_viewports, elapsed_micros, elapsed_pairs, DescriptorArena, TimestampRing,
};

#[test]
fn full_viewport_spans_the_target() {
    let vp = compute_viewports(1920, 1080);
    assert_eq!(vp[0].x.raw, 0);
    assert_eq!(vp[0].y.raw, 0);
    assert_eq!(vp[0].width.raw, 1920 * FX_SCALE);
    assert_eq!(vp[0].height.raw, 1080 * FX_SCALE);
}

#[test]
fn adjusted_viewport_is_a_centered_square() {
    let vp = compute_viewports(1920, 1080);
    // The square spans the longer side and hangs off the shorter one,
    // centered at an exact half-pixel offset.
    assert_eq!(vp[1].width.raw, 1920 * FX_SCALE);
    assert_eq!(vp[1].height.raw, 1920 * FX_SCALE);
    assert_eq!(vp[1].x.raw, 0);
    assert_eq!(vp[1].y.raw, (1080 - 1920) * (FX_SCALE / 2));
    // A square target needs no adjustment at all.
    let vp = compute_viewports(512, 512);
    assert_eq!(vp[0], vp[1]);
}

#[test]
fn descriptor_arena_bumps_and_exhausts() {
    let mut arena = DescriptorArena::new(16);
    assert_eq!(arena.claim(4), Ok(0));
    assert_eq!(arena.claim(1), Ok(4));
    assert_eq!(arena.claim(11), Ok(5));
    // The pool is spent: the next claim is the fatal logic error and the
    // cursor does not move.
    assert_eq!(arena.claim(1), Err(PipelineError::DescriptorsExhausted));
    assert_eq!(arena.next, 16);
}

#[test]
fn timestamp_ring_drops_past_capacity() {
    let mut ring = TimestampRing::new(2);
    assert_eq!(ring.timestamp(7), Some(0));
    assert_eq!(ring.timestamp(8), Some(1));
    // The ring is full: further samples are silently dropped.
    assert_eq!(ring.timestamp(9), None);
    assert_eq!(ring.count(), 2);
    assert_eq!(ring.labels, vec![7, 8]);
}

#[test]
fn elapsed_micros_scales_by_frequency() {
    assert_eq!(elapsed_micros(1000, 4000, 1_000_000), 3000);
    assert_eq!(elapsed_micros(0, 5, 1000), 5000);
    // A non-monotonic pair reads as zero elapsed rather than wrapping.
    assert_eq!(elapsed_micros(4000, 1000, 1_000_000), 0);
}

#[test]
fn elapsed_pairs_match_first_and_second_occurrence() {
    // Two regions, interleaved: each label's first occurrence starts it
    // and its second stops it.
    let labels = vec![1u64, 2, 2, 1];
    let times = vec![100u64, 200, 260, 500];
    let pairs = elapsed_pairs(&labels, &times, 1_000_000);
    assert_eq!(pairs, vec![(2, 60), (1, 400)]);
}

#[test]
fn elapsed_pairs_ignore_later_occurrences() {
    let labels = vec![5u64, 5, 5, 5];
    let times = vec![10u64, 30, 90, 100];
    let pairs = elapsed_pairs(&labels, &times, 1_000_000);
    assert_eq!(pairs, vec![(5, 20)]);
}

#[test]
fn elapsed_pairs_skip_unmatched_labels() {
    let labels = vec![1u64, 2, 1];
    let times = vec![0u64, 10, 25];
    let pairs = elapsed_pairs(&labels, &times, 1_000_000);
    assert_eq!(pairs, vec![(1, 25)]);
}

#[test]
fn rgb_grid_lists_the_twelve_cube_edges() {
    let g = rgb_grid();
    assert_eq!(g.len(), 24);
    // The first edge runs from the black corner to the red corner.
    assert_eq!(g[0].position[0].raw, -40960);
    assert_eq!(g[0].position[1].raw, -40960);
    assert_eq!(g[0].position[2].raw, -40960);
    assert_eq!(g[0].color[0].raw, 0);
    assert_eq!(g[1].position[0].raw, 40960);
    assert_eq!(g[1].color[0].raw, FX_SCALE);
    // The last edge ends at the white corner.
    assert_eq!(g[23].position[0].raw, 40960);
    assert_eq!(g[23].color, [colormel::math::Fx { raw: FX_SCALE }; 3]);
}

#[test]
fn hsl_grid_shape_and_equator() {
    let g = hsl_grid(6, 48);
    assert_eq!(g.len(), 2 + 2 * 6 * 48 + 4 * 48);
    // The two apex vertices sit on the axis at the two heights.
    assert_eq!(g[0].radius.raw, 0);
    assert_eq!(g[0].height.raw, -FX_SCALE);
    assert_eq!(g[1].radius.raw, 0);
    assert_eq!(g[1].height.raw, FX_SCALE);
    // Every equator vertex sits exactly on the rim at zero height,
    // whatever its hue.
    for k in (2 + 2 * 6 * 48)..g.len() {
        assert_eq!(g[k].radius.raw, FX_SCALE);
        assert_eq!(g[k].height.raw, 0);
    }
    // The equator's hue fractions advance by steps of 1/96.
    let base = 2 + 2 * 6 * 48;
    assert_eq!(g[base].hue_num, 0);
    assert_eq!(g[base + 1].hue_num, 1);
    assert_eq!(g[base + 1].hue_den, 96);
    assert_eq!(g[g.len() - 1].hue_num, 96);
}

#[test]
fn grids_pass_holds_both_grids() {
    let grids = Grids::new();
    assert_eq!(grids.rgb.len(), 24);
    assert_eq!(grids.hsl.len(), 770);
}
