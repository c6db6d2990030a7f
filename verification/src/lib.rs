//! Core of a desktop color-analysis overlay: the capture-to-render pipeline
//! and its per-frame state, specified and verified.
//!
//! The library models everything the pipeline decides or computes — frame
//! configuration snapshots, fixed-point projection math, the aggregation
//! kernels (histogram binning and color-cloud occupancy), reference grid
//! geometry, capture-retry classification, and the per-frame renderer
//! resource lifecycle.  The thin platform layer that owns the GPU device and
//! the window lives outside and consults these functions.

pub mod capture;
pub mod color;
pub mod colorcloud;
pub mod config;
pub mod error;
pub mod filter;
pub mod grid;
pub mod histogram;
pub mod math;
pub mod matrix;
pub mod pipeline;
pub mod renderer;
pub mod resource;
pub mod swapchain;
