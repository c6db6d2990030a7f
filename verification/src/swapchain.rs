//! Swap-chain-backed render target: the color and depth buffers live at one
//! size; a resize to the same size must change nothing, and a resize to a
//! new size reallocates both, which a generation counter witnesses.

use vstd::prelude::*;

verus! {

/// The swap chain's target state: its current size and a generation that
/// advances exactly when the buffers are reallocated.
#[derive(Clone, Copy, Debug, PartialEq, Eq, Structural)]
pub struct SwapChain {
    pub width: u32,
    pub height: u32,
    pub generation: u64,
}

/// What a frame renders into: the buffers of one generation at one size.
#[derive(Clone, Copy, Debug, PartialEq, Eq, Structural)]
pub struct RenderTarget {
    pub width: u32,
    pub height: u32,
    pub generation: u64,
}

impl SwapChain {
    pub fn new(width: u32, height: u32) -> (r: SwapChain)
        ensures
            r.width == width,
            r.height == height,
            r.generation == 0,
    {
        SwapChain { width, height, generation: 0 }
    }

    /// Match the target size to the window: with unchanged dimensions this
    /// is a no-op and the buffers keep their identity; with new dimensions
    /// the color and depth buffers are reallocated at the new size.
    pub fn resize(&mut self, width: u32, height: u32)
        requires
            old(self).generation < u64::MAX,
        ensures
            width == old(self).width && height == old(self).height ==> *final(self) == *old(self),
            width != old(self).width || height != old(self).height ==> final(self).width == width
                && final(self).height == height && final(self).generation == old(self).generation
                + 1,
    {
        if width == self.width && height == self.height {
            return ;
        }
        self.width = width;
        self.height = height;
        self.generation = self.generation + 1;
    }

    /// The buffers a frame renders into right now.
    pub fn render_target(&self) -> (r: RenderTarget)
        ensures
            r.width == self.width,
            r.height == self.height,
            r.generation == self.generation,
    {
        RenderTarget { width: self.width, height: self.height, generation: self.generation }
    }
}

} // verus!
