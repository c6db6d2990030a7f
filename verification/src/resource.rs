//! Sizing of the GPU read/write buffers: each aggregation buffer is typed
//! over a one- or four-byte element format and carries a raw view over the
//! same bytes for the bulk clear.

use vstd::prelude::*;

verus! {

/// Platform codes of the element formats a read/write buffer supports.
pub const FORMAT_R32_FLOAT: u32 = 41;

pub const FORMAT_R32_UINT: u32 = 42;

pub const FORMAT_R32_SINT: u32 = 43;

pub const FORMAT_R8_UNORM: u32 = 61;

pub const FORMAT_R8_UINT: u32 = 62;

pub const FORMAT_R8_SNORM: u32 = 63;

pub const FORMAT_R8_SINT: u32 = 64;

/// Bytes per element of a supported buffer format.
pub open spec fn spec_element_size(format: u32) -> Option<u32> {
    if format == FORMAT_R8_SINT || format == FORMAT_R8_UINT || format == FORMAT_R8_SNORM
        || format == FORMAT_R8_UNORM {
        Some(1u32)
    } else if format == FORMAT_R32_FLOAT || format == FORMAT_R32_UINT || format
        == FORMAT_R32_SINT {
        Some(4u32)
    } else {
        None
    }
}

pub fn element_size(format: u32) -> (r: Option<u32>)
    ensures
        r == spec_element_size(format),
{
    if format == FORMAT_R8_SINT || format == FORMAT_R8_UINT || format == FORMAT_R8_SNORM
        || format == FORMAT_R8_UNORM {
        Some(1)
    } else if format == FORMAT_R32_FLOAT || format == FORMAT_R32_UINT || format
        == FORMAT_R32_SINT {
        Some(4)
    } else {
        None
    }
}

/// What a read/write buffer allocates: its byte size and the element count
/// of the raw four-byte view used for the bulk clear.
#[derive(Clone, Copy, Debug, PartialEq, Eq, Structural)]
pub struct RwBufferLayout {
    pub byte_size: u64,
    pub typed_elems: u32,
    pub raw_elems: u64,
}

/// The layout of a buffer of `num_elems` typed elements, or nothing for a
/// format no buffer supports.
pub fn rw_buffer_layout(num_elems: u32, format: u32) -> (r: Option<RwBufferLayout>)
    ensures
        r is Some <==> spec_element_size(format) is Some,
        r is Some ==> {
            let l = r->Some_0;
            &&& l.byte_size == spec_element_size(format)->Some_0 * num_elems
            &&& l.typed_elems == num_elems
            &&& l.raw_elems == l.byte_size / 4
        },
{
    match element_size(format) {
        Some(elem) => {
            proof {
                assert(elem as int * num_elems as int <= 0x4_0000_0000_0000) by (nonlinear_arith)
                    requires
                        elem <= 4,
                        num_elems <= 0xFFFF_FFFF;
            }
            let byte_size: u64 = (elem as u64) * (num_elems as u64);
            Some(RwBufferLayout { byte_size, typed_elems: num_elems, raw_elems: byte_size / 4 })
        },
        None => None,
    }
}

/// The GPU/CPU completion fence: a monotonically increasing value signaled
/// after each submission; the CPU blocks only while the GPU has not yet
/// reached the awaited value.
#[derive(Clone, Copy, Debug, PartialEq, Eq, Structural)]
pub struct Fence {
    pub fence_value: u64,
}

impl Fence {
    pub fn new() -> (r: Fence)
        ensures
            r.fence_value == 1,
    {
        Fence { fence_value: 1 }
    }

    /// The value to signal for the work just submitted; each frame awaits
    /// a strictly larger value than the one before.
    pub fn next_signal(&mut self) -> (v: u64)
        requires
            old(self).fence_value < u64::MAX,
        ensures
            v == old(self).fence_value,
            final(self).fence_value == old(self).fence_value + 1,
    {
        let v = self.fence_value;
        self.fence_value = self.fence_value + 1;
        v
    }

    /// Whether the CPU must block on the completion event: only while the
    /// GPU's completed value has not reached the awaited one.
    pub fn must_block(completed: u64, awaited: u64) -> (r: bool)
        ensures
            r <==> completed < awaited,
    {
        completed < awaited
    }
}

} // verus!
