//! Sizes of the pixel buffers that cross the border to the image codec and
//! to the GPU.

use vstd::prelude::*;

verus! {

/// Bytes of one pixel: blue, green, red, alpha.
pub const BYTES_PER_PIXEL: u32 = 4;

/// Row length and total length of a pixel buffer, in bytes.
#[derive(Clone, Copy, Debug, PartialEq, Eq, Structural)]
pub struct BufferLayout {
    /// Bytes from the start of one row to the start of the next.
    pub stride: u32,
    /// Bytes of the whole buffer.
    pub size: u32,
}

/// The layout of an image of `width` by `height` pixels whose rows follow
/// each other without padding. `None` when a row or the total does not fit
/// in 32 bits.
pub fn packed_layout(width: u32, height: u32) -> (layout: Option<BufferLayout>)
    ensures
        layout is Some <==> 4 * width <= u32::MAX && 4 * width * height <= u32::MAX,
        layout matches Some(l) ==> l.stride == 4 * width && l.size == l.stride * height,
{
    if width > u32::MAX / BYTES_PER_PIXEL {
        return None;
    }
    let stride: u32 = BYTES_PER_PIXEL * width;
    assert(stride * height <= 0xffff_ffff * 0xffff_ffff) by (nonlinear_arith)
        requires
            0 <= stride <= 0xffff_ffff,
            0 <= height <= 0xffff_ffff,
    ;
    let size: u64 = stride as u64 * height as u64;
    if size <= u32::MAX as u64 {
        Some(BufferLayout { stride, size: size as u32 })
    } else {
        None
    }
}

/// Bytes to read back from a mapped surface of `height` rows that lie
/// `row_pitch` bytes apart. `None` when the total does not fit in 32 bits.
pub fn readback_size(row_pitch: u32, height: u32) -> (size: Option<u32>)
    ensures
        size is Some <==> row_pitch * height <= u32::MAX,
        size matches Some(n) ==> n == row_pitch * height,
{
    assert(row_pitch * height <= 0xffff_ffff * 0xffff_ffff) by (nonlinear_arith)
        requires
            0 <= row_pitch <= 0xffff_ffff,
            0 <= height <= 0xffff_ffff,
    ;
    let size: u64 = row_pitch as u64 * height as u64;
    if size <= u32::MAX as u64 {
        Some(size as u32)
    } else {
        None
    }
}

} // verus!
