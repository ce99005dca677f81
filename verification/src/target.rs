//! The shape of a render target and of the buffer its pixels are read
//! back through.

use vstd::prelude::*;
use crate::align::{align_up, aligned_up};
use crate::input::PhysicalSize;

verus! {

/// Bytes of one RGBA8 pixel.
pub const BYTES_PER_PIXEL: u64 = 4;

/// Rows of a texture that is copied into a buffer start at multiples of
/// this many bytes.
pub const ROW_ALIGNMENT: u32 = 256;

/// Bytes of one row of pixels without padding.
pub open spec fn tight_row_bytes(width: nat) -> nat {
    4 * width
}

/// The least multiple of the row alignment that holds one row of pixels.
pub open spec fn row_stride(width: nat) -> nat {
    aligned_up(tight_row_bytes(width), 256)
}

/// `row_stride` is aligned, holds a row, and no smaller aligned length
/// does.
pub proof fn lemma_row_stride_is_least(width: nat, other: nat)
    ensures
        row_stride(width) % 256 == 0,
        tight_row_bytes(width) <= row_stride(width) < tight_row_bytes(width) + 256,
        other % 256 == 0 && tight_row_bytes(width) <= other ==> row_stride(width) <= other,
{
}

/// The distance in bytes between the starts of two rows of a read-back
/// buffer for pictures of the given width.
pub fn aligned_row_stride(width: u32) -> (stride: u64)
    ensures
        stride == row_stride(width as nat),
{
    align_up(BYTES_PER_PIXEL * (width as u64), ROW_ALIGNMENT)
}

/// A viewport without pixels was requested. Nothing was created or changed.
#[derive(Clone, Copy, Debug, PartialEq, Eq, Structural)]
pub struct ResourceError {
    pub requested: PhysicalSize,
}

/// The colour and depth textures of one viewport size, together with the
/// buffer that the colour texture is read back through.
#[derive(Clone, Copy, Debug, PartialEq, Eq, Structural)]
pub struct RenderTarget {
    /// Size of both textures.
    pub size: PhysicalSize,
    /// Distance in bytes between the starts of two rows in the read-back buffer.
    pub row_stride: u64,
    /// Length in bytes of the read-back buffer.
    pub readback_len: u128,
}

impl RenderTarget {
    /// The one target that belongs to a size.
    pub open spec fn of(size: PhysicalSize) -> RenderTarget {
        RenderTarget {
            size,
            row_stride: row_stride(size.width as nat) as u64,
            readback_len: (row_stride(size.width as nat) * size.height) as u128,
        }
    }

    /// The target has pixels, and its read-back buffer matches its textures.
    pub open spec fn valid(self) -> bool {
        &&& !self.size.is_empty()
        &&& self.row_stride == row_stride(self.size.width as nat)
        &&& self.readback_len == self.row_stride * self.size.height
    }

    /// Lays out the target for a size. Fails exactly on a size without
    /// pixels.
    pub fn for_size(size: PhysicalSize) -> (r: Result<RenderTarget, ResourceError>)
        ensures
            match r {
                Ok(target) => !size.is_empty() && target == RenderTarget::of(size) && target.valid(),
                Err(e) => size.is_empty() && e.requested == size,
            },
    {
        if size.empty() {
            return Err(ResourceError { requested: size });
        }
        let stride: u64 = aligned_row_stride(size.width);
        let rows: u128 = size.height as u128;
        assert(stride * rows <= 0x4_0000_0000 * 0x1_0000_0000) by (nonlinear_arith)
            requires
                stride <= 0x4_0000_0000,
                rows <= 0x1_0000_0000,
        ;
        Ok(RenderTarget { size, row_stride: stride, readback_len: (stride as u128) * rows })
    }
}

/// The target that belongs to a size with pixels is valid: its stride and
/// the length of its read-back buffer fit their fields.
pub proof fn lemma_target_of_is_valid(size: PhysicalSize)
    requires
        !size.is_empty(),
    ensures
        RenderTarget::of(size).valid(),
        RenderTarget::of(size).row_stride == row_stride(size.width as nat),
        RenderTarget::of(size).readback_len == row_stride(size.width as nat) * size.height,
{
    let stride: nat = row_stride(size.width as nat);
    assert(stride * size.height <= 0x4_0000_0000 * 0x1_0000_0000) by (nonlinear_arith)
        requires
            stride <= 0x4_0000_0000,
            size.height <= 0x1_0000_0000,
    ;
}

} // verus!
