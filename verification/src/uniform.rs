//! The layout of a uniform block: what the shader reads for one mesh.
//!
//! A block holds the projection matrix, the model-view matrix and the
//! colour of the mesh, one after the other, and is padded to the alignment
//! that the device asks of uniform buffers. There is one block for the land
//! and one for the coastline.

use vstd::prelude::*;
use crate::align::{align_up, aligned_up};

verus! {

/// Bytes of a matrix of four by four single-precision numbers.
pub const MATRIX_BYTES: u64 = 64;

/// Bytes of a colour of four single-precision numbers.
pub const COLOR_BYTES: u64 = 16;

/// Where the projection matrix starts in a block.
pub const PROJECTION_OFFSET: u64 = 0;

/// Where the model-view matrix starts in a block.
pub const MODEL_VIEW_OFFSET: u64 = 64;

/// Where the colour starts in a block.
pub const COLOR_OFFSET: u64 = 128;

/// Bytes of a block without its padding.
pub const CONTENT_BYTES: u64 = 144;

/// The alignment that devices usually ask of uniform buffers.
pub const USUAL_ALIGNMENT: u32 = 256;

/// The blocks follow the fields without gaps, and with the usual alignment
/// a block takes 256 bytes.
pub proof fn lemma_block_layout()
    ensures
        MODEL_VIEW_OFFSET == PROJECTION_OFFSET + MATRIX_BYTES,
        COLOR_OFFSET == MODEL_VIEW_OFFSET + MATRIX_BYTES,
        CONTENT_BYTES == COLOR_OFFSET + COLOR_BYTES,
        aligned_up(CONTENT_BYTES as nat, USUAL_ALIGNMENT as nat) == 256,
{
}

/// Bytes of a block for a device that asks for the given alignment of
/// uniform buffers.
pub fn block_len(alignment: u32) -> (len: u64)
    ensures
        len == aligned_up(CONTENT_BYTES as nat, alignment as nat),
{
    align_up(CONTENT_BYTES, alignment)
}

} // verus!
