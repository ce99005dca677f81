//! From the row-padded read-back buffer to the tightly packed image.

use vstd::prelude::*;
use vstd::arithmetic::div_mod::lemma_fundamental_div_mod_converse;
use vstd::slice::slice_subrange;
use crate::input::PhysicalSize;

verus! {

/// Why a frame could not be delivered. None of these is fatal: the next
/// frame is attempted from scratch.
#[derive(Clone, Copy, Debug, PartialEq, Eq, Structural)]
pub enum RenderError {
    /// The graphics device failed while drawing, copying or mapping.
    Device,
    /// The mapped data does not have the shape of the read-back buffer.
    ReadbackSize,
    /// A frame was completed although none was under way.
    NotRendering,
}

/// An RGBA8 image: row-major, top to bottom, four bytes per pixel and no
/// padding between rows.
#[derive(Debug)]
pub struct PixelBuffer {
    size: PhysicalSize,
    data: Vec<u8>,
}

/// A pixel buffer as plain values.
pub struct Pixels {
    pub size: PhysicalSize,
    pub data: Seq<u8>,
}

impl View for PixelBuffer {
    type V = Pixels;

    closed spec fn view(&self) -> Pixels {
        Pixels { size: self.size, data: self.data@ }
    }
}

impl PixelBuffer {
    #[verifier::type_invariant]
    spec fn well_formed(&self) -> bool {
        self.data@.len() == 4 * self.size.width * self.size.height
    }

    pub fn size(&self) -> (size: PhysicalSize)
        ensures
            size == self@.size,
    {
        self.size
    }

    /// The bytes of the image, exactly four for each pixel.
    pub fn as_bytes(&self) -> (bytes: &Vec<u8>)
        ensures
            bytes@ == self@.data,
            bytes@.len() == 4 * self@.size.width * self@.size.height,
    {
        proof {
            use_type_invariant(self);
        }
        &self.data
    }

    pub fn into_bytes(self) -> (bytes: Vec<u8>)
        ensures
            bytes@ == self@.data,
            bytes@.len() == 4 * self@.size.width * self@.size.height,
    {
        proof {
            use_type_invariant(&self);
        }
        self.data
    }
}

/// Whether `len` bytes are a read-back buffer of `height` rows that lie
/// `stride` bytes apart and hold `width` pixels each.
pub open spec fn readback_fits(len: nat, width: nat, height: nat, stride: nat) -> bool {
    4 * width <= stride && len == stride * height
}

/// The read-back data without its row padding: byte `k` of the image is
/// byte `k % (4 * width)` of row `k / (4 * width)`.
pub open spec fn repacked(readback: Seq<u8>, width: nat, height: nat, stride: nat) -> Seq<u8> {
    Seq::new(
        4 * width * height,
        |k: int| readback[k / (4 * width as int) * stride + k % (4 * width as int)],
    )
}

/// Row `y` of the repacked image is the start of row `y` of the read-back
/// data, byte for byte; what follows it there, up to the stride, is left out.
pub proof fn lemma_repacked_rows(readback: Seq<u8>, width: nat, height: nat, stride: nat, y: int)
    requires
        readback_fits(readback.len(), width, height, stride),
        0 <= y < height,
    ensures
        repacked(readback, width, height, stride).len() == 4 * width * height,
        0 <= y * stride,
        y * stride + 4 * width <= readback.len(),
        0 <= y * (4 * width),
        (y + 1) * (4 * width) <= 4 * width * height,
        repacked(readback, width, height, stride).subrange(
            y * (4 * width),
            (y + 1) * (4 * width),
        ) == readback.subrange(y * stride, y * stride + 4 * width),
{
    let tight: int = 4 * width as int;
    assert(y * stride >= 0) by (nonlinear_arith)
        requires
            y >= 0,
            stride >= 0,
    ;
    let image = repacked(readback, width, height, stride);
    assert((y + 1) * stride <= height * stride) by (nonlinear_arith)
        requires
            y + 1 <= height,
    ;
    assert((y + 1) * stride == y * stride + stride) by (nonlinear_arith);
    assert((y + 1) * tight <= height * tight) by (nonlinear_arith)
        requires
            y + 1 <= height,
            tight >= 0,
    ;
    assert((y + 1) * tight == y * tight + tight) by (nonlinear_arith);
    assert(height * tight == 4 * width * height) by (nonlinear_arith)
        requires
            tight == 4 * width,
    ;
    assert(y * tight >= 0) by (nonlinear_arith)
        requires
            y >= 0,
            tight >= 0,
    ;
    let row = image.subrange(y * tight, (y + 1) * tight);
    let source = readback.subrange(y * stride, y * stride + tight);
    assert forall|j: int| 0 <= j < tight implies row[j] == source[j] by {
        lemma_fundamental_div_mod_converse(y * tight + j, tight, y, j);
    }
    assert(row =~= source);
}

/// Strips the row padding from read-back data.
///
/// Succeeds exactly where the data has the shape of a read-back buffer for
/// the given size and stride.
pub fn repack(readback: &[u8], size: PhysicalSize, row_stride: u64) -> (r: Result<
    PixelBuffer,
    RenderError,
>)
    ensures
        match r {
            Ok(pixels) => {
                &&& readback_fits(
                    readback@.len(),
                    size.width as nat,
                    size.height as nat,
                    row_stride as nat,
                )
                &&& pixels@.size == size
                &&& pixels@.data == repacked(
                    readback@,
                    size.width as nat,
                    size.height as nat,
                    row_stride as nat,
                )
            },
            Err(e) => {
                &&& e == RenderError::ReadbackSize
                &&& !readback_fits(
                    readback@.len(),
                    size.width as nat,
                    size.height as nat,
                    row_stride as nat,
                )
            },
        },
{
    let tight_wide: u64 = 4 * (size.width as u64);
    if row_stride < tight_wide {
        return Err(RenderError::ReadbackSize);
    }
    assert(row_stride * size.height <= 0x1_0000_0000_0000_0000 * 0x1_0000_0000)
        by (nonlinear_arith)
        requires
            row_stride <= 0x1_0000_0000_0000_0000,
            size.height <= 0x1_0000_0000,
    ;
    if readback.len() as u128 != (row_stride as u128) * (size.height as u128) {
        return Err(RenderError::ReadbackSize);
    }
    let ghost width = size.width as nat;
    let ghost height = size.height as nat;
    let ghost image = repacked(readback@, width, height, row_stride as nat);
    let mut data: Vec<u8> = Vec::new();
    if size.height == 0 || size.width == 0 {
        assert(4 * width * height == 0) by (nonlinear_arith)
            requires
                width == 0 || height == 0,
        ;
        assert(data@ =~= image);
        return Ok(PixelBuffer { size, data });
    }
    assert(row_stride <= row_stride * height) by (nonlinear_arith)
        requires
            height >= 1,
    ;
    let stride: usize = row_stride as usize;
    let tight: usize = tight_wide as usize;
    let mut y: u32 = 0;
    while y < size.height
        invariant
            y <= size.height,
            width == size.width,
            height == size.height,
            tight == 4 * width,
            stride == row_stride,
            readback@.len() <= usize::MAX,
            readback_fits(readback@.len(), width, height, stride as nat),
            image == repacked(readback@, width, height, stride as nat),
            data@ == image.take(y * tight),
        decreases size.height - y,
    {
        proof {
            lemma_repacked_rows(readback@, width, height, stride as nat, y as int);
            assert((y + 1) * tight == y * tight + tight) by (nonlinear_arith);
        }
        let start: usize = (y as usize) * stride;
        let row = slice_subrange(readback, start, start + tight);
        data.extend_from_slice(row);
        proof {
            let next = image.take((y + 1) * tight);
            assert(next =~= image.take(y * tight) + image.subrange(y * tight, (y + 1) * tight));
            assert(data@ =~= next);
        }
        y += 1;
    }
    proof {
        assert(height * tight == 4 * width * height) by (nonlinear_arith)
            requires
                tight == 4 * width,
        ;
        assert(image.take(height * tight) =~= image);
    }
    Ok(PixelBuffer { size, data })
}

} // verus!
