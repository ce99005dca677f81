//! The picture of the tray icon, in the byte order that tray hosts take.

use vstd::prelude::*;
use crate::decode::{decode_png, png_rgba8};

verus! {

/// The file is no PNG image that can be decoded.
#[derive(Clone, Copy, Debug, PartialEq, Eq, Structural)]
pub enum IconError {
    Decode,
}

/// An icon as tray hosts take it: one byte each of alpha, red, green and
/// blue for every pixel.
#[derive(Clone, Debug)]
pub struct TrayIcon {
    pub data: Vec<u8>,
    pub width: u32,
    pub height: u32,
}

/// RGBA pixels with the alpha byte of every pixel moved to the front. Bytes
/// after the last whole pixel are left out.
pub open spec fn argb_of(rgba: Seq<u8>) -> Seq<u8> {
    Seq::new(
        (rgba.len() / 4 * 4) as nat,
        |k: int|
            if k % 4 == 0 {
                rgba[k + 3]
            } else {
                rgba[k - 1]
            },
    )
}

/// Reorders RGBA pixels to ARGB.
pub fn argb_from_rgba(rgba: &[u8]) -> (argb: Vec<u8>)
    ensures
        argb@ == argb_of(rgba@),
{
    let pixels: usize = rgba.len() / 4;
    let mut argb: Vec<u8> = Vec::with_capacity(rgba.len());
    let mut p: usize = 0;
    while p < pixels
        invariant
            pixels == rgba@.len() / 4,
            rgba@.len() <= usize::MAX,
            p <= pixels,
            argb@.len() == 4 * p,
            forall|k: int| 0 <= k < 4 * p ==> argb@[k] == argb_of(rgba@)[k],
        decreases pixels - p,
    {
        let at: usize = 4 * p;
        argb.push(rgba[at + 3]);
        argb.push(rgba[at]);
        argb.push(rgba[at + 1]);
        argb.push(rgba[at + 2]);
        p += 1;
    }
    argb
}

/// The tray icon for decoded pixels.
pub fn icon_from_rgba(width: u32, height: u32, rgba: &[u8]) -> (icon: TrayIcon)
    ensures
        icon.width == width,
        icon.height == height,
        icon.data@ == argb_of(rgba@),
{
    TrayIcon { data: argb_from_rgba(rgba), width, height }
}

/// Builds the tray icon from the bytes of a PNG file.
///
/// Fails exactly on bytes that do not decode; otherwise the icon has the
/// size of the picture and its pixels in ARGB order.
pub fn create_tray_icon(png: &[u8]) -> (r: Result<TrayIcon, IconError>)
    ensures
        match r {
            Ok(icon) => png_rgba8(png@) matches Some((width, height, rgba)) && {
                &&& icon.width == width
                &&& icon.height == height
                &&& icon.data@ == argb_of(rgba)
            },
            Err(e) => e == IconError::Decode && png_rgba8(png@) is None,
        },
{
    match decode_png(png) {
        Ok((width, height, rgba)) => Ok(icon_from_rgba(width, height, rgba.as_slice())),
        Err(_) => Err(IconError::Decode),
    }
}

} // verus!
