//! The pictures of applications: SVG files as they are, anything else
//! decoded and scaled to the size of an icon.

use vstd::prelude::*;
use vstd::string::StringExecFns;
use crate::decode::{decode_scaled, scaled_rgba8};

verus! {

/// Edge length in pixels up to which icons are looked up and scaled.
pub const ICON_SIZE: u16 = 128;

/// Decoded pixels: exactly four bytes of RGBA for each pixel, row by row.
#[derive(Debug)]
pub struct Pixmap {
    width: u32,
    height: u32,
    rgba: Vec<u8>,
}

/// A pixmap as plain values.
pub struct PixmapView {
    pub width: u32,
    pub height: u32,
    pub rgba: Seq<u8>,
}

impl View for Pixmap {
    type V = PixmapView;

    closed spec fn view(&self) -> PixmapView {
        PixmapView { width: self.width, height: self.height, rgba: self.rgba@ }
    }
}

/// Whether a number of bytes is that of a picture of the given size.
pub open spec fn is_pixmap_len(len: nat, width: u32, height: u32) -> bool {
    len == 4 * width * height
}

impl Pixmap {
    #[verifier::type_invariant]
    spec fn well_formed(&self) -> bool {
        is_pixmap_len(self.rgba@.len(), self.width, self.height)
    }

    /// The pixmap of the given size and bytes; `None` where the bytes are
    /// not exactly those of a picture of that size.
    pub fn new(width: u32, height: u32, rgba: Vec<u8>) -> (pixmap: Option<Pixmap>)
        ensures
            pixmap is Some == is_pixmap_len(rgba@.len(), width, height),
            pixmap matches Some(p) ==> p@ == (PixmapView { width, height, rgba: rgba@ }),
    {
        assert(width * height <= 0x1_0000_0000 * 0x1_0000_0000) by (nonlinear_arith)
            requires
                width <= 0x1_0000_0000,
                height <= 0x1_0000_0000,
        ;
        let pixels: u128 = (width as u128) * (height as u128);
        assert(4 * pixels == 4 * width * height) by (nonlinear_arith)
            requires
                pixels == width * height,
        ;
        if rgba.len() as u128 == 4 * pixels {
            Some(Pixmap { width, height, rgba })
        } else {
            None
        }
    }

    pub fn width(&self) -> (width: u32)
        ensures
            width == self@.width,
    {
        self.width
    }

    pub fn height(&self) -> (height: u32)
        ensures
            height == self@.height,
    {
        self.height
    }

    /// The bytes of the picture, exactly four for each pixel.
    pub fn rgba(&self) -> (rgba: &Vec<u8>)
        ensures
            rgba@ == self@.rgba,
            is_pixmap_len(rgba@.len(), self@.width, self@.height),
    {
        proof {
            use_type_invariant(self);
        }
        &self.rgba
    }
}

/// The picture of an application.
#[derive(Debug)]
pub enum IconImage {
    /// Decoded pixels.
    Pixels(Pixmap),
    /// The bytes of an SVG file, to be rendered by the window.
    Svg(Vec<u8>),
}

/// Whether a file extension is that of an SVG file.
pub open spec fn is_svg(extension: Option<&str>) -> bool {
    extension matches Some(ext) && ext@ == "svg"@
}

/// The picture that decoded pixels make, where they make one.
pub open spec fn picture_of(decoded: Option<(u32, u32, Seq<u8>)>) -> Option<PixmapView> {
    match decoded {
        Some((width, height, rgba)) => if is_pixmap_len(rgba.len(), width, height) {
            Some(PixmapView { width, height, rgba })
        } else {
            None
        },
        None => None,
    }
}

/// The picture for decoded pixels; none where the bytes are not exactly
/// those of a picture of the given size.
pub fn icon_from_pixels(width: u32, height: u32, rgba: Vec<u8>) -> (icon: Option<IconImage>)
    ensures
        match icon {
            Some(IconImage::Pixels(pixmap)) => picture_of(Some((width, height, rgba@))) == Some(
                pixmap@,
            ),
            Some(IconImage::Svg(_)) => false,
            None => picture_of(Some((width, height, rgba@))) is None,
        },
{
    match Pixmap::new(width, height, rgba) {
        Some(pixmap) => Some(IconImage::Pixels(pixmap)),
        None => None,
    }
}

/// The picture for the contents of an icon file.
///
/// SVG files, which go by their extension, are passed on as they are. Any
/// other file is decoded and scaled to the icon size; a file that does not
/// decode gives no picture.
pub fn icon_image(extension: Option<&str>, data: Vec<u8>) -> (icon: Option<IconImage>)
    ensures
        is_svg(extension) ==> icon == Some(IconImage::Svg(data)),
        !is_svg(extension) ==> match icon {
            Some(IconImage::Pixels(pixmap)) => picture_of(
                scaled_rgba8(data@, ICON_SIZE as u32),
            ) == Some(pixmap@),
            Some(IconImage::Svg(_)) => false,
            None => picture_of(scaled_rgba8(data@, ICON_SIZE as u32)) is None,
        },
{
    let svg = match extension {
        Some(ext) => String::from_str(ext) == String::from_str("svg"),
        None => false,
    };
    if svg {
        return Some(IconImage::Svg(data));
    }
    match decode_scaled(data.as_slice(), ICON_SIZE as u32) {
        Ok((width, height, rgba)) => icon_from_pixels(width, height, rgba),
        Err(_) => None,
    }
}

} // verus!
