//! The bitmaps of a tray icon, as Win32 takes them.

use crate::tray::pixels::{transcode, transcoded, RowOrder};
use crate::tray::source::{SourceView, TrayIconSource};
use vstd::prelude::*;

verus! {

/// The colour bitmap and the mask that make up an icon.
#[derive(Debug)]
pub struct IconImage {
    /// Width in pixels.
    pub width: i32,
    /// Height in pixels.
    pub height: i32,
    /// The height for the header of the colour bitmap; negative because its top
    /// row comes first.
    pub header_height: i32,
    /// The size of the colour bitmap in bytes.
    pub image_bytes: u32,
    /// Top-down rows of B, G, R, A bytes.
    pub pixels: Vec<u8>,
    /// The monochrome mask: all zero, so that the alpha channel alone carries the
    /// shape.
    pub mask: Vec<u8>,
}

/// The size of a row of a monochrome mask; rows are padded to 16 bits.
pub open spec fn mask_row_bytes(width: int) -> int {
    (width + 15) / 16 * 2
}

impl IconImage {
    /// Whether this is the image of a valid pixel buffer.
    pub open spec fn shows(self, source: SourceView) -> bool {
        source matches SourceView::Rgba { width, height, .. } && {
            &&& self.width == width
            &&& self.height == height
            &&& self.header_height == -height
            &&& self.image_bytes == width * height * 4
            &&& transcoded(source, RowOrder::TopDown) == Some(self.pixels@)
            &&& self.pixels@.len() == self.image_bytes
            &&& self.mask@ == Seq::new(
                (mask_row_bytes(width as int) * height) as nat,
                |i: int| 0u8,
            )
        }
    }
}

proof fn lemma_extents(width: u32, height: u32, stride: u32)
    requires
        0 < width,
        0 < height,
        width * 4 <= stride,
        stride * height <= u32::MAX,
    ensures
        width <= 0x3fff_ffff,
        height <= 0x3fff_ffff,
        0 <= width * height * 4 <= u32::MAX,
        0 <= mask_row_bytes(width as int) * height <= u32::MAX,
{
    assert(width * height * 4 <= stride * height && width <= width * height && height <= width
        * height) by (nonlinear_arith)
        requires
            0 < width,
            0 < height,
            width * 4 <= stride,
    ;
    let row = mask_row_bytes(width as int);
    assert(0 <= row <= 2 * width);
    assert(0 <= row * height <= 2 * width * height) by (nonlinear_arith)
        requires
            0 <= row <= 2 * width,
            0 < height,
    ;
    assert(2 * width * height == 2 * (width * height)) by (nonlinear_arith);
    assert(width * height * 4 == 4 * (width * height)) by (nonlinear_arith);
}

/// The bitmaps of a pixel buffer. A path, or a buffer that fails validation, has
/// none, and the caller goes on without an icon.
pub fn icon_from_source(source: &TrayIconSource) -> (image: Option<IconImage>)
    ensures
        image is Some <==> source@ is Rgba && source@.is_valid(),
        image matches Some(i) ==> i.shows(source@),
{
    match transcode(source, RowOrder::TopDown) {
        None => None,
        Some(pixels) => match source {
            TrayIconSource::Path(_) => None,
            TrayIconSource::Rgba { width, height, stride, .. } => {
                proof {
                    lemma_extents(*width, *height, *stride);
                    assert(*width * *height <= u32::MAX);
                }
                let row_bytes: usize = (*width as usize + 15) / 16 * 2;
                let mask: Vec<u8> = vec![0u8; row_bytes * *height as usize];
                let image_bytes: u32 = *width * *height * 4;
                proof {
                    assert(mask@ =~= Seq::new(
                        (mask_row_bytes(*width as int) * *height) as nat,
                        |i: int| 0u8,
                    ));
                }
                Some(
                    IconImage {
                        width: *width as i32,
                        height: *height as i32,
                        header_height: -(*height as i32),
                        image_bytes,
                        pixels,
                        mask,
                    },
                )
            },
        },
    }
}

/// A row of the mask has a bit for every pixel and ends on 16 bits, with less
/// than 16 to spare.
pub proof fn a_mask_row_covers_its_pixels(width: int)
    requires
        0 <= width,
    ensures
        mask_row_bytes(width) % 2 == 0,
        width <= 8 * mask_row_bytes(width) < width + 16,
{
}

/// The bitmaps of an image have its extent: the colour bitmap four bytes a pixel
/// from the top down, the mask a padded row of zeros for every row.
pub proof fn an_image_has_the_extent_of_its_source(
    source: TrayIconSource,
    image: Option<IconImage>,
    i: int,
)
    requires
        call_ensures(icon_from_source, (&source,), image),
    ensures
        source@ is Path ==> image is None,
        source@ matches SourceView::Rgba { width, height, .. } ==> {
            &&& image is Some <==> source@.is_valid()
            &&& image matches Some(shown) ==> {
                &&& shown.width == width && shown.height == height
                &&& shown.header_height == -height
                &&& shown.pixels@.len() == width * height * 4 == shown.image_bytes
                &&& shown.mask@.len() == mask_row_bytes(width as int) * height
                &&& 0 <= i < shown.mask@.len() ==> shown.mask@[i] == 0
            }
        },
{
    if let SourceView::Rgba { width, height, stride, .. } = source@ {
        if source@.is_valid() {
            lemma_extents(width, height, stride);
        }
    }
}

} // verus!
