//! Reordering the pixels of an icon into the layout a platform expects.

use crate::tray::source::{a_valid_buffer_covers_every_pixel, SourceView, TrayIconSource};
use vstd::arithmetic::div_mod::{
    lemma_fundamental_div_mod_converse_div, lemma_fundamental_div_mod_converse_mod,
};
use vstd::prelude::*;

verus! {

/// In which order the rows of an image are laid out.
#[derive(Debug, Clone, Copy, PartialEq, Eq, Structural)]
pub enum RowOrder {
    /// The top row comes first.
    TopDown,
    /// The bottom row comes first.
    BottomUp,
}

/// The channel of an RGBA pixel that stands in place `k` of a BGRA pixel.
pub open spec fn swapped(k: int) -> int {
    if k == 0 {
        2
    } else if k == 2 {
        0
    } else {
        k
    }
}

/// The source row shown in place `row`.
pub open spec fn source_row(height: int, row: int, order: RowOrder) -> int {
    match order {
        RowOrder::TopDown => row,
        RowOrder::BottomUp => height - 1 - row,
    }
}

/// Byte `k` of the pixel at `row` and `column` of the reordered image.
pub open spec fn bgra_byte(
    height: int,
    stride: int,
    data: Seq<u8>,
    order: RowOrder,
    row: int,
    column: int,
    k: int,
) -> u8 {
    data[source_row(height, row, order) * stride + column * 4 + swapped(k)]
}

/// The image as B, G, R, A bytes without padding between rows.
pub open spec fn bgra(
    width: int,
    height: int,
    stride: int,
    data: Seq<u8>,
    order: RowOrder,
) -> Seq<u8> {
    Seq::new(
        (width * height * 4) as nat,
        |i: int|
            bgra_byte(height, stride, data, order, (i / 4) / width, (i / 4) % width, i % 4),
    )
}

/// The reordered bytes of a valid pixel buffer.
pub open spec fn transcoded(source: SourceView, order: RowOrder) -> Option<Seq<u8>> {
    match source {
        SourceView::Rgba { width, height, stride, data } => if source.is_valid() {
            Some(bgra(width as int, height as int, stride as int, data, order))
        } else {
            None
        },
        SourceView::Path(_) => None,
    }
}

proof fn lemma_place(width: int, row: int, column: int, k: int)
    requires
        0 <= row,
        0 <= column < width,
        0 <= k < 4,
    ensures
        ({
            let i = (row * width + column) * 4 + k;
            i / 4 == row * width + column && i % 4 == k && (i / 4) / width == row && (i / 4) % width
                == column
        }),
{
    let p = row * width + column;
    lemma_fundamental_div_mod_converse_div(p, width, row, column);
    lemma_fundamental_div_mod_converse_mod(p, width, row, column);
}

proof fn lemma_sizes(width: int, height: int, stride: int)
    requires
        0 < width,
        0 < height,
        width * 4 <= stride,
        stride * height <= u32::MAX,
    ensures
        width * height * 4 <= stride * height,
        width <= u32::MAX / 4,
        height <= u32::MAX / 4,
{
    assert(width * height * 4 == (width * 4) * height) by (nonlinear_arith);
    assert((width * 4) * height <= stride * height) by (nonlinear_arith)
        requires
            width * 4 <= stride,
            0 < height,
    ;
    assert(4 * height <= (width * 4) * height) by (nonlinear_arith)
        requires
            0 < width,
            0 < height,
    ;
    assert(width * 4 <= (width * 4) * height) by (nonlinear_arith)
        requires
            0 < width,
            0 < height,
    ;
}

/// Reorder a valid pixel buffer; anything else has no pixels to give.
pub fn transcode(source: &TrayIconSource, order: RowOrder) -> (pixels: Option<Vec<u8>>)
    ensures
        pixels is Some <==> transcoded(source@, order) is Some,
        pixels matches Some(bytes) ==> transcoded(source@, order) == Some(bytes@),
{
    if source.validate().is_err() {
        return None;
    }
    match source {
        TrayIconSource::Path(_) => None,
        TrayIconSource::Rgba { width, height, stride, data } => {
            let w: usize = *width as usize;
            let h: usize = *height as usize;
            let pitch: usize = *stride as usize;
            let mut out: Vec<u8> = Vec::new();
            proof {
                lemma_sizes(w as int, h as int, pitch as int);
            }
            let ghost wanted = bgra(w as int, h as int, pitch as int, data@, order);
            let mut row: usize = 0;
            while row < h
                invariant
                    row <= h,
                    w == *width,
                    h == *height,
                    pitch == *stride,
                    source@ == (SourceView::Rgba {
                        width: *width,
                        height: *height,
                        stride: *stride,
                        data: data@,
                    }),
                    source@.is_valid(),
                    w * h * 4 <= u32::MAX,
                    wanted == bgra(w as int, h as int, pitch as int, data@, order),
                    out@.len() == row * w * 4,
                    out@ == wanted.take(out@.len() as int),
                    out@.len() <= wanted.len(),
                decreases h - row,
            {
                let from: usize = match order {
                    RowOrder::TopDown => row,
                    RowOrder::BottomUp => h - 1 - row,
                };
                let mut column: usize = 0;
                proof {
                    assert(row * w + 0 == row * w);
                    assert((row * w) * 4 == row * w * 4);
                }
                while column < w
                    invariant
                        column <= w,
                        row < h,
                        from == source_row(h as int, row as int, order),
                        0 <= from < h,
                        w == *width,
                        h == *height,
                        pitch == *stride,
                        source@ == (SourceView::Rgba {
                            width: *width,
                            height: *height,
                            stride: *stride,
                            data: data@,
                        }),
                        source@.is_valid(),
                        w * h * 4 <= u32::MAX,
                        wanted == bgra(w as int, h as int, pitch as int, data@, order),
                        out@.len() == (row * w + column) * 4,
                        out@ == wanted.take(out@.len() as int),
                        out@.len() <= wanted.len(),
                    decreases w - column,
                {
                    proof {
                        a_valid_buffer_covers_every_pixel(
                            *width,
                            *height,
                            *stride,
                            data@,
                            from as int,
                            column as int,
                            3,
                        );
                        assert(0 <= from * pitch) by (nonlinear_arith);
                        assert(from * pitch + column * 4 + 3 < data.len());
                        lemma_place(w as int, row as int, column as int, 0);
                        lemma_place(w as int, row as int, column as int, 1);
                        lemma_place(w as int, row as int, column as int, 2);
                        lemma_place(w as int, row as int, column as int, 3);
                        assert((row * w + column) * 4 + 4 <= w * h * 4) by (nonlinear_arith)
                            requires
                                0 <= row < h,
                                0 <= column < w,
                        ;
                    }
                    let base: usize = from * pitch + column * 4;
                    let ghost before = out@;
                    let ghost at = out@.len() as int;
                    out.push(data[base + 2]);
                    out.push(data[base + 1]);
                    out.push(data[base]);
                    out.push(data[base + 3]);
                    proof {
                        assert(wanted[at] == data@[base as int + 2]);
                        assert(wanted[at + 1] == data@[base as int + 1]);
                        assert(wanted[at + 2] == data@[base as int]);
                        assert(wanted[at + 3] == data@[base as int + 3]);
                        assert(out@ =~= wanted.take(at + 4));
                    }
                    column = column + 1;
                    proof {
                        assert((row * w + column) * 4 == (row * w + (column - 1)) * 4 + 4);
                    }
                }
                proof {
                    assert((row * w + w) * 4 == (row + 1) * w * 4) by (nonlinear_arith);
                }
                row = row + 1;
            }
            proof {
                assert(h * w * 4 == w * h * 4) by (nonlinear_arith);
                assert(wanted.take(out@.len() as int) =~= wanted);
            }
            Some(out)
        },
    }
}

/// Every pixel keeps its four channel values, with red and blue in each other's
/// place, and lands in its own row and column; padding is never read.
pub proof fn pixels_keep_their_place_and_colour(
    width: u32,
    height: u32,
    stride: u32,
    data: Seq<u8>,
    order: RowOrder,
    row: int,
    column: int,
)
    requires
        (SourceView::Rgba { width, height, stride, data }).is_valid(),
        0 <= row < height,
        0 <= column < width,
    ensures
        ({
            let out = bgra(width as int, height as int, stride as int, data, order);
            let at = (source_row(height as int, row, order) * width + column) * 4;
            let from = row * stride + column * 4;
            &&& 0 <= at && at + 4 <= out.len()
            &&& out[at] == data[from + 2]
            &&& out[at + 1] == data[from + 1]
            &&& out[at + 2] == data[from]
            &&& out[at + 3] == data[from + 3]
        }),
{
    let shown = source_row(height as int, row, order);
    assert(0 <= shown < height);
    assert(source_row(height as int, shown, order) == row);
    lemma_place(width as int, shown, column, 0);
    lemma_place(width as int, shown, column, 1);
    lemma_place(width as int, shown, column, 2);
    lemma_place(width as int, shown, column, 3);
    assert((shown * width + column) * 4 + 4 <= width * height * 4 && 0 <= shown * width)
        by (nonlinear_arith)
        requires
            0 <= shown < height,
            0 <= column < width,
    ;
}

/// From the top down a row stays in its place; from the bottom up the last row
/// comes first.
pub proof fn rows_are_laid_out_in_their_order(height: int, row: int)
    ensures
        source_row(height, row, RowOrder::TopDown) == row,
        source_row(height, row, RowOrder::BottomUp) + row + 1 == height,
        source_row(height, 0, RowOrder::BottomUp) == height - 1,
{
}

/// Exactly the valid pixel buffers have pixels to give, four bytes each.
pub proof fn only_valid_buffers_give_pixels(source: SourceView, order: RowOrder)
    ensures
        transcoded(source, order) is Some <==> source is Rgba && source.is_valid(),
        source matches SourceView::Rgba { width, height, .. } ==> (transcoded(source, order) matches Some(
            bytes,
        ) ==> bytes.len() == width * height * 4),
{
    if let SourceView::Rgba { width, height, .. } = source {
        assert(0 <= width * height * 4) by (nonlinear_arith)
            requires
                0 <= width,
                0 <= height,
        ;
    }
}

/// Transcoding gives every pixel in its place as blue, green, red and alpha, with
/// the rows in the order that was asked for; only a valid buffer has pixels.
pub proof fn a_transcoded_image_keeps_its_pixels(
    source: TrayIconSource,
    order: RowOrder,
    pixels: Option<Vec<u8>>,
    row: int,
    column: int,
)
    requires
        call_ensures(transcode, (&source, order), pixels),
    ensures
        pixels is Some <==> source@ is Rgba && source@.is_valid(),
        pixels is Some ==> (source@ matches SourceView::Rgba { width, height, stride, data } && (0
            <= row < height && 0 <= column < width ==> {
            let bytes = pixels->0@;
            let at = ((if order == RowOrder::TopDown {
                row
            } else {
                height - 1 - row
            }) * width + column) * 4;
            let from = row * stride + column * 4;
            &&& bytes.len() == width * height * 4
            &&& bytes[at] == data[from + 2]
            &&& bytes[at + 1] == data[from + 1]
            &&& bytes[at + 2] == data[from]
            &&& bytes[at + 3] == data[from + 3]
        })),
{
    only_valid_buffers_give_pixels(source@, order);
    if let SourceView::Rgba { width, height, stride, data } = source@ {
        if source@.is_valid() && 0 <= row < height && 0 <= column < width {
            pixels_keep_their_place_and_colour(width, height, stride, data, order, row, column);
        }
    }
}

} // verus!
