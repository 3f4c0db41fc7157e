//! The image of a tray icon and the checks it has to pass.

use crate::text::{blank, is_blank, is_space, same};
use vstd::prelude::*;

verus! {

/// Source image for a tray icon.
#[derive(Debug, PartialEq, Eq)]
pub enum TrayIconSource {
    /// A file path or freedesktop icon-theme name, resolved by the backend.
    Path(String),
    /// Raw RGBA bytes, top-down; `stride` may exceed `width * 4` to describe
    /// padded rows.
    Rgba {
        /// Pixel width.
        width: u32,
        /// Pixel height.
        height: u32,
        /// Bytes per row; must be at least `width * 4`.
        stride: u32,
        /// At least `stride * height` bytes.
        data: Vec<u8>,
    },
}

/// What a [`TrayIconSource`] holds.
#[verifier::ext_equal]
pub enum SourceView {
    Path(Seq<char>),
    Rgba { width: u32, height: u32, stride: u32, data: Seq<u8> },
}

impl View for TrayIconSource {
    type V = SourceView;

    open spec fn view(&self) -> SourceView {
        match *self {
            TrayIconSource::Path(path) => SourceView::Path(path@),
            TrayIconSource::Rgba { width, height, stride, data } => SourceView::Rgba {
                width,
                height,
                stride,
                data: data@,
            },
        }
    }
}

impl Clone for TrayIconSource {
    fn clone(&self) -> (copy: Self)
        ensures
            copy@ == self@,
    {
        match self {
            TrayIconSource::Path(path) => TrayIconSource::Path(path.clone()),
            TrayIconSource::Rgba { width, height, stride, data } => {
                let bytes = data.clone();
                proof {
                    assert(bytes@ =~= data@);
                }
                TrayIconSource::Rgba {
                    width: *width,
                    height: *height,
                    stride: *stride,
                    data: bytes,
                }
            },
        }
    }
}

/// Reason a [`TrayIconSource`] was rejected.
#[derive(Debug, Clone, Copy, PartialEq, Eq, Structural)]
pub enum IconError {
    /// Zero width or height.
    EmptyDimensions,
    /// `stride` is smaller than `width * 4`.
    StrideTooSmall,
    /// `data.len()` is smaller than `stride * height`, or that product does not
    /// fit a `u32`.
    DataTooShort,
    /// An empty path or icon-theme name.
    EmptyPath,
}

impl IconError {
    /// The reason in words.
    pub open spec fn shown(self) -> Seq<char> {
        match self {
            IconError::EmptyDimensions => "icon width and height must both be non-zero"@,
            IconError::StrideTooSmall => "icon stride must be at least width * 4"@,
            IconError::DataTooShort => "icon data is shorter than stride * height"@,
            IconError::EmptyPath => "icon path must not be empty"@,
        }
    }

    /// The reason in words.
    pub fn message(&self) -> (text: String)
        ensures
            text@ == self.shown(),
    {
        match self {
            IconError::EmptyDimensions => "icon width and height must both be non-zero".to_owned(),
            IconError::StrideTooSmall => "icon stride must be at least width * 4".to_owned(),
            IconError::DataTooShort => "icon data is shorter than stride * height".to_owned(),
            IconError::EmptyPath => "icon path must not be empty".to_owned(),
        }
    }
}

impl SourceView {
    /// The verdict on a source: the first check that it fails, if any.
    pub open spec fn verdict(self) -> Result<(), IconError> {
        match self {
            SourceView::Path(path) => if is_blank(path) {
                Err(IconError::EmptyPath)
            } else {
                Ok(())
            },
            SourceView::Rgba { width, height, stride, data } => if width == 0 || height == 0 {
                Err(IconError::EmptyDimensions)
            } else if stride < width * 4 {
                Err(IconError::StrideTooSmall)
            } else if stride * height > u32::MAX || data.len() < stride * height {
                Err(IconError::DataTooShort)
            } else {
                Ok(())
            },
        }
    }

    /// Whether a source passes every check.
    pub open spec fn is_valid(self) -> bool {
        self.verdict() is Ok
    }
}

impl TrayIconSource {
    /// Validate the source.
    ///
    /// Both backends call this before touching the OS, so a host-supplied icon
    /// is rejected with a typed error instead of crashing further down.
    pub fn validate(&self) -> (verdict: Result<(), IconError>)
        ensures
            verdict == self@.verdict(),
    {
        match self {
            TrayIconSource::Path(path) => {
                if blank(path.as_str()) {
                    return Err(IconError::EmptyPath);
                }
                Ok(())
            },
            TrayIconSource::Rgba { width, height, stride, data } => {
                if *width == 0 || *height == 0 {
                    return Err(IconError::EmptyDimensions);
                }
                match width.checked_mul(4) {
                    None => Err(IconError::StrideTooSmall),
                    Some(row_bytes) => {
                        if *stride < row_bytes {
                            return Err(IconError::StrideTooSmall);
                        }
                        match stride.checked_mul(*height) {
                            None => Err(IconError::DataTooShort),
                            Some(needed) => {
                                if (data.len() as u64) < needed as u64 {
                                    return Err(IconError::DataTooShort);
                                }
                                Ok(())
                            },
                        }
                    },
                }
            },
        }
    }

    /// Whether two sources hold the same image description.
    pub fn same_as(&self, other: &TrayIconSource) -> (yes: bool)
        ensures
            yes == (self@ == other@),
    {
        match (self, other) {
            (TrayIconSource::Path(left), TrayIconSource::Path(right)) => same(
                left.as_str(),
                right.as_str(),
            ),
            (
                TrayIconSource::Rgba {
                    width: left_width,
                    height: left_height,
                    stride: left_stride,
                    data: left_data,
                },
                TrayIconSource::Rgba {
                    width: right_width,
                    height: right_height,
                    stride: right_stride,
                    data: right_data,
                },
            ) => *left_width == *right_width && *left_height == *right_height && *left_stride
                == *right_stride && same_bytes(left_data, right_data),
            _ => false,
        }
    }
}

/// Whether two buffers hold the same bytes.
pub fn same_bytes(a: &Vec<u8>, b: &Vec<u8>) -> (yes: bool)
    ensures
        yes == (a@ == b@),
{
    if a.len() != b.len() {
        return false;
    }
    let mut i: usize = 0;
    while i < a.len()
        invariant
            i <= a.len(),
            a.len() == b.len(),
            forall|j: int| 0 <= j < i ==> a@[j] == b@[j],
        decreases a.len() - i,
    {
        if a[i] != b[i] {
            return false;
        }
        i = i + 1;
    }
    proof {
        assert(a@ =~= b@);
    }
    true
}

/// A valid pixel buffer covers every pixel: each of the four bytes of each pixel
/// lies inside its row and inside the buffer.
pub proof fn a_valid_buffer_covers_every_pixel(
    width: u32,
    height: u32,
    stride: u32,
    data: Seq<u8>,
    row: int,
    column: int,
    channel: int,
)
    requires
        (SourceView::Rgba { width, height, stride, data }).is_valid(),
        0 <= row < height,
        0 <= column < width,
        0 <= channel < 4,
    ensures
        0 <= column * 4 + channel < stride,
        0 <= row * stride + column * 4 + channel < data.len(),
{
    assert(column * 4 + channel < width * 4);
    assert(0 <= row * stride && (row + 1) * stride <= stride * height && (row + 1) * stride == row
        * stride + stride) by (nonlinear_arith)
        requires
            0 <= row < height,
            0 <= stride,
    ;
}

/// A path is refused exactly when it shows nothing.
pub proof fn only_a_visible_path_names_an_icon(path: Seq<char>)
    ensures
        (SourceView::Path(path)).is_valid() <==> exists|i: int|
            0 <= i < path.len() && !is_space(#[trigger] path[i]),
        (SourceView::Path(path)).verdict() matches Err(reason) ==> reason == IconError::EmptyPath,
{
}

/// A buffer that covers exactly its rows is valid, padded or not; one byte less,
/// a row that is too short, or no rows or columns at all, and it is refused for
/// that reason.
pub proof fn a_buffer_is_valid_down_to_its_last_byte(
    width: u32,
    height: u32,
    stride: u32,
    data: Seq<u8>,
)
    ensures
        ({
            let verdict = (SourceView::Rgba { width, height, stride, data }).verdict();
            &&& verdict == Err::<(), IconError>(IconError::EmptyDimensions) <==> width == 0
                || height == 0
            &&& verdict == Err::<(), IconError>(IconError::StrideTooSmall) <==> width > 0
                && height > 0 && stride < 4 * width
            &&& width > 0 && height > 0 && stride >= 4 * width && stride * height <= u32::MAX
                && data.len() == stride * height ==> verdict is Ok
            &&& width > 0 && height > 0 && stride >= 4 * width && stride * height <= u32::MAX
                && data.len() > stride * height ==> verdict is Ok
            &&& width > 0 && height > 0 && stride >= 4 * width && stride * height > u32::MAX
                ==> verdict == Err::<(), IconError>(IconError::DataTooShort)
            &&& width > 0 && height > 0 && stride >= 4 * width && data.len() + 1 <= stride * height
                ==> verdict == Err::<(), IconError>(IconError::DataTooShort)
            &&& !(verdict == Err::<(), IconError>(IconError::EmptyPath))
        }),
{
}

/// No two reasons read alike.
pub proof fn reasons_read_differently(a: IconError, b: IconError)
    requires
        a.shown() == b.shown(),
    ensures
        a == b,
{
    reveal_strlit("icon width and height must both be non-zero");
    reveal_strlit("icon stride must be at least width * 4");
    reveal_strlit("icon data is shorter than stride * height");
    reveal_strlit("icon path must not be empty");
    assert("icon width and height must both be non-zero"@.len() == 43);
    assert("icon stride must be at least width * 4"@.len() == 38);
    assert("icon data is shorter than stride * height"@.len() == 41);
    assert("icon path must not be empty"@.len() == 27);
    assert(a.shown().len() == b.shown().len());
}

/// Validation gives the verdict on a source: a path has to show something, and a
/// buffer has to cover every row of every pixel.
pub proof fn validation_gives_the_verdict(source: TrayIconSource, verdict: Result<(), IconError>)
    requires
        call_ensures(TrayIconSource::validate, (&source,), verdict),
    ensures
        source@ matches SourceView::Path(path) ==> (verdict is Ok <==> exists|i: int|
            0 <= i < path.len() && !is_space(#[trigger] path[i])),
        source@ matches SourceView::Rgba { width, height, stride, data } ==> (verdict is Ok <==> width
            > 0 && height > 0 && stride >= width * 4 && stride * height <= u32::MAX && data.len()
            >= stride * height),
        verdict is Ok <==> source@.is_valid(),
{
    if let SourceView::Path(path) = source@ {
        only_a_visible_path_names_an_icon(path);
    }
}

} // verus!
