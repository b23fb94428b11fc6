//! Captured frames: RGBA pixel buffers and the normalisation of raw frames.

use crate::error::PipelineError;
use vstd::prelude::*;

verus! {

/// One pixel: red, green, blue and alpha.
#[derive(Clone, Copy, Debug, PartialEq, Eq, Structural)]
pub struct Rgba {
    pub r: u8,
    pub g: u8,
    pub b: u8,
    pub a: u8,
}

/// The pixel at column `x`, row `y` of a row-major buffer of four bytes per
/// pixel without padding, `width` pixels to the row.
pub open spec fn pixel_in(bytes: Seq<u8>, width: int, x: int, y: int) -> Rgba {
    let at = 4 * (y * width + x);
    Rgba { r: bytes[at], g: bytes[at + 1], b: bytes[at + 2], a: bytes[at + 3] }
}

/// The pixel at column `x`, row `y` of a raw frame whose rows are `stride`
/// bytes apart and hold blue, green, red and an unused byte per pixel: the
/// colour channels in RGBA order, fully opaque.
pub open spec fn opaque_pixel_of_raw(raw: Seq<u8>, stride: int, x: int, y: int) -> Rgba {
    let at = stride * y + 4 * x;
    Rgba { r: raw[at + 2], g: raw[at + 1], b: raw[at], a: 255 }
}

/// The distance in bytes between two rows of a raw frame of `len` bytes and
/// `height` rows.
pub open spec fn row_stride(len: int, height: int) -> int {
    len / height
}

/// A raw frame can be read: each of its rows holds at least four bytes for
/// each of its `width` pixels. A frame without rows has no row that could
/// be too short.
pub open spec fn raw_layout_ok(len: int, width: int, height: int) -> bool {
    height > 0 ==> row_stride(len, height) >= 4 * width
}

/// What a frame is: its size in pixels and its bytes.
pub struct FrameModel {
    pub width: nat,
    pub height: nat,
    pub bytes: Seq<u8>,
}

impl FrameModel {
    /// Four bytes for each pixel, no more.
    pub open spec fn wf(self) -> bool {
        self.bytes.len() == 4 * self.width * self.height
    }

    /// Column `x`, row `y` lies in the frame.
    pub open spec fn holds(self, x: int, y: int) -> bool {
        0 <= x < self.width && 0 <= y < self.height
    }

    /// The pixel at column `x`, row `y`.
    pub open spec fn pixel(self, x: int, y: int) -> Rgba {
        pixel_in(self.bytes, self.width as int, x, y)
    }
}

/// `frame` is the RGBA form of a raw frame of `width x height` pixels: it has
/// that size, and each of its pixels holds the colours of the raw pixel at
/// the same place, fully opaque.
pub open spec fn normalizes(raw: Seq<u8>, width: int, height: int, frame: FrameModel) -> bool {
    &&& frame.wf()
    &&& frame.width == width
    &&& frame.height == height
    &&& forall|x: int, y: int|
        frame.holds(x, y) ==> #[trigger] frame.pixel(x, y) == opaque_pixel_of_raw(
            raw,
            row_stride(raw.len() as int, height),
            x,
            y,
        )
}

/// What a display backend hands over: the bytes of one frame and the size
/// of the display in pixels.
#[derive(Debug)]
pub struct RawFrame {
    pub bytes: Vec<u8>,
    pub width: u32,
    pub height: u32,
}

/// An image in memory: RGBA, row-major, four bytes per pixel, no padding.
#[derive(Debug)]
pub struct CapturedFrame {
    width: u32,
    height: u32,
    data: Vec<u8>,
}

impl View for CapturedFrame {
    type V = FrameModel;

    closed spec fn view(&self) -> FrameModel {
        FrameModel { width: self.width as nat, height: self.height as nat, bytes: self.data@ }
    }
}

/// Pixel `(x, y)` of a frame of the given width comes before pixel
/// `(col, row)` in row-major order.
spec fn comes_before(width: int, x: int, y: int, col: int, row: int) -> bool {
    0 <= x < width && 0 <= y && (y < row || (y == row && x < col))
}

/// A pixel that comes before another in row-major order ends where the
/// other begins, or earlier.
proof fn lemma_pixel_before(width: int, x: int, y: int, col: int, row: int) by (nonlinear_arith)
    requires
        comes_before(width, x, y, col, row),
        0 <= col <= width,
    ensures
        0 <= y * width,
        0 <= 4 * (y * width + x),
        4 * (y * width + x) + 4 <= 4 * (row * width + col),
{
}

/// Every pixel of a readable raw frame lies within its bytes.
proof fn lemma_raw_pixel_fits(len: int, stride: int, width: int, height: int, x: int, y: int)
    by (nonlinear_arith)
    requires
        0 <= len,
        height > 0,
        stride == len / height,
        stride >= 4 * width,
        0 <= x < width,
        0 <= y < height,
    ensures
        0 <= stride * y,
        stride * y <= len,
        stride * y + 4 * x + 4 <= len,
        4 * width * height <= len,
{
    assert(stride * height <= len);
    assert(stride * (y + 1) <= stride * height);
}

/// A readable raw frame is at least as long as its RGBA form.
proof fn lemma_area(len: int, stride: int, width: int, height: int) by (nonlinear_arith)
    requires
        0 <= len,
        height > 0,
        width >= 0,
        stride == len / height,
        stride >= 4 * width,
    ensures
        4 * width * height <= len,
        4 * (height * width) == 4 * width * height,
        4 * (0 * width + 0) == 0,
{
    assert(stride * height <= len);
}

/// The end of one row is the start of the next.
proof fn lemma_next_row(width: int, y: int) by (nonlinear_arith)
    ensures
        4 * (y * width + width) == 4 * ((y + 1) * width + 0),
{
}

impl CapturedFrame {
    #[verifier::type_invariant]
    spec fn filled(&self) -> bool {
        self.data@.len() == 4 * self.width * self.height
    }

    /// The buffer holds exactly four bytes for each pixel. Every frame is
    /// built that way; the accessors say so.
    pub open spec fn wf(&self) -> bool {
        self@.wf()
    }

    /// Wraps an RGBA buffer, or refuses it when its length is not four bytes
    /// for each of the `width * height` pixels.
    pub fn from_rgba(width: u32, height: u32, data: Vec<u8>) -> (frame: Option<CapturedFrame>)
        ensures
            frame is Some <==> data@.len() == 4 * width * height,
            frame matches Some(f) ==> f.wf() && f@ == (FrameModel {
                width: width as nat,
                height: height as nat,
                bytes: data@,
            }),
    {
        assert(4 * width * height == 4 * (width * height)) by (nonlinear_arith);
        assert(width * height <= 0xffff_ffff * 0xffff_ffff) by (nonlinear_arith)
            requires
                width <= 0xffff_ffff,
                height <= 0xffff_ffff,
        ;
        let len: usize = data.len();
        let area: u64 = width as u64 * height as u64;
        if area > (usize::MAX / 4) as u64 {
            return None;
        }
        if len as u64 != 4 * area {
            return None;
        }
        Some(CapturedFrame { width, height, data })
    }

    /// The number of pixel columns.
    pub fn width(&self) -> (w: u32)
        ensures
            w == self@.width,
            self.wf(),
    {
        proof {
            use_type_invariant(self);
        }
        self.width
    }

    /// The number of pixel rows.
    pub fn height(&self) -> (h: u32)
        ensures
            h == self@.height,
            self.wf(),
    {
        proof {
            use_type_invariant(self);
        }
        self.height
    }

    /// The bytes of the frame, row by row.
    pub fn as_bytes(&self) -> (bytes: &[u8])
        ensures
            bytes@ == self@.bytes,
            self.wf(),
    {
        proof {
            use_type_invariant(self);
        }
        self.data.as_slice()
    }

    /// Gives up the frame for its bytes.
    pub fn into_bytes(self) -> (bytes: Vec<u8>)
        ensures
            bytes@ == self@.bytes,
            self.wf(),
    {
        proof {
            use_type_invariant(&self);
        }
        self.data
    }

    /// The pixel at column `x`, row `y`, if the frame has one there.
    pub fn pixel(&self, x: u32, y: u32) -> (found: Option<Rgba>)
        ensures
            found == if self@.holds(x as int, y as int) {
                Some(self@.pixel(x as int, y as int))
            } else {
                None
            },
    {
        if x >= self.width || y >= self.height {
            return None;
        }
        proof {
            use_type_invariant(self);
            assert(self.data@.len() == self.data.len());
            lemma_pixel_before(
                self.width as int,
                x as int,
                y as int,
                self.width as int,
                self.height as int - 1,
            );
            assert(4 * ((self.height - 1) * self.width + self.width) == 4 * self.width
                * self.height) by (nonlinear_arith);
        }
        let at: usize = 4 * (y as usize * self.width as usize + x as usize);
        Some(
            Rgba {
                r: self.data[at],
                g: self.data[at + 1],
                b: self.data[at + 2],
                a: self.data[at + 3],
            },
        )
    }
}

/// Turns a raw frame into an RGBA frame: row padding is dropped, the channel
/// order changes from blue-green-red to red-green-blue, and every pixel
/// becomes fully opaque whatever the fourth raw byte holds. The row stride is
/// the raw length divided by the number of rows. A frame with rows shorter
/// than four bytes per pixel is a `FormatError`; a frame without rows gives
/// the empty frame of its width.
pub fn normalize_frame(raw: &[u8], width: u32, height: u32) -> (result: Result<
    CapturedFrame,
    PipelineError,
>)
    ensures
        result is Ok <==> raw_layout_ok(raw@.len() as int, width as int, height as int),
        result matches Err(e) ==> e == PipelineError::FormatError,
        result matches Ok(frame) ==> normalizes(raw@, width as int, height as int, frame@),
{
    if height == 0 {
        assert(4 * width * height == 0) by (nonlinear_arith)
            requires
                height == 0,
        ;
        return Ok(CapturedFrame { width, height, data: Vec::new() });
    }
    let w: usize = width as usize;
    let h: usize = height as usize;
    let stride: usize = raw.len() / h;
    if (stride as u64) < 4 * (width as u64) {
        return Err(PipelineError::FormatError);
    }
    proof {
        lemma_area(raw@.len() as int, stride as int, w as int, h as int);
    }
    let mut data: Vec<u8> = Vec::with_capacity(4 * w * h);
    let mut y: usize = 0;
    while y < h
        invariant
            y <= h,
            h == height,
            w == width,
            raw@.len() <= usize::MAX,
            stride == row_stride(raw@.len() as int, h as int),
            stride >= 4 * w,
            data@.len() == 4 * (y * w + 0),
            forall|px: int, py: int|
                comes_before(w as int, px, py, 0, y as int) ==> #[trigger] pixel_in(
                    data@,
                    w as int,
                    px,
                    py,
                ) == opaque_pixel_of_raw(raw@, stride as int, px, py),
        decreases h - y,
    {
        let mut x: usize = 0;
        while x < w
            invariant
                x <= w,
                y < h,
                h == height,
                w == width,
                raw@.len() <= usize::MAX,
                stride == row_stride(raw@.len() as int, h as int),
                stride >= 4 * w,
                data@.len() == 4 * (y * w + x),
                forall|px: int, py: int|
                    comes_before(w as int, px, py, x as int, y as int) ==> #[trigger] pixel_in(
                        data@,
                        w as int,
                        px,
                        py,
                    ) == opaque_pixel_of_raw(raw@, stride as int, px, py),
            decreases w - x,
        {
            proof {
                lemma_raw_pixel_fits(
                    raw@.len() as int,
                    stride as int,
                    w as int,
                    h as int,
                    x as int,
                    y as int,
                );
            }
            let at: usize = stride * y + 4 * x;
            let ghost before = data@;
            data.push(raw[at + 2]);
            data.push(raw[at + 1]);
            data.push(raw[at]);
            data.push(255);
            proof {
                assert(4 * (y * w + (x + 1)) == 4 * (y * w + x) + 4) by (nonlinear_arith);
                assert forall|px: int, py: int|
                    comes_before(w as int, px, py, x + 1, y as int) implies #[trigger] pixel_in(
                    data@,
                    w as int,
                    px,
                    py,
                ) == opaque_pixel_of_raw(raw@, stride as int, px, py) by {
                    if comes_before(w as int, px, py, x as int, y as int) {
                        lemma_pixel_before(w as int, px, py, x as int, y as int);
                        assert(pixel_in(data@, w as int, px, py) == pixel_in(
                            before,
                            w as int,
                            px,
                            py,
                        ));
                    }
                }
            }
            x += 1;
        }
        proof {
            lemma_next_row(w as int, y as int);
        }
        y += 1;
    }
    Ok(CapturedFrame { width, height, data })
}

/// Makes the frame of one trigger from what the display backend returned.
/// No raw frame means `CaptureUnavailable`; a raw frame is normalised, and
/// one whose rows are too short is a `FormatError`.
pub fn capture_frame(raw: Option<RawFrame>) -> (result: Result<CapturedFrame, PipelineError>)
    ensures
        match raw {
            None => result matches Err(e) && e == PipelineError::CaptureUnavailable,
            Some(r) => {
                &&& result is Ok <==> raw_layout_ok(
                    r.bytes@.len() as int,
                    r.width as int,
                    r.height as int,
                )
                &&& result matches Err(e) ==> e == PipelineError::FormatError
                &&& result matches Ok(frame) ==> normalizes(
                    r.bytes@,
                    r.width as int,
                    r.height as int,
                    frame@,
                )
            },
        },
{
    match raw {
        None => Err(PipelineError::CaptureUnavailable),
        Some(r) => normalize_frame(r.bytes.as_slice(), r.width, r.height),
    }
}

/// Each byte of a frame is one channel of one pixel: its column, row and
/// channel.
proof fn lemma_byte_place(k: int, width: int, height: int) -> (place: (int, int, int))
    by (nonlinear_arith)
    requires
        0 <= k < 4 * width * height,
        0 <= width,
        0 <= height,
    ensures
        0 <= place.0 < width,
        0 <= place.1 < height,
        0 <= place.2 < 4,
        k == 4 * (place.1 * width + place.0) + place.2,
{
    let p = k / 4;
    (p % width, p / width, k % 4)
}

/// A raw frame has one RGBA form: two frames that both normalise it are equal.
pub proof fn lemma_normalized_unique(
    raw: Seq<u8>,
    width: int,
    height: int,
    a: FrameModel,
    b: FrameModel,
)
    requires
        normalizes(raw, width, height, a),
        normalizes(raw, width, height, b),
    ensures
        a == b,
{
    assert(a.bytes.len() == b.bytes.len());
    assert forall|k: int| 0 <= k < a.bytes.len() implies a.bytes[k] == b.bytes[k] by {
        let (x, y, c) = lemma_byte_place(k, width, height);
        assert(a.holds(x, y) && b.holds(x, y));
        assert(a.pixel(x, y) == b.pixel(x, y));
    }
    assert(a.bytes =~= b.bytes);
}

/// Every pixel of a normalised frame is fully opaque, whatever the raw
/// frame held in its fourth byte.
pub proof fn lemma_normalized_is_opaque(
    raw: Seq<u8>,
    width: int,
    height: int,
    frame: FrameModel,
    x: int,
    y: int,
)
    requires
        normalizes(raw, width, height, frame),
        frame.holds(x, y),
    ensures
        frame.pixel(x, y).a == 255,
{
}

} // verus!
