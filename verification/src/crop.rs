//! Cropping a frame to a selection.

use crate::frame::{pixel_in, CapturedFrame};
use crate::selection::CropRect;
use vstd::prelude::*;

verus! {

/// Cuts a rectangle out of an RGBA8 buffer with `image::DynamicImage::crop_imm`.
///
/// The buffer is handed to the `image` crate as an RGBA8 image of
/// `width x height` pixels, and the bytes of the image that comes back are
/// returned. For a rectangle within the image, `crop_imm` returns an image of
/// the rectangle's size whose pixel at `(x, y)` is the source's pixel at
/// `(rect.x + x, rect.y + y)`; both images are row-major with four bytes per
/// pixel. None of this is proved here.
///
/// The rectangle must hold a pixel. The `image` crate measures a buffer as
/// four times the width, then times the height, and gives up where the first
/// product leaves the machine's integers; an image that holds a pixel has at
/// least one row, so that product is no longer than the buffer itself.
#[verifier::external_body]
fn crop_rgba8(bytes: &[u8], width: u32, height: u32, rect: CropRect) -> (out: Vec<u8>)
    requires
        bytes@.len() == 4 * width * height,
        rect.within(width, height),
        rect.width > 0,
        rect.height > 0,
    ensures
        out@.len() == 4 * rect.width * rect.height,
        forall|x: int, y: int|
            0 <= x < rect.width && 0 <= y < rect.height ==> #[trigger] pixel_in(
                out@,
                rect.width as int,
                x,
                y,
            ) == pixel_in(bytes@, width as int, rect.x + x, rect.y + y),
{
    let source = image::RgbaImage::from_raw(width, height, bytes.to_vec()).unwrap();
    image::DynamicImage::ImageRgba8(source)
        .crop_imm(rect.x, rect.y, rect.width, rect.height)
        .into_rgba8()
        .into_raw()
}

/// Crops a frame to a rectangle. The rectangle is first cut to the frame's
/// bounds; the result has the size of what is left, and its pixel at
/// `(x, y)` is the frame's pixel at that offset from the rectangle's corner.
/// Where nothing is left, the result is the empty frame of that size.
pub fn crop_frame(frame: &CapturedFrame, rect: CropRect) -> (cropped: CapturedFrame)
    ensures
        cropped.wf(),
        cropped@.width == rect.clamped_spec(frame@.width as u32, frame@.height as u32).width,
        cropped@.height == rect.clamped_spec(frame@.width as u32, frame@.height as u32).height,
        forall|x: int, y: int|
            cropped@.holds(x, y) ==> #[trigger] cropped@.pixel(x, y) == frame@.pixel(
                rect.clamped_spec(frame@.width as u32, frame@.height as u32).x + x,
                rect.clamped_spec(frame@.width as u32, frame@.height as u32).y + y,
            ),
{
    let inner = rect.clamped(frame.width(), frame.height());
    let bytes = if inner.width == 0 || inner.height == 0 {
        assert(4 * inner.width * inner.height == 0) by (nonlinear_arith)
            requires
                inner.width == 0 || inner.height == 0,
        ;
        Vec::new()
    } else {
        crop_rgba8(frame.as_bytes(), frame.width(), frame.height(), inner)
    };
    let cropped = CapturedFrame::from_rgba(inner.width, inner.height, bytes);
    cropped.unwrap()
}

} // verus!
