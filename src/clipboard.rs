use vstd::prelude::*;

verus! {

/// An RGBA picture, four bytes per pixel, row after row.
#[derive(Clone, Debug)]
pub struct RgbaPixels {
    pub width: u32,
    pub height: u32,
    pub bytes: Vec<u8>,
}

/// Why a clipboard picture could not be turned into pixels.
#[derive(Clone, Copy, Debug, PartialEq, Eq, Structural)]
pub enum ClipboardImageError {
    /// The width does not fit in 32 bits.
    WidthTooLarge,
    /// The height does not fit in 32 bits.
    HeightTooLarge,
    /// The buffer holds fewer than four bytes per pixel.
    BufferTooSmall,
}

/// Whether a buffer of `len` bytes holds an RGBA picture of `width` by
/// `height` pixels, as the size check of the image buffer decides it: four
/// times the width must itself be a `usize`, and the whole size must not
/// exceed `len`.
pub open spec fn rgba_fits(width: int, height: int, len: int) -> bool {
    &&& 4 * width <= usize::MAX
    &&& 4 * width * height <= len
}

/// Relies on `image::ImageBuffer::from_raw` for `RgbaImage`: it computes the
/// needed length as `4 * width`, then times `height`, each step a checked
/// `usize` multiplication, and accepts the buffer exactly when both steps
/// succeed and the buffer is at least that long (a buffer length never
/// exceeds `usize`, so the second step succeeds whenever the length is met).
/// It keeps the buffer as it is, which `into_raw` hands back.
#[verifier::external_body]
fn rgba_from_raw(width: u32, height: u32, bytes: Vec<u8>) -> (r: Option<Vec<u8>>)
    ensures
        r.is_some() == rgba_fits(width as int, height as int, bytes@.len() as int),
        r.is_some() ==> r.unwrap()@ == bytes@,
{
    image::RgbaImage::from_raw(width, height, bytes).map(|img| img.into_raw())
}

/// Turns a picture read from the clipboard, given by its size and its raw
/// RGBA bytes, into pixels ready to be shown on a new node.
pub fn clipboard_image(width: usize, height: usize, bytes: Vec<u8>) -> (r: Result<
    RgbaPixels,
    ClipboardImageError,
>)
    ensures
        width > u32::MAX ==> r == Err::<RgbaPixels, _>(ClipboardImageError::WidthTooLarge),
        width <= u32::MAX && height > u32::MAX ==> r == Err::<RgbaPixels, _>(
            ClipboardImageError::HeightTooLarge,
        ),
        width <= u32::MAX && height <= u32::MAX && !rgba_fits(
            width as int,
            height as int,
            bytes@.len() as int,
        ) ==> r == Err::<RgbaPixels, _>(ClipboardImageError::BufferTooSmall),
        r is Ok <==> (width <= u32::MAX && height <= u32::MAX && rgba_fits(
            width as int,
            height as int,
            bytes@.len() as int,
        )),
        r is Ok ==> {
            &&& r->Ok_0.width == width
            &&& r->Ok_0.height == height
            &&& r->Ok_0.bytes@ == bytes@
        },
{
    if width > u32::MAX as usize {
        return Err(ClipboardImageError::WidthTooLarge);
    }
    if height > u32::MAX as usize {
        return Err(ClipboardImageError::HeightTooLarge);
    }
    let w = width as u32;
    let h = height as u32;
    match rgba_from_raw(w, h, bytes) {
        Some(data) => Ok(RgbaPixels { width: w, height: h, bytes: data }),
        None => Err(ClipboardImageError::BufferTooSmall),
    }
}

} // verus!
