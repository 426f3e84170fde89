use vstd::prelude::*;
use vstd::slice::slice_subrange;
use image::codecs::png::PngEncoder;
use image::{ColorType, ImageEncoder, ImageError};

verus! {

#[verifier::external_type_specification]
#[verifier::external_body]
pub struct ExImageError(ImageError);

/// Why a buffer could not be turned into a PNG file.
#[derive(Clone, Copy, Debug, PartialEq, Eq)]
pub enum SnapshotError {
    /// The buffer holds fewer bytes than the image's pixels take.
    BufferTooSmall,
    /// The PNG encoder refused the image (a zero width or height).
    Encoding,
}

/// The PNG file that image's PNG encoder writes for an 8-bit RGBA image of
/// the given size and pixel bytes, or `None` where the encoder refuses it.
pub uninterp spec fn png_rgba8(width: u32, height: u32, pixels: Seq<u8>) -> Option<Seq<u8>>;

/// The number of bytes of an 8-bit RGBA image of the given size.
pub open spec fn rgba8_len(width: u32, height: u32) -> int {
    width as int * height as int * 4
}

/// Relies on image's `PngEncoder::write_image` with `ColorType::Rgba8`,
/// which encodes the pixel bytes as a PNG file; it asserts that the buffer
/// holds exactly `width * height * 4` bytes.
#[verifier::external_body]
fn write_png(width: u32, height: u32, pixels: &[u8]) -> (r: Result<Vec<u8>, ImageError>)
    requires
        pixels@.len() == rgba8_len(width, height),
    ensures
        match r {
            Ok(bytes) => png_rgba8(width, height, pixels@) == Some(bytes@),
            Err(_) => png_rgba8(width, height, pixels@) == None::<Seq<u8>>,
        },
{
    let mut out: Vec<u8> = Vec::new();
    match PngEncoder::new(&mut out).write_image(pixels, width, height, ColorType::Rgba8) {
        Ok(()) => Ok(out),
        Err(e) => Err(e),
    }
}

/// Encodes a `width` by `height` image of 8-bit RGBA pixels, read row by
/// row from the start of `pixels`, as a PNG file. Bytes past the image's
/// size are ignored; a buffer shorter than that size is refused.
pub fn encode_png_rgba8(width: u32, height: u32, pixels: &Vec<u8>) -> (r: Result<
    Vec<u8>,
    SnapshotError,
>)
    ensures
        pixels@.len() < rgba8_len(width, height) <==> r == Err::<Vec<u8>, SnapshotError>(
            SnapshotError::BufferTooSmall,
        ),
        pixels@.len() >= rgba8_len(width, height) ==> match r {
            Ok(bytes) => png_rgba8(width, height, pixels@.take(rgba8_len(width, height))) == Some(
                bytes@,
            ),
            Err(e) => e == SnapshotError::Encoding && png_rgba8(
                width,
                height,
                pixels@.take(rgba8_len(width, height)),
            ) == None::<Seq<u8>>,
        },
{
    proof {
        let (w, h) = (width as int, height as int);
        assert(w * h <= 0xffff_ffff * 0xffff_ffff) by (nonlinear_arith)
            requires
                0 <= w <= 0xffff_ffff,
                0 <= h <= 0xffff_ffff,
        ;
    }
    let needed: u128 = width as u128 * height as u128 * 4;
    if (pixels.len() as u128) < needed {
        return Err(SnapshotError::BufferTooSmall);
    }
    let image = slice_subrange(pixels.as_slice(), 0, needed as usize);
    assert(image@ == pixels@.take(rgba8_len(width, height)));
    match write_png(width, height, image) {
        Ok(bytes) => Ok(bytes),
        Err(_) => Err(SnapshotError::Encoding),
    }
}

} // verus!
