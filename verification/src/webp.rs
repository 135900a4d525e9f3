//! Lossless WebP encoding of a captured frame.
//!
//! A captured frame is held as plain values: dimensions and the RGBA bytes,
//! row-major, four bytes per pixel. The encoding itself is done by the `image`
//! crate behind a trusted wrapper; its output bytes are named by
//! `webp_bytes_of`, and the wrapper states the two facts the callers need:
//! when encoding succeeds, and that the output opens a RIFF container marked
//! WEBP.

use vstd::prelude::*;

verus! {

/// One captured monitor frame: RGBA, row-major, four bytes per pixel.
pub struct RawImage {
    pub width: u32,
    pub height: u32,
    pub pixels: Vec<u8>,
}

/// The frame the WebP encoder accepts: the buffer holds exactly its pixels,
/// and both sides are between 1 and 16384.
pub open spec fn encodable(img: RawImage) -> bool {
    &&& img.pixels@.len() == 4 * (img.width as int) * (img.height as int)
    &&& 1 <= img.width <= 16384
    &&& 1 <= img.height <= 16384
}

/// The bytes of the lossless WebP encoding of a frame: a fixed function of the
/// dimensions and pixel data alone.
pub uninterp spec fn webp_bytes_of(width: u32, height: u32, pixels: Seq<u8>) -> Seq<u8>;

/// The WebP container magic: `RIFF` at the start and `WEBP` at offset eight.
pub open spec fn has_webp_magic(b: Seq<u8>) -> bool {
    &&& b.len() >= 12
    &&& b[0] == 0x52u8 && b[1] == 0x49u8 && b[2] == 0x46u8 && b[3] == 0x46u8
    &&& b[8] == 0x57u8 && b[9] == 0x45u8 && b[10] == 0x42u8 && b[11] == 0x50u8
}

/// Relies on the `image` crate's lossless WebP encoder: its output is a
/// function of the dimensions and pixel data alone; it opens a RIFF container
/// marked WEBP; and, writing into a byte buffer, it succeeds exactly when both
/// sides are between 1 and 16384. The encoder panics on a buffer that does not
/// hold exactly `4 * width * height` bytes, so that input is excluded here.
#[verifier::external_body]
pub(crate) fn encode_webp(width: u32, height: u32, pixels: &Vec<u8>) -> (r: Option<Vec<u8>>)
    requires
        pixels@.len() == 4 * (width as int) * (height as int),
    ensures
        r is Some <==> (1 <= width <= 16384 && 1 <= height <= 16384),
        r matches Some(b) ==> b@ == webp_bytes_of(width, height, pixels@) && has_webp_magic(b@),
{
    let mut out: Vec<u8> = Vec::new();
    let encoder = image::codecs::webp::WebPEncoder::new_lossless(&mut out);
    match encoder.encode(pixels.as_slice(), width, height, image::ExtendedColorType::Rgba8) {
        Ok(()) => Some(out),
        Err(_) => None,
    }
}

} // verus!
