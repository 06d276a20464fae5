use vstd::prelude::*;
use vstd::string::*;

use crate::errors::{RenderError, RenderErrorV};

verus! {

// PNG encoding. The codec is an outside collaborator; its output is a
// function of the pixel buffer and the dimensions, named below. The
// one fact the pipeline's callers need beyond the name - that a PNG
// datastream opens with the fixed 8-byte signature - is stated with it.

/// The first eight bytes of every PNG datastream.
pub open spec fn png_signature() -> Seq<u8> {
    seq![0x89u8, 0x50u8, 0x4eu8, 0x47u8, 0x0du8, 0x0au8, 0x1au8, 0x0au8]
}

/// What the codec produces for an RGBA buffer of the given dimensions:
/// the encoder is configured the same way on every call, so the bytes
/// depend on the buffer and dimensions alone.
pub uninterp spec fn png_of(rgba: Seq<u8>, width: int, height: int) -> Seq<u8>;

/// Relies on the image crate's `PngEncoder` (via `ImageEncoder::
/// write_image`, 8-bit RGBA) writing a PNG datastream into a fresh
/// buffer. The encoder panics on a buffer whose length does not match
/// the dimensions, so that is required away; a PNG datastream begins
/// with the fixed 8-byte signature. The png writer's only failure
/// paths are a zero width or height, a colour/bit-depth combination it
/// refuses (8-bit RGBA is not one), and errors of the underlying
/// writer, which an in-memory vector cannot produce - so for positive
/// dimensions the call succeeds.
#[verifier::external_body]
fn encode_png_bytes(rgba: &Vec<u8>, width: u32, height: u32) -> (r: Result<Vec<u8>, String>)
    requires
        rgba@.len() == width as int * height as int * 4,
    ensures
        width >= 1 && height >= 1 ==> r is Ok,
        r matches Ok(b) ==> b@ == png_of(rgba@, width as int, height as int) && b@.len() >= 8
            && b@.subrange(0, 8) == png_signature(),
{
    let mut buffer = Vec::new();
    let encoder = image::codecs::png::PngEncoder::new(&mut buffer);
    match image::ImageEncoder::write_image(
        encoder,
        rgba,
        width,
        height,
        image::ExtendedColorType::Rgba8,
    ) {
        Ok(()) => Ok(buffer),
        Err(e) => Err(e.to_string()),
    }
}

/// Encode an RGBA buffer as PNG bytes, in memory. Succeeds on every
/// buffer with positive dimensions; a codec failure is a `WritePng`
/// stage failure, which the taxonomy maps to `Render`.
pub fn encode_png(rgba: &Vec<u8>, width: u32, height: u32) -> (r: Result<Vec<u8>, RenderError>)
    requires
        rgba@.len() == width as int * height as int * 4,
    ensures
        width >= 1 && height >= 1 ==> r is Ok,
        r matches Ok(b) ==> b@ == png_of(rgba@, width as int, height as int) && b@.len() >= 8
            && b@.subrange(0, 8) == png_signature(),
        r matches Err(e) ==> e@ matches RenderErrorV::WritePng { path } && path == "in-memory"@,
{
    match encode_png_bytes(rgba, width, height) {
        Ok(bytes) => Ok(bytes),
        Err(_) => Err(RenderError::WritePng { path: String::from_str("in-memory") }),
    }
}

} // verus!
