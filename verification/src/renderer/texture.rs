//! Texture decoding boundary.
//!
//! Decoding encoded image bytes into raw RGBA texels is the job of an outside
//! decoder; the verified code treats the outcome as a pure function of the
//! bytes, named by [`decode_rgba_spec`].

use vstd::prelude::*;

verus! {

/// The outcome of decoding a byte string: `Some((width, height, rgba))` for a
/// well-formed encoded image, `None` otherwise. The decoder determines which
/// byte strings are well formed; the outcome depends on the bytes alone.
pub uninterp spec fn decode_rgba_spec(bytes: Seq<u8>) -> Option<(u32, u32, Seq<u8>)>;

/// A decoded image: dimensions in texels and tightly packed 8-bit RGBA texels,
/// row by row.
#[derive(Debug)]
pub struct TextureImage {
    pub width: u32,
    pub height: u32,
    pub rgba: Vec<u8>,
}

/// Relies on `image::load_from_memory` and `DynamicImage::to_rgba8`: decoding
/// guesses the format from the bytes alone and yields an RGBA buffer whose
/// length is `4 * width * height`.
#[verifier::external_body]
pub fn decode_rgba(bytes: &Vec<u8>) -> (decoded: Option<TextureImage>)
    ensures
        (decoded is Some) == (decode_rgba_spec(bytes@) is Some),
        decoded matches Some(img) ==> decode_rgba_spec(bytes@) == Some(
            (img.width, img.height, img.rgba@),
        ),
        decoded matches Some(img) ==> img.rgba@.len() == 4 * img.width * img.height,
{
    match image::load_from_memory(bytes.as_slice()) {
        Ok(decoded) => {
            let rgba = decoded.to_rgba8();
            let (width, height) = rgba.dimensions();
            Some(TextureImage { width, height, rgba: rgba.into_raw() })
        },
        Err(_) => None,
    }
}

} // verus!
