//! Turning the surface's encoded screenshot into an RGBA tile.
use vstd::prelude::*;

use crate::compositor::{rgba_len, RawImage};
use crate::session::SurfaceError;

verus! {

#[verifier::external_type_specification]
#[verifier::external_body]
pub struct ExImageError(image::ImageError);

/// Width, height and RGBA bytes of the image encoded in `bytes`, or `None`
/// where the bytes hold no image that the decoder reads.
pub uninterp spec fn decoded_rgba(bytes: Seq<u8>) -> Option<(u32, u32, Seq<u8>)>;

/// Relies on image::load_from_memory, which guesses the format from the
/// bytes and decodes them, and on DynamicImage::to_rgba8, whose buffer holds
/// four bytes for each pixel.
#[verifier::external_body]
fn load_rgba(bytes: &[u8]) -> (r: Result<(u32, u32, Vec<u8>), image::ImageError>)
    ensures
        match r {
            Ok((width, height, pixels)) => {
                &&& decoded_rgba(bytes@) == Some((width, height, pixels@))
                &&& pixels@.len() == rgba_len(width as nat, height as nat)
            },
            Err(_) => decoded_rgba(bytes@) is None,
        },
{
    let rgba = image::load_from_memory(bytes)?.to_rgba8();
    let (width, height) = rgba.dimensions();
    Ok((width, height, rgba.into_raw()))
}

/// Decodes an encoded screenshot (PNG, for instance) into an RGBA image.
pub fn decode_tile(encoded: &[u8]) -> (r: Result<RawImage, SurfaceError>)
    ensures
        match r {
            Ok(image) => {
                &&& image.wf()
                &&& decoded_rgba(encoded@) == Some((image.width, image.height, image.pixels@))
            },
            Err(e) => decoded_rgba(encoded@) is None && e is Undecodable,
        },
{
    match load_rgba(encoded) {
        Ok((width, height, pixels)) => Ok(RawImage { width, height, pixels }),
        Err(_) => Err(SurfaceError::Undecodable),
    }
}

} // verus!
