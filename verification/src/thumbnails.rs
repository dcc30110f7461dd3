//! Thumbnails: the bytes of a fetched poster, decoded to pixels for the
//! window, or marked as failed.

use vstd::prelude::*;

verus! {

/// An image decoded to 8-bit RGBA pixels, row by row.
#[derive(Debug, Clone)]
pub struct DecodedImage {
    pub width: u32,
    pub height: u32,
    pub rgba: Vec<u8>,
}

/// What `image::load_from_memory` and `DynamicImage::to_rgba8` make of
/// `bytes`: the width, height and RGBA pixels, or nothing where the bytes
/// are no image that the crate reads.
pub uninterp spec fn rgba_of(bytes: Seq<u8>) -> Option<(u32, u32, Seq<u8>)>;

/// Decodes `bytes` with the `image` crate (`load_from_memory`, which
/// guesses the format, then `to_rgba8`). The contract only names the
/// result: it depends on the bytes alone.
#[verifier::external_body]
fn decode_rgba(bytes: &[u8]) -> (r: Option<DecodedImage>)
    ensures
        rgba_of(bytes@) == match r {
            Some(d) => Some((d.width, d.height, d.rgba@)),
            None => None,
        },
{
    match image::load_from_memory(bytes) {
        Ok(decoded) => {
            let rgba = decoded.to_rgba8();
            let (width, height) = rgba.dimensions();
            Some(DecodedImage { width, height, rgba: rgba.into_raw() })
        },
        Err(_) => None,
    }
}

/// What became of a fetched thumbnail.
#[derive(Debug, Clone)]
pub enum ThumbnailOutcome {
    /// Its pixels, to be shown.
    Ready(DecodedImage),
    /// The bytes were no image: the thumbnail is not asked for again.
    Failed,
}

/// The thumbnail whose bytes `bytes` arrived: shown where they decode,
/// failed where they do not.
pub fn thumbnail_outcome(bytes: &Vec<u8>) -> (r: ThumbnailOutcome)
    ensures
        match r {
            ThumbnailOutcome::Ready(d) => rgba_of(bytes@) == Some((d.width, d.height, d.rgba@)),
            ThumbnailOutcome::Failed => rgba_of(bytes@) is None,
        },
{
    match decode_rgba(bytes.as_slice()) {
        Some(d) => ThumbnailOutcome::Ready(d),
        None => ThumbnailOutcome::Failed,
    }
}

} // verus!
