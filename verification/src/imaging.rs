//! The boundary to the `image` crate: decoding, luma conversion and PNG
//! encoding are done there, and nothing in this library looks inside a
//! decoded picture. What the conversion and the encoder make of a picture
//! depends on the picture alone, so each has a name that contracts can
//! speak of; what the decoder makes of a body has none.

use image::DynamicImage;
use image::ImageError;
use image::ImageOutputFormat;
use std::io::Cursor;
use vstd::prelude::*;

verus! {

/// A decoded picture of the `image` crate, carried through the store as an
/// opaque value.
#[verifier::external_type_specification]
#[verifier::external_body]
pub struct ExDynamicImage(DynamicImage);

/// The error type of the `image` crate's decoders and encoders.
#[verifier::external_type_specification]
#[verifier::external_body]
pub struct ExImageError(ImageError);

/// What this library keeps of an `image::ImageError`: which of its
/// variants it was, and for the two that wrap a printable cause, the text
/// of that cause.
#[derive(Debug)]
pub enum ImageFailure {
    Decoding,
    Encoding,
    Parameter,
    Limits,
    Unsupported(String),
    Io(String),
}

/// The picture that `DynamicImage::grayscale` makes of a picture.
pub uninterp spec fn luma_of(picture: DynamicImage) -> DynamicImage;

/// The bytes that `DynamicImage::write_to` writes of a picture in the PNG
/// format, or `None` where it fails.
pub uninterp spec fn png_of(picture: DynamicImage) -> Option<Seq<u8>>;

/// Calls `image::load_from_memory`. Nothing is claimed of the outcome: the
/// crate guesses the format from the bytes and may decode with code paths
/// chosen per machine.
#[verifier::external_body]
pub(crate) fn decode_image(data: &Vec<u8>) -> (decoded: Result<DynamicImage, ImageError>) {
    image::load_from_memory(data)
}

/// Calls `DynamicImage::grayscale`, the crate's luma conversion. The
/// contract claims that the picture that comes back depends on the picture
/// handed in and on nothing else, and so gives it its name.
#[verifier::external_body]
pub(crate) fn luma_image(picture: &DynamicImage) -> (gray: DynamicImage)
    ensures
        gray == luma_of(*picture),
{
    picture.grayscale()
}

/// Calls `DynamicImage::write_to` with the PNG output format on a buffer in
/// memory, and hands back the bytes written. The contract claims that
/// whether the encoder succeeds, and the bytes that it writes where it
/// does, depend on the picture and on nothing else, and so gives them
/// their name.
#[verifier::external_body]
pub(crate) fn encode_png(picture: &DynamicImage) -> (encoded: Result<Vec<u8>, ImageError>)
    ensures
        match encoded {
            Ok(bytes) => png_of(*picture) == Some(bytes@),
            Err(_) => png_of(*picture) is None,
        },
{
    let mut bytes: Vec<u8> = Vec::new();
    picture.write_to(&mut Cursor::new(&mut bytes), ImageOutputFormat::Png)?;
    Ok(bytes)
}

/// Tells the variants of `image::ImageError` apart, one for one, and for
/// the two that wrap a printable cause takes its `Display` text.
#[verifier::external_body]
pub(crate) fn image_failure(error: ImageError) -> (failure: ImageFailure) {
    match error {
        ImageError::Decoding(_) => ImageFailure::Decoding,
        ImageError::Encoding(_) => ImageFailure::Encoding,
        ImageError::Parameter(_) => ImageFailure::Parameter,
        ImageError::Limits(_) => ImageFailure::Limits,
        ImageError::Unsupported(cause) => ImageFailure::Unsupported(cause.to_string()),
        ImageError::IoError(cause) => ImageFailure::Io(cause.to_string()),
    }
}

} // verus!
