//! The reply that carries a picture: always PNG, whatever format the
//! picture came in.

use crate::imaging::encode_png;
use crate::imaging::image_failure;
use crate::imaging::ImageFailure;
use crate::imaging::png_of;
use crate::kv_store::kv_error::ErrorKind;
use crate::kv_store::kv_error::ErrorModel;
use crate::kv_store::kv_error::KVError;
use crate::kv_store::kv_error::outcome;
use image::DynamicImage;
use vstd::prelude::*;

verus! {

/// The bytes of a PNG file, to be sent as `image/png`.
#[derive(Debug)]
pub struct ImageResponse(pub Vec<u8>);

impl View for ImageResponse {
    type V = Seq<u8>;

    open spec fn view(&self) -> Seq<u8> {
        self.0@
    }
}

/// The content type under which every picture leaves the service.
pub open spec fn png_content_type() -> Seq<char> {
    "image/png"@
}

/// What encoding a picture as PNG replies: the bytes that the encoder
/// writes of it, or `EncodingFailed` where the encoder fails.
pub open spec fn encoded(picture: DynamicImage, reply: Result<Seq<u8>, ErrorModel>) -> bool {
    match png_of(picture) {
        Some(bytes) => reply == Ok::<Seq<u8>, ErrorModel>(bytes),
        None => reply matches Err(error) && error.kind == ErrorKind::EncodingFailed,
    }
}

impl ImageResponse {
    pub fn new(bytes: Vec<u8>) -> (response: Self)
        ensures
            response@ == bytes@,
    {
        ImageResponse(bytes)
    }

    pub fn into_bytes(self) -> (bytes: Vec<u8>)
        ensures
            bytes@ == self@,
    {
        self.0
    }

    pub fn content_type(&self) -> (declared: String)
        ensures
            declared@ == png_content_type(),
    {
        "image/png".to_owned()
    }

    /// The reply for what the encoder gave: its bytes unchanged, or
    /// `EncodingFailed` with the encoder's text where it gave one.
    pub fn from_encoded(encoded: Result<Vec<u8>, ImageFailure>) -> (reply: Result<Self, KVError>)
        ensures
            match encoded {
                Ok(bytes) => reply matches Ok(response) && response@ == bytes@,
                Err(failure) => reply matches Err(error) && error@ == ErrorModel::of_failure(
                    ErrorKind::EncodingFailed,
                    failure,
                ),
            },
    {
        match encoded {
            Ok(bytes) => Ok(ImageResponse::new(bytes)),
            Err(failure) => Err(KVError::of_failure(ErrorKind::EncodingFailed, failure)),
        }
    }

    /// Encodes `picture` as PNG: the bytes that the encoder writes of it,
    /// or `EncodingFailed` where the encoder fails.
    pub fn try_from(picture: &DynamicImage) -> (reply: Result<Self, KVError>)
        ensures
            encoded(*picture, outcome(reply)),
    {
        match encode_png(picture) {
            Ok(bytes) => ImageResponse::from_encoded(Ok(bytes)),
            Err(error) => ImageResponse::from_encoded(Err(image_failure(error))),
        }
    }
}

} // verus!
