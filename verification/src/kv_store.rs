//! The operations on the store: write, read, transform-read and the two
//! deletions.

pub mod image_response;
pub mod kv_error;

use crate::imaging::decode_image;
use crate::imaging::image_failure;
use crate::imaging::ImageFailure;
use crate::imaging::luma_image;
use crate::imaging::luma_of;
use crate::imaging::png_of;
use crate::kv_store::image_response::encoded;
use crate::kv_store::image_response::ImageResponse;
use crate::kv_store::image_response::png_content_type;
use crate::kv_store::kv_error::ErrorKind;
use crate::kv_store::kv_error::ErrorModel;
use crate::kv_store::kv_error::KVError;
use crate::kv_store::kv_error::outcome;
use crate::state::AppState;
use crate::state::StoredType;
use crate::state::StoredValue;
use crate::state::StoreModel;
use crate::text::starts_with;
use image::DynamicImage;
use vstd::prelude::*;

verus! {

/// Whether a declared content type announces an image: it begins with
/// `image`. The bytes themselves are never looked at for this.
pub open spec fn is_image_type(content_type: Seq<char>) -> bool {
    "image"@.is_prefix_of(content_type)
}

/// A value read from the store, with the content type to announce.
#[derive(Debug)]
pub struct Response {
    pub content_type: String,
    pub body: Vec<u8>,
}

/// What contracts see of a `Response`.
pub struct ResponseModel {
    pub content_type: Seq<char>,
    pub body: Seq<u8>,
}

impl View for Response {
    type V = ResponseModel;

    open spec fn view(&self) -> ResponseModel {
        ResponseModel { content_type: self.content_type@, body: self.body@ }
    }
}

/// The value to store for what the decoder gave: the picture, or
/// `UnsupportedContent` with the decoder's text where it gave one.
pub fn classify_decoded(decoded: Result<DynamicImage, ImageFailure>) -> (outcome: Result<
    StoredType,
    KVError,
>)
    ensures
        match decoded {
            Ok(picture) => outcome matches Ok(value) && value@ == StoredValue::Image(picture),
            Err(failure) => outcome matches Err(error) && error@ == ErrorModel::of_failure(
                ErrorKind::UnsupportedContent,
                failure,
            ),
        },
{
    match decoded {
        Ok(picture) => Ok(StoredType::Image(picture)),
        Err(failure) => Err(KVError::of_failure(ErrorKind::UnsupportedContent, failure)),
    }
}

/// What `get_stored_type` may give for a declared content type and a body.
/// A body not declared as an image is kept as it is, under its content
/// type. One declared as an image is decoded, and either becomes a picture
/// or is refused as `UnsupportedContent`: the decoder decides which.
pub open spec fn classified(
    content_type: Seq<char>,
    data: Seq<u8>,
    outcome: Result<StoredType, KVError>,
) -> bool {
    if is_image_type(content_type) {
        match outcome {
            Ok(value) => value@ is Image,
            Err(error) => error@.kind == ErrorKind::UnsupportedContent,
        }
    } else {
        outcome matches Ok(value) && value@ == (StoredValue::Raw { content_type, bytes: data })
    }
}

/// Decides by the declared content type alone how a body is stored.
pub fn get_stored_type(content_type: &str, data: Vec<u8>) -> (outcome: Result<StoredType, KVError>)
    ensures
        classified(content_type@, data@, outcome),
{
    if starts_with(content_type, "image") {
        match decode_image(&data) {
            Ok(picture) => classify_decoded(Ok(picture)),
            Err(error) => classify_decoded(Err(image_failure(error))),
        }
    } else {
        Ok(StoredType::Other { content_type: content_type.to_owned(), bytes: data })
    }
}

/// What a write may do to the store and reply. It stores the classified
/// value under the key, in place of what was there, and acknowledges with
/// `OK`. A body that was declared as an image and refused by the decoder is
/// `UnsupportedContent`, and this is found before the store is asked; a
/// poisoned store is `LockPoisoned`. The store stays as it was on either
/// failure.
pub open spec fn written(
    pre: StoreModel,
    key: Seq<char>,
    content_type: Seq<char>,
    data: Seq<u8>,
    reply: Result<Seq<char>, ErrorModel>,
    post: StoreModel,
) -> bool {
    if is_image_type(content_type) {
        match reply {
            Ok(ack) => {
                &&& ack == "OK"@
                &&& !pre.poisoned
                &&& post.entries.contains_key(key)
                &&& post.entries[key] is Image
                &&& post == pre.with(key, post.entries[key])
            },
            Err(error) => {
                &&& post == pre
                &&& error.kind != ErrorKind::UnsupportedContent ==> Err::<(), ErrorModel>(error)
                    == pre.guard()
            },
        }
    } else {
        &&& post == pre.put(key, StoredValue::Raw { content_type, bytes: data })
        &&& reply == match pre.guard() {
            Ok(_) => Ok("OK"@),
            Err(error) => Err(error),
        }
    }
}

/// Puts a classified value under `key` and acknowledges with `OK`. Only a
/// poisoned store refuses, and then stays as it was.
pub fn store_value(state: &mut AppState, key: String, value: StoredType) -> (reply: Result<
    String,
    KVError,
>)
    ensures
        final(state)@ == old(state)@.put(key@, value@),
        outcome(reply) == match old(state)@.guard() {
            Ok(_) => Ok("OK"@),
            Err(error) => Err(error),
        },
{
    state.put(key, value)?;
    Ok("OK".to_owned())
}

/// Write: classifies the body by its declared content type and stores it
/// under `key`.
pub fn post_kv(state: &mut AppState, key: String, content_type: &str, data: Vec<u8>) -> (reply:
    Result<String, KVError>)
    ensures
        written(old(state)@, key@, content_type@, data@, outcome(reply), final(state)@),
{
    let stored = get_stored_type(content_type, data)?;
    store_value(state, key, stored)
}

/// The reply to a plain read of a picture: its PNG bytes, announced as PNG.
pub fn picture_reply(picture: ImageResponse) -> (reply: Response)
    ensures
        reply@ == (ResponseModel { content_type: png_content_type(), body: picture@ }),
{
    let content_type = picture.content_type();
    Response { content_type, body: picture.into_bytes() }
}

/// What a read replies. A raw value comes back byte for byte, under the
/// content type it was written with. A picture comes back as the PNG
/// encoding of the stored picture itself, announced as PNG, or as
/// `EncodingFailed` where the encoder fails on it. An absent key is
/// `NotFound`, a poisoned store `LockPoisoned`.
pub open spec fn read(
    store: StoreModel,
    key: Seq<char>,
    reply: Result<ResponseModel, ErrorModel>,
) -> bool {
    match store.get(key) {
        Err(error) => reply == Err::<ResponseModel, ErrorModel>(error),
        Ok(StoredValue::Raw { content_type, bytes }) => reply == Ok::<ResponseModel, ErrorModel>(
            ResponseModel { content_type, body: bytes },
        ),
        Ok(StoredValue::Image(picture)) => match png_of(picture) {
            Some(bytes) => reply == Ok::<ResponseModel, ErrorModel>(
                ResponseModel { content_type: png_content_type(), body: bytes },
            ),
            None => reply matches Err(error) && error.kind == ErrorKind::EncodingFailed,
        },
    }
}

/// Read: the value under `key` in its stored form. A picture is encoded and
/// never transformed.
pub fn get_kv(state: &AppState, key: &str) -> (reply: Result<Response, KVError>)
    ensures
        read(state@, key@, outcome(reply)),
{
    match state.get(key)? {
        StoredType::Image(picture) => Ok(picture_reply(ImageResponse::try_from(picture)?)),
        StoredType::Other { content_type, bytes } => Ok(
            Response { content_type: content_type.clone(), body: bytes.clone() },
        ),
    }
}

/// What a transform-read replies. A picture comes back as the PNG
/// encoding of the luma conversion of the stored picture, or as
/// `EncodingFailed` where the encoder fails on it. A raw value is
/// `UnsupportedOperation`, an absent key `NotFound`, a poisoned store
/// `LockPoisoned`.
pub open spec fn transformed(
    store: StoreModel,
    key: Seq<char>,
    reply: Result<Seq<u8>, ErrorModel>,
) -> bool {
    match store.get(key) {
        Err(error) => reply == Err::<Seq<u8>, ErrorModel>(error),
        Ok(StoredValue::Raw { .. }) => reply == Err::<Seq<u8>, ErrorModel>(
            ErrorModel::of(ErrorKind::UnsupportedOperation),
        ),
        Ok(StoredValue::Image(picture)) => encoded(luma_of(picture), reply),
    }
}

/// Transform-read: the picture under `key`, converted to luma and encoded
/// as PNG. The stored picture is left as it is.
pub fn grayscale(state: &AppState, key: &str) -> (reply: Result<ImageResponse, KVError>)
    ensures
        transformed(state@, key@, outcome(reply)),
{
    match state.get(key)? {
        StoredType::Image(picture) => {
            let gray = luma_image(picture);
            ImageResponse::try_from(&gray)
        },
        StoredType::Other { .. } => Err(KVError::of(ErrorKind::UnsupportedOperation)),
    }
}

/// Delete-one: removes what lies under `key`. An absent key is no error;
/// only a poisoned store refuses, and then stays as it was.
pub fn delete_kv(state: &mut AppState, key: &str) -> (reply: Result<(), KVError>)
    ensures
        outcome(reply) == old(state)@.guard(),
        final(state)@ == old(state)@.delete(key@),
{
    state.delete(key)
}

/// Delete-all: empties the store. Only a poisoned store refuses, and then
/// stays as it was.
pub fn delete_all_kv(state: &mut AppState) -> (reply: Result<(), KVError>)
    ensures
        outcome(reply) == old(state)@.guard(),
        final(state)@ == old(state)@.clear(),
{
    state.clear()
}

} // verus!
