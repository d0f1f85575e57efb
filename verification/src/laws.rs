//! What holds of the operations taken together, proved from what each of
//! them ensures.

use crate::imaging::luma_of;
use crate::imaging::png_of;
use crate::interceptor::authorized;
use crate::interceptor::chained;
use crate::interceptor::lemma_chain_unfolds;
use crate::interceptor::logged;
use crate::interceptor::refusal;
use crate::interceptor::StageModel;
use crate::kv_store::image_response::png_content_type;
use crate::kv_store::is_image_type;
use crate::kv_store::kv_error::ErrorKind;
use crate::kv_store::kv_error::ErrorModel;
use crate::kv_store::read;
use crate::kv_store::ResponseModel;
use crate::kv_store::transformed;
use crate::kv_store::written;
use crate::log::LogEventModel;
use crate::log::repeated;
use crate::request::Operation;
use crate::request::RequestModel;
use crate::service::ConfigModel;
use crate::service::empty_reply_model;
use crate::service::handled;
use crate::service::served;
use crate::service::text_reply_model;
use crate::state::StoredValue;
use crate::state::StoreModel;
use image::DynamicImage;
use vstd::prelude::*;

verus! {

/// Raw bytes come back as they went in. On a store that is not poisoned, a
/// write under a content type that does not announce an image succeeds,
/// and a read of the same key from the store it leaves gives exactly the
/// bytes written, under the content type they were declared with.
pub proof fn lemma_raw_round_trip(
    pre: StoreModel,
    key: Seq<char>,
    content_type: Seq<char>,
    data: Seq<u8>,
    ack: Result<Seq<char>, ErrorModel>,
    post: StoreModel,
    reply: Result<ResponseModel, ErrorModel>,
)
    requires
        !pre.poisoned,
        !is_image_type(content_type),
        written(pre, key, content_type, data, ack, post),
        read(post, key, reply),
    ensures
        ack == Ok::<Seq<char>, ErrorModel>("OK"@),
        reply == Ok::<ResponseModel, ErrorModel>(ResponseModel { content_type, body: data }),
{
}

/// The same through the service: a write request whose body is within the
/// ceiling, followed by a read request for the same key.
pub proof fn lemma_served_round_trip(
    config: ConfigModel,
    pre: StoreModel,
    write: RequestModel,
    log_pre: Seq<LogEventModel>,
    ack: Result<ResponseModel, ErrorModel>,
    mid: StoreModel,
    log_mid: Seq<LogEventModel>,
    fetch: RequestModel,
    reply: Result<ResponseModel, ErrorModel>,
    post: StoreModel,
    log_post: Seq<LogEventModel>,
)
    requires
        !pre.poisoned,
        write.operation == Operation::Write,
        !is_image_type(write.content_type),
        write.body.len() <= config.max_body_size,
        fetch.operation == Operation::Read,
        fetch.key == write.key,
        fetch.body.len() <= config.max_body_size,
        served(config, pre, write, log_pre, ack, mid, log_mid),
        served(config, mid, fetch, log_mid, reply, post, log_post),
    ensures
        ack == Ok::<ResponseModel, ErrorModel>(text_reply_model("OK"@)),
        reply == Ok::<ResponseModel, ErrorModel>(
            ResponseModel { content_type: write.content_type, body: write.body },
        ),
        post == mid,
{
}

/// A key that the store does not hold is `NotFound`, for a read and for a
/// transform-read alike, unless the store is poisoned.
pub proof fn lemma_absent_key_not_found(
    store: StoreModel,
    key: Seq<char>,
    plain: Result<ResponseModel, ErrorModel>,
    gray: Result<Seq<u8>, ErrorModel>,
)
    requires
        !store.poisoned,
        !store.entries.contains_key(key),
        read(store, key, plain),
        transformed(store, key, gray),
    ensures
        plain == Err::<ResponseModel, ErrorModel>(ErrorModel::of(ErrorKind::NotFound)),
        gray == Err::<Seq<u8>, ErrorModel>(ErrorModel::of(ErrorKind::NotFound)),
{
}

/// A store that was never written to holds no key.
pub proof fn lemma_new_store_holds_nothing(
    key: Seq<char>,
    plain: Result<ResponseModel, ErrorModel>,
    gray: Result<Seq<u8>, ErrorModel>,
)
    requires
        read(StoreModel::empty(), key, plain),
        transformed(StoreModel::empty(), key, gray),
    ensures
        plain == Err::<ResponseModel, ErrorModel>(ErrorModel::of(ErrorKind::NotFound)),
        gray == Err::<Seq<u8>, ErrorModel>(ErrorModel::of(ErrorKind::NotFound)),
{
}

/// A key that was deleted is `NotFound` afterwards, whatever lay under it,
/// and so is every key once the store was cleared.
pub proof fn lemma_deleted_key_not_found(
    pre: StoreModel,
    key: Seq<char>,
    plain: Result<ResponseModel, ErrorModel>,
    gray: Result<Seq<u8>, ErrorModel>,
    plain_after_clear: Result<ResponseModel, ErrorModel>,
    gray_after_clear: Result<Seq<u8>, ErrorModel>,
)
    requires
        !pre.poisoned,
        read(pre.delete(key), key, plain),
        transformed(pre.delete(key), key, gray),
        read(pre.clear(), key, plain_after_clear),
        transformed(pre.clear(), key, gray_after_clear),
    ensures
        plain == Err::<ResponseModel, ErrorModel>(ErrorModel::of(ErrorKind::NotFound)),
        gray == Err::<Seq<u8>, ErrorModel>(ErrorModel::of(ErrorKind::NotFound)),
        plain_after_clear == Err::<ResponseModel, ErrorModel>(
            ErrorModel::of(ErrorKind::NotFound),
        ),
        gray_after_clear == Err::<Seq<u8>, ErrorModel>(ErrorModel::of(ErrorKind::NotFound)),
{
}

/// A transform-read of a raw value is `UnsupportedOperation`.
pub proof fn lemma_transform_of_raw_unsupported(
    store: StoreModel,
    key: Seq<char>,
    gray: Result<Seq<u8>, ErrorModel>,
)
    requires
        !store.poisoned,
        store.entries.contains_key(key),
        store.entries[key] is Raw,
        transformed(store, key, gray),
    ensures
        gray == Err::<Seq<u8>, ErrorModel>(ErrorModel::of(ErrorKind::UnsupportedOperation)),
{
}

/// What was written without being declared an image cannot be transformed.
pub proof fn lemma_transform_after_raw_write(
    pre: StoreModel,
    key: Seq<char>,
    content_type: Seq<char>,
    data: Seq<u8>,
    ack: Result<Seq<char>, ErrorModel>,
    post: StoreModel,
    gray: Result<Seq<u8>, ErrorModel>,
)
    requires
        !pre.poisoned,
        !is_image_type(content_type),
        written(pre, key, content_type, data, ack, post),
        transformed(post, key, gray),
    ensures
        gray == Err::<Seq<u8>, ErrorModel>(ErrorModel::of(ErrorKind::UnsupportedOperation)),
{
}

/// Without the secret, a deletion changes nothing. An administrative
/// request whose body is within the ceiling and whose credential is
/// missing or wrong is `Unauthorized`, and leaves the store and the log as
/// they were.
pub proof fn lemma_unauthorized_deletion_changes_nothing(
    config: ConfigModel,
    pre: StoreModel,
    request: RequestModel,
    log_pre: Seq<LogEventModel>,
    reply: Result<ResponseModel, ErrorModel>,
    post: StoreModel,
    log_post: Seq<LogEventModel>,
)
    requires
        request.operation.administrative(),
        request.body.len() <= config.max_body_size,
        !authorized(request.authorization, config.admin_secret),
        served(config, pre, request, log_pre, reply, post, log_post),
    ensures
        reply == Err::<ResponseModel, ErrorModel>(ErrorModel::of(ErrorKind::Unauthorized)),
        post == pre,
        log_post == log_pre,
{
}

/// An administrative request never changes the store unless it presents
/// the secret, whatever else is wrong with it.
pub proof fn lemma_store_kept_without_secret(
    config: ConfigModel,
    pre: StoreModel,
    request: RequestModel,
    log_pre: Seq<LogEventModel>,
    reply: Result<ResponseModel, ErrorModel>,
    post: StoreModel,
    log_post: Seq<LogEventModel>,
)
    requires
        request.operation.administrative(),
        !authorized(request.authorization, config.admin_secret),
        served(config, pre, request, log_pre, reply, post, log_post),
    ensures
        reply is Err,
        post == pre,
{
}

/// With the secret, delete-one removes its key and nothing else: a read of
/// that key from the store it leaves is `NotFound`, and every other key
/// holds what it held.
pub proof fn lemma_authorized_delete_one(
    config: ConfigModel,
    pre: StoreModel,
    request: RequestModel,
    log_pre: Seq<LogEventModel>,
    reply: Result<ResponseModel, ErrorModel>,
    post: StoreModel,
    log_post: Seq<LogEventModel>,
    plain: Result<ResponseModel, ErrorModel>,
)
    requires
        !pre.poisoned,
        request.operation == Operation::DeleteOne,
        request.body.len() <= config.max_body_size,
        authorized(request.authorization, config.admin_secret),
        served(config, pre, request, log_pre, reply, post, log_post),
        read(post, request.key, plain),
    ensures
        reply == Ok::<ResponseModel, ErrorModel>(empty_reply_model()),
        post.entries == pre.entries.remove(request.key),
        plain == Err::<ResponseModel, ErrorModel>(ErrorModel::of(ErrorKind::NotFound)),
{
}

/// With the secret, delete-all removes every key: a read of any key from
/// the store it leaves is `NotFound`.
pub proof fn lemma_authorized_delete_all(
    config: ConfigModel,
    pre: StoreModel,
    request: RequestModel,
    log_pre: Seq<LogEventModel>,
    reply: Result<ResponseModel, ErrorModel>,
    post: StoreModel,
    log_post: Seq<LogEventModel>,
    key: Seq<char>,
    plain: Result<ResponseModel, ErrorModel>,
)
    requires
        !pre.poisoned,
        request.operation == Operation::DeleteAll,
        request.body.len() <= config.max_body_size,
        authorized(request.authorization, config.admin_secret),
        served(config, pre, request, log_pre, reply, post, log_post),
        read(post, key, plain),
    ensures
        reply == Ok::<ResponseModel, ErrorModel>(empty_reply_model()),
        post == StoreModel::empty(),
        plain == Err::<ResponseModel, ErrorModel>(ErrorModel::of(ErrorKind::NotFound)),
{
}

/// Reads of one value agree: any two reads of the same key from the same
/// store succeed with the same bytes and content type, be the value raw or
/// a picture that the encoder can write. A read takes the store by shared
/// reference, so any number of them may run at once, and none while a
/// write holds the store.
pub proof fn lemma_reads_agree(
    store: StoreModel,
    key: Seq<char>,
    first: Result<ResponseModel, ErrorModel>,
    second: Result<ResponseModel, ErrorModel>,
)
    requires
        !store.poisoned,
        store.entries.contains_key(key),
        store.entries[key] matches StoredValue::Image(picture) ==> png_of(picture) is Some,
        read(store, key, first),
        read(store, key, second),
    ensures
        first is Ok,
        first == second,
{
}

/// A plain read never alters a picture: what it replies is the PNG
/// encoding of the stored picture itself, with no conversion before it,
/// announced as PNG.
pub proof fn lemma_plain_read_encodes_the_stored_picture(
    store: StoreModel,
    key: Seq<char>,
    picture: DynamicImage,
    bytes: Seq<u8>,
    reply: Result<ResponseModel, ErrorModel>,
)
    requires
        !store.poisoned,
        store.entries.contains_key(key),
        store.entries[key] == StoredValue::Image(picture),
        png_of(picture) == Some(bytes),
        read(store, key, reply),
    ensures
        reply == Ok::<ResponseModel, ErrorModel>(
            ResponseModel { content_type: png_content_type(), body: bytes },
        ),
{
}

/// A picture that was written is the picture that is read: after a write
/// under a content type that announces an image has succeeded, the key
/// holds a picture, and a read replies the PNG encoding of that picture
/// or, where the encoder fails on it, `EncodingFailed`.
pub proof fn lemma_image_write_then_read(
    pre: StoreModel,
    key: Seq<char>,
    content_type: Seq<char>,
    data: Seq<u8>,
    ack: Result<Seq<char>, ErrorModel>,
    post: StoreModel,
    reply: Result<ResponseModel, ErrorModel>,
)
    requires
        is_image_type(content_type),
        ack is Ok,
        written(pre, key, content_type, data, ack, post),
        read(post, key, reply),
    ensures
        post.entries.contains_key(key),
        post.entries[key] matches StoredValue::Image(picture) && match png_of(picture) {
            Some(bytes) => reply == Ok::<ResponseModel, ErrorModel>(
                ResponseModel { content_type: png_content_type(), body: bytes },
            ),
            None => reply matches Err(error) && error.kind == ErrorKind::EncodingFailed,
        },
{
}

/// A transform-read replies the PNG encoding of the luma conversion of the
/// stored picture, each time from the picture as it was stored.
pub proof fn lemma_transform_encodes_the_luma(
    store: StoreModel,
    key: Seq<char>,
    picture: DynamicImage,
    bytes: Seq<u8>,
    gray: Result<Seq<u8>, ErrorModel>,
    again: Result<Seq<u8>, ErrorModel>,
)
    requires
        !store.poisoned,
        store.entries.contains_key(key),
        store.entries[key] == StoredValue::Image(picture),
        png_of(luma_of(picture)) == Some(bytes),
        transformed(store, key, gray),
        transformed(store, key, again),
    ensures
        gray == Ok::<Seq<u8>, ErrorModel>(bytes),
        again == gray,
{
}

/// A read sees a whole value: after a write of raw bytes, a read of the
/// key gives the new bytes, and a read of any other key gives what a read
/// before the write would have given.
pub proof fn lemma_write_touches_one_key(
    pre: StoreModel,
    key: Seq<char>,
    content_type: Seq<char>,
    data: Seq<u8>,
    ack: Result<Seq<char>, ErrorModel>,
    post: StoreModel,
    other: Seq<char>,
    reply: Result<ResponseModel, ErrorModel>,
)
    requires
        other != key,
        written(pre, key, content_type, data, ack, post),
        read(post, other, reply),
    ensures
        read(pre, other, reply),
{
}

/// A poisoned store refuses every access and stays as it is.
pub proof fn lemma_poisoned_store_refuses(store: StoreModel, key: Seq<char>, value: StoredValue)
    requires
        store.poisoned,
    ensures
        store.guard() == Err::<(), ErrorModel>(ErrorModel::of(ErrorKind::LockPoisoned)),
        store.get(key) == Err::<StoredValue, ErrorModel>(
            ErrorModel::of(ErrorKind::LockPoisoned),
        ),
        store.put(key, value) == store,
        store.delete(key) == store,
        store.clear() == store,
        store.poison() == store,
{
}

/// Poisoning is for good: the store that a failed write leaves is
/// poisoned, with the entries it had.
pub proof fn lemma_poison_marks_store(store: StoreModel)
    ensures
        store.poison().poisoned,
        store.poison().entries == store.entries,
{
}

/// Once the store is poisoned, every operation that reaches it fails with
/// `LockPoisoned` and leaves it as it is. A write that declares an image
/// is left out: its body is decoded before the store is asked, see
/// `lemma_poisoned_store_refuses_image_write`.
pub proof fn lemma_poisoned_store_fails_operations(
    pre: StoreModel,
    request: RequestModel,
    reply: Result<ResponseModel, ErrorModel>,
    post: StoreModel,
)
    requires
        pre.poisoned,
        !(request.operation == Operation::Write && is_image_type(request.content_type)),
        handled(pre, request, reply, post),
    ensures
        reply == Err::<ResponseModel, ErrorModel>(ErrorModel::of(ErrorKind::LockPoisoned)),
        post == pre,
{
}

/// On a poisoned store a write that declares an image fails too, and
/// leaves the store as it is: with `UnsupportedContent` where the decoder
/// refuses the body, with `LockPoisoned` where it does not.
pub proof fn lemma_poisoned_store_refuses_image_write(
    pre: StoreModel,
    request: RequestModel,
    reply: Result<ResponseModel, ErrorModel>,
    post: StoreModel,
)
    requires
        pre.poisoned,
        request.operation == Operation::Write,
        handled(pre, request, reply, post),
    ensures
        post == pre,
        reply matches Err(error) && (error.kind == ErrorKind::UnsupportedContent || error
            == ErrorModel::of(ErrorKind::LockPoisoned)),
{
}

/// Neither read changes the store: a transform-read works on the picture
/// as it was stored, however often it is asked for, and a plain read after
/// it finds that picture untransformed.
pub proof fn lemma_reads_change_nothing(
    pre: StoreModel,
    request: RequestModel,
    reply: Result<ResponseModel, ErrorModel>,
    post: StoreModel,
)
    requires
        request.operation == Operation::Read || request.operation == Operation::Transform,
        handled(pre, request, reply, post),
    ensures
        post == pre,
{
}

/// What lies under a key changes only by a write to that key, a deletion
/// of it, or a deletion of everything: every other operation leaves the
/// key absent if it was absent, and with the value and the tag it had if
/// it was present.
pub proof fn lemma_value_changes_only_by_its_key(
    pre: StoreModel,
    request: RequestModel,
    reply: Result<ResponseModel, ErrorModel>,
    post: StoreModel,
    key: Seq<char>,
)
    requires
        handled(pre, request, reply, post),
        !(request.operation == Operation::Write && request.key == key),
        !(request.operation == Operation::DeleteOne && request.key == key),
        request.operation != Operation::DeleteAll,
    ensures
        post.entries.contains_key(key) == pre.entries.contains_key(key),
        pre.entries.contains_key(key) ==> post.entries[key] == pre.entries[key],
{
}

/// No operation poisons the store or heals it.
pub proof fn lemma_operations_keep_poison(
    pre: StoreModel,
    request: RequestModel,
    reply: Result<ResponseModel, ErrorModel>,
    post: StoreModel,
)
    requires
        handled(pre, request, reply, post),
    ensures
        post.poisoned == pre.poisoned,
{
}

/// A request that a stage refuses changes nothing in the store, whatever
/// the stages are and wherever the refusing stage stands: the stages
/// inside it and the handler never run.
pub proof fn lemma_refused_request_changes_nothing(
    stages: Seq<StageModel>,
    pre: StoreModel,
    request: RequestModel,
    log_pre: Seq<LogEventModel>,
    reply: Result<ResponseModel, ErrorModel>,
    post: StoreModel,
    log_post: Seq<LogEventModel>,
)
    requires
        refusal(stages, request) is Some,
        chained(stages, pre, request, log_pre, reply, post, log_post),
    ensures
        post == pre,
        reply == Err::<ResponseModel, ErrorModel>(ErrorModel::of(refusal(stages, request)->0)),
{
    lemma_chain_unfolds(stages, pre, request, log_pre, reply, post, log_post);
}

/// The log of one request is its entries followed by as many exits: every
/// logger that recorded the entry records the exit, after the reply of
/// what is inside it and whether that reply is a failure or not, and no
/// exit comes before an entry.
pub proof fn lemma_every_entry_has_its_exit(
    stages: Seq<StageModel>,
    pre: StoreModel,
    request: RequestModel,
    log_pre: Seq<LogEventModel>,
    reply: Result<ResponseModel, ErrorModel>,
    post: StoreModel,
    log_post: Seq<LogEventModel>,
)
    requires
        chained(stages, pre, request, log_pre, reply, post, log_post),
    ensures
        log_post == log_pre + repeated(LogEventModel::entry(request), logged(stages, request))
            + repeated(LogEventModel::exit(request), logged(stages, request)),
{
    lemma_chain_unfolds(stages, pre, request, log_pre, reply, post, log_post);
}

} // verus!
