//! The service: the handler that performs what a request names, and the
//! stages that the service puts around it.

use crate::interceptor::authorized;
use crate::interceptor::chained;
use crate::interceptor::enter;
use crate::interceptor::leave;
use crate::interceptor::lemma_chain_unfolds;
use crate::interceptor::logged;
use crate::interceptor::refusal;
use crate::interceptor::refused;
use crate::interceptor::Stage;
use crate::interceptor::stage_models;
use crate::interceptor::StageModel;
use crate::kv_store::delete_all_kv;
use crate::kv_store::delete_kv;
use crate::kv_store::get_kv;
use crate::kv_store::grayscale;
use crate::kv_store::image_response::png_content_type;
use crate::kv_store::kv_error::ErrorKind;
use crate::kv_store::kv_error::ErrorModel;
use crate::kv_store::kv_error::KVError;
use crate::kv_store::kv_error::outcome;
use crate::kv_store::picture_reply;
use crate::kv_store::post_kv;
use crate::kv_store::read;
use crate::kv_store::Response;
use crate::kv_store::ResponseModel;
use crate::kv_store::transformed;
use crate::kv_store::written;
use crate::log::log_model;
use crate::log::LogEvent;
use crate::log::LogEventModel;
use crate::log::repeated;
use crate::log::Verbosity;
use crate::request::Operation;
use crate::request::Request;
use crate::request::RequestModel;
use crate::state::AppState;
use crate::state::StoreModel;
use vstd::prelude::*;
use vstd::string::StrSliceExecFns;
use vstd::utf8::encode_utf8;

verus! {

/// The reply that carries a text: its bytes in UTF-8.
pub open spec fn text_reply_model(text: Seq<char>) -> ResponseModel {
    ResponseModel { content_type: "text/plain; charset=utf-8"@, body: encode_utf8(text) }
}

/// The reply that carries nothing: no content type and no body.
pub open spec fn empty_reply_model() -> ResponseModel {
    ResponseModel { content_type: Seq::empty(), body: Seq::empty() }
}

/// The reply that carries `text`.
pub fn text_reply(text: String) -> (reply: Response)
    ensures
        reply@ == text_reply_model(text@),
{
    Response {
        content_type: "text/plain; charset=utf-8".to_owned(),
        body: text.as_str().as_bytes_vec(),
    }
}

/// The reply that carries nothing.
pub fn empty_reply() -> (reply: Response)
    ensures
        reply@ == empty_reply_model(),
{
    Response { content_type: String::new(), body: Vec::new() }
}

/// What the handler of a request may do to the store and reply: what the
/// operation of that name does, its reply brought into the form of a
/// `Response`. A write acknowledges with the text `OK`, a deletion with the
/// empty reply; neither read changes the store.
pub open spec fn handled(
    pre: StoreModel,
    request: RequestModel,
    reply: Result<ResponseModel, ErrorModel>,
    post: StoreModel,
) -> bool {
    match request.operation {
        Operation::Write => {
            &&& written(
                pre,
                request.key,
                request.content_type,
                request.body,
                match reply {
                    Ok(_) => Ok("OK"@),
                    Err(error) => Err(error),
                },
                post,
            )
            &&& reply matches Ok(response) ==> response == text_reply_model("OK"@)
        },
        Operation::Read => {
            &&& post == pre
            &&& read(pre, request.key, reply)
        },
        Operation::Transform => {
            &&& post == pre
            &&& transformed(
                pre,
                request.key,
                match reply {
                    Ok(response) => Ok(response.body),
                    Err(error) => Err(error),
                },
            )
            &&& reply matches Ok(response) ==> response.content_type == png_content_type()
        },
        Operation::DeleteOne => {
            &&& post == pre.delete(request.key)
            &&& reply == match pre.guard() {
                Ok(_) => Ok(empty_reply_model()),
                Err(error) => Err(error),
            }
        },
        Operation::DeleteAll => {
            &&& post == pre.clear()
            &&& reply == match pre.guard() {
                Ok(_) => Ok(empty_reply_model()),
                Err(error) => Err(error),
            }
        },
    }
}

/// The part of `handle` that only reads: a read or a transform-read, on a
/// store that is borrowed shared.
pub(crate) fn handle_read(state: &AppState, request: &Request) -> (reply: Result<
    Response,
    KVError,
>)
    requires
        request.operation == Operation::Read || request.operation == Operation::Transform,
    ensures
        handled(state@, request@, outcome(reply), state@),
{
    match request.operation {
        Operation::Transform => {
            let picture = grayscale(state, request.key.as_str())?;
            Ok(picture_reply(picture))
        },
        _ => get_kv(state, request.key.as_str()),
    }
}

/// The innermost stage: performs the operation that the request names.
pub fn handle(state: &mut AppState, request: Request) -> (reply: Result<Response, KVError>)
    ensures
        handled(old(state)@, request@, outcome(reply), final(state)@),
{
    match request.operation {
        Operation::Write => {
            let ack = post_kv(state, request.key, request.content_type.as_str(), request.body)?;
            Ok(text_reply(ack))
        },
        Operation::Read => handle_read(state, &request),
        Operation::Transform => handle_read(state, &request),
        Operation::DeleteOne => {
            delete_kv(state, request.key.as_str())?;
            Ok(empty_reply())
        },
        Operation::DeleteAll => {
            delete_all_kv(state)?;
            Ok(empty_reply())
        },
    }
}

/// Runs a request through `stages`, outermost first, and then through the
/// handler, unless a stage refuses it.
pub fn run_chain(
    stages: &Vec<Stage>,
    state: &mut AppState,
    request: Request,
    log: &mut Vec<LogEvent>,
) -> (reply: Result<Response, KVError>)
    ensures
        chained(
            stage_models(stages@),
            old(state)@,
            request@,
            log_model(old(log)@),
            outcome(reply),
            final(state)@,
            log_model(final(log)@),
        ),
{
    let ghost models = stage_models(stages@);
    let ghost asked = request@;
    let exit = LogEvent::exit(&request);
    let reply = match enter(stages, &request, log) {
        Ok(owed) => {
            let reply = handle(state, request);
            leave(owed, &exit, log);
            reply
        },
        Err(error) => Err(error),
    };
    proof {
        lemma_chain_unfolds(
            models,
            old(state)@,
            asked,
            log_model(old(log)@),
            outcome(reply),
            state@,
            log_model(log@),
        );
    }
    reply
}

/// What the service is set up with.
#[derive(Debug)]
pub struct Config {
    /// The most bytes that a body may have.
    pub max_body_size: usize,
    /// The secret that the administrative operations ask for.
    pub admin_secret: String,
    /// How much of the log is written out.
    pub verbosity: Verbosity,
}

/// What contracts see of a `Config`.
pub struct ConfigModel {
    pub max_body_size: usize,
    pub admin_secret: Seq<char>,
    pub verbosity: Verbosity,
}

impl View for Config {
    type V = ConfigModel;

    open spec fn view(&self) -> ConfigModel {
        ConfigModel {
            max_body_size: self.max_body_size,
            admin_secret: self.admin_secret@,
            verbosity: self.verbosity,
        }
    }
}

/// The stages that the service puts around an operation, outermost first:
/// the body limit, the bearer check where the operation is administrative,
/// and the logger.
pub open spec fn standard_stages(config: ConfigModel, operation: Operation) -> Seq<StageModel> {
    if operation.administrative() {
        seq![
            StageModel::BodyLimit(config.max_body_size),
            StageModel::BearerAuth(config.admin_secret),
            StageModel::Logger,
        ]
    } else {
        seq![StageModel::BodyLimit(config.max_body_size), StageModel::Logger]
    }
}

/// The stages that the service puts around an operation.
pub fn standard_chain(config: &Config, operation: Operation) -> (stages: Vec<Stage>)
    ensures
        stage_models(stages@) == standard_stages(config@, operation),
{
    let mut stages: Vec<Stage> = Vec::new();
    stages.push(Stage::BodyLimit(config.max_body_size));
    if operation.is_administrative() {
        stages.push(Stage::BearerAuth(config.admin_secret.clone()));
    }
    stages.push(Stage::Logger);
    stages
}

/// What the service may do with a request. A body over the ceiling is
/// `PayloadTooLarge`. Otherwise an administrative operation without the
/// secret is `Unauthorized`. Either refusal leaves the store and the log as
/// they were. Otherwise the log gains the entry and the exit of the
/// request, in this order, and the handler decides the rest.
pub open spec fn served(
    config: ConfigModel,
    pre: StoreModel,
    request: RequestModel,
    log_pre: Seq<LogEventModel>,
    reply: Result<ResponseModel, ErrorModel>,
    post: StoreModel,
    log_post: Seq<LogEventModel>,
) -> bool {
    if request.body.len() > config.max_body_size {
        refused(ErrorKind::PayloadTooLarge, pre, log_pre, reply, post, log_post)
    } else if request.operation.administrative() && !authorized(
        request.authorization,
        config.admin_secret,
    ) {
        refused(ErrorKind::Unauthorized, pre, log_pre, reply, post, log_post)
    } else {
        &&& log_post == log_pre.push(LogEventModel::entry(request)).push(
            LogEventModel::exit(request),
        )
        &&& handled(pre, request, reply, post)
    }
}

/// The standard stages do what `served` says, and nothing else.
pub proof fn lemma_standard_stages_serve(
    config: ConfigModel,
    pre: StoreModel,
    request: RequestModel,
    log_pre: Seq<LogEventModel>,
    reply: Result<ResponseModel, ErrorModel>,
    post: StoreModel,
    log_post: Seq<LogEventModel>,
)
    ensures
        chained(
            standard_stages(config, request.operation),
            pre,
            request,
            log_pre,
            reply,
            post,
            log_post,
        ) <==> served(config, pre, request, log_pre, reply, post, log_post),
{
    let stages = standard_stages(config, request.operation);
    let logger = seq![StageModel::Logger];
    let entered = log_pre.push(LogEventModel::entry(request));
    assert(chained(logger, pre, request, log_pre, reply, post, log_post) <==> {
        &&& log_post == entered.push(LogEventModel::exit(request))
        &&& handled(pre, request, reply, post)
    }) by {
        reveal_with_fuel(chained, 2);
        if log_post.len() > 0 && log_post.last() == LogEventModel::exit(request)
            && log_post.drop_last() == entered {
            assert(log_post =~= entered.push(LogEventModel::exit(request)));
        }
        assert(entered.push(LogEventModel::exit(request)).drop_last() =~= entered);
    }
    if request.operation.administrative() {
        let checked = seq![StageModel::BearerAuth(config.admin_secret), StageModel::Logger];
        assert(stages.drop_first() =~= checked);
        assert(checked.drop_first() =~= logger);
        reveal_with_fuel(chained, 3);
    } else {
        assert(stages.drop_first() =~= logger);
        reveal_with_fuel(chained, 2);
    }
}

/// What the standard stages make of a request before the handler: which
/// of them refuses it, if any, and that the one logger records it where
/// none does.
pub proof fn lemma_standard_stages_enter(config: ConfigModel, request: RequestModel)
    ensures
        refusal(standard_stages(config, request.operation), request) == if request.body.len()
            > config.max_body_size {
            Some(ErrorKind::PayloadTooLarge)
        } else if request.operation.administrative() && !authorized(
            request.authorization,
            config.admin_secret,
        ) {
            Some(ErrorKind::Unauthorized)
        } else {
            None
        },
        logged(standard_stages(config, request.operation), request) == if refusal(
            standard_stages(config, request.operation),
            request,
        ) is None {
            1nat
        } else {
            0nat
        },
{
    let stages = standard_stages(config, request.operation);
    let logger = seq![StageModel::Logger];
    assert(logger.drop_first() =~= Seq::<StageModel>::empty());
    reveal_with_fuel(refusal, 4);
    reveal_with_fuel(logged, 4);
    if request.operation.administrative() {
        let checked = seq![StageModel::BearerAuth(config.admin_secret), StageModel::Logger];
        assert(stages.drop_first() =~= checked);
        assert(checked.drop_first() =~= logger);
    } else {
        assert(stages.drop_first() =~= logger);
    }
}

/// A request that the standard stages have let pass, on its way to the
/// handler, with the number of exits that its loggers still owe. Only
/// `begin` makes one.
#[derive(Debug)]
pub struct Admitted {
    request: Request,
    owed: usize,
}

impl Admitted {
    /// The request that was let pass.
    pub closed spec fn request(&self) -> RequestModel {
        self.request@
    }

    /// The number of exits still to record.
    pub closed spec fn owed(&self) -> nat {
        self.owed as nat
    }

    /// Takes the request and the count apart again, for the handler.
    pub(crate) fn release(self) -> (parts: (Request, usize))
        ensures
            parts.0@ == self.request(),
            parts.1 == self.owed(),
    {
        (self.request, self.owed)
    }
}

/// What the standard stages make of a request before the handler runs. A
/// body over the ceiling is `PayloadTooLarge`, and otherwise an
/// administrative operation without the secret is `Unauthorized`; the log
/// stays as it was. Otherwise the request is admitted as it came, and the
/// log has gained its entry, while the exit is owed.
pub open spec fn begun(
    config: ConfigModel,
    request: RequestModel,
    log_pre: Seq<LogEventModel>,
    admission: Result<Admitted, KVError>,
    log_post: Seq<LogEventModel>,
) -> bool {
    if request.body.len() > config.max_body_size {
        &&& admission matches Err(error)
        &&& error@ == ErrorModel::of(ErrorKind::PayloadTooLarge)
        &&& log_post == log_pre
    } else if request.operation.administrative() && !authorized(
        request.authorization,
        config.admin_secret,
    ) {
        &&& admission matches Err(error)
        &&& error@ == ErrorModel::of(ErrorKind::Unauthorized)
        &&& log_post == log_pre
    } else {
        &&& admission matches Ok(pass)
        &&& pass.request() == request
        &&& pass.owed() == 1
        &&& log_post == log_pre.push(LogEventModel::entry(request))
    }
}

/// The first step of serving a request: runs it through the standard
/// stages, up to the handler. What the log has gained can be written out
/// before the handler runs, so that the entry of a request is seen before
/// any effect of it. `complete` is the second step.
pub fn begin(config: &Config, request: Request, log: &mut Vec<LogEvent>) -> (admission: Result<
    Admitted,
    KVError,
>)
    ensures
        begun(config@, request@, log_model(old(log)@), admission, log_model(final(log)@)),
{
    let stages = standard_chain(config, request.operation);
    proof {
        lemma_standard_stages_enter(config@, request@);
        let entry = LogEventModel::entry(request@);
        let exit = LogEventModel::exit(request@);
        assert(log_model(log@) + repeated(entry, 0) =~= log_model(log@));
        assert(log_model(log@) + repeated(entry, 0) + repeated(exit, 0) =~= log_model(log@));
        assert(log_model(log@) + repeated(entry, 1) =~= log_model(log@).push(entry));
    }
    let owed = enter(&stages, &request, log)?;
    Ok(Admitted { request, owed })
}

/// What the second step does to the store, the log and the reply: the
/// handler runs on the admitted request, and then the exits that were owed
/// are recorded.
pub open spec fn completed(
    pre: StoreModel,
    pass: Admitted,
    log_pre: Seq<LogEventModel>,
    reply: Result<ResponseModel, ErrorModel>,
    post: StoreModel,
    log_post: Seq<LogEventModel>,
) -> bool {
    &&& handled(pre, pass.request(), reply, post)
    &&& log_post == log_pre + repeated(LogEventModel::exit(pass.request()), pass.owed())
}

/// The second step of serving a request: the handler, and the exits.
pub fn complete(state: &mut AppState, pass: Admitted, log: &mut Vec<LogEvent>) -> (reply: Result<
    Response,
    KVError,
>)
    ensures
        completed(
            old(state)@,
            pass,
            log_model(old(log)@),
            outcome(reply),
            final(state)@,
            log_model(final(log)@),
        ),
{
    let (request, owed) = pass.release();
    let exit = LogEvent::exit(&request);
    let reply = handle(state, request);
    leave(owed, &exit, log);
    reply
}

/// The two steps come to what `served` says: a request that was begun and
/// then completed has been served.
pub proof fn lemma_steps_serve(
    config: ConfigModel,
    pre: StoreModel,
    request: RequestModel,
    log_pre: Seq<LogEventModel>,
    admission: Result<Admitted, KVError>,
    log_mid: Seq<LogEventModel>,
    reply: Result<ResponseModel, ErrorModel>,
    post: StoreModel,
    log_post: Seq<LogEventModel>,
)
    requires
        begun(config, request, log_pre, admission, log_mid),
        match admission {
            Ok(pass) => completed(pre, pass, log_mid, reply, post, log_post),
            Err(error) => reply == Err::<ResponseModel, ErrorModel>(error@) && post == pre
                && log_post == log_mid,
        },
    ensures
        served(config, pre, request, log_pre, reply, post, log_post),
{
    if admission is Ok {
        let exit = LogEventModel::exit(request);
        assert(log_mid + repeated(exit, 1) =~= log_mid.push(exit));
    }
}

/// What serving a page does to the log and replies. A page does not touch
/// the store; it stands inside the body limit and the logger. A body over
/// the ceiling is `PayloadTooLarge` and leaves the log as it was.
/// Otherwise the log gains the entry and the exit of the request, and the
/// reply carries the page as text.
pub open spec fn paged(
    config: ConfigModel,
    request: RequestModel,
    page: Seq<char>,
    log_pre: Seq<LogEventModel>,
    reply: Result<ResponseModel, ErrorModel>,
    log_post: Seq<LogEventModel>,
) -> bool {
    if request.body.len() > config.max_body_size {
        &&& reply == Err::<ResponseModel, ErrorModel>(ErrorModel::of(ErrorKind::PayloadTooLarge))
        &&& log_post == log_pre
    } else {
        &&& reply == Ok::<ResponseModel, ErrorModel>(text_reply_model(page))
        &&& log_post == log_pre.push(LogEventModel::entry(request)).push(
            LogEventModel::exit(request),
        )
    }
}

/// Serves a page that does not touch the store.
pub fn serve_page(
    config: &Config,
    request: &Request,
    page: String,
    log: &mut Vec<LogEvent>,
) -> (reply: Result<Response, KVError>)
    ensures
        paged(
            config@,
            request@,
            page@,
            log_model(old(log)@),
            outcome(reply),
            log_model(final(log)@),
        ),
{
    let mut stages: Vec<Stage> = Vec::new();
    stages.push(Stage::BodyLimit(config.max_body_size));
    stages.push(Stage::Logger);
    proof {
        let models = stage_models(stages@);
        let logger = seq![StageModel::Logger];
        let entry = LogEventModel::entry(request@);
        let exit = LogEventModel::exit(request@);
        assert(models =~= seq![StageModel::BodyLimit(config.max_body_size), StageModel::Logger]);
        assert(models.drop_first() =~= logger);
        assert(logger.drop_first() =~= Seq::<StageModel>::empty());
        reveal_with_fuel(refusal, 3);
        reveal_with_fuel(logged, 3);
        assert(log_model(log@) + repeated(entry, 0) + repeated(exit, 0) =~= log_model(log@));
        assert(log_model(log@) + repeated(entry, 1) + repeated(exit, 1) =~= log_model(log@).push(
            entry,
        ).push(exit));
    }
    let owed = enter(&stages, request, log)?;
    let reply = text_reply(page);
    leave(owed, &LogEvent::exit(request), log);
    Ok(reply)
}

/// Serves a request in one go: both steps, one after the other.
pub fn serve(
    config: &Config,
    state: &mut AppState,
    request: Request,
    log: &mut Vec<LogEvent>,
) -> (reply: Result<Response, KVError>)
    ensures
        served(
            config@,
            old(state)@,
            request@,
            log_model(old(log)@),
            outcome(reply),
            final(state)@,
            log_model(final(log)@),
        ),
{
    let ghost asked = request@;
    let admission = begin(config, request, log);
    let ghost begun_log = log_model(log@);
    let ghost admission_seen = admission;
    let reply = match admission {
        Ok(pass) => complete(state, pass, log),
        Err(error) => Err(error),
    };
    proof {
        lemma_steps_serve(
            config@,
            old(state)@,
            asked,
            log_model(old(log)@),
            admission_seen,
            begun_log,
            outcome(reply),
            state@,
            log_model(log@),
        );
    }
    reply
}

} // verus!
