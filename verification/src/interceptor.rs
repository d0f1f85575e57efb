//! The stages that wrap every operation on the store: a ceiling on the
//! body's size, the bearer credential of the administrative operations,
//! and the log of entry and exit. Stages nest: each one either refuses the
//! request or hands it to the stages inside it, the handler innermost.

use crate::kv_store::kv_error::ErrorKind;
use crate::kv_store::kv_error::ErrorModel;
use crate::kv_store::kv_error::KVError;
use crate::kv_store::kv_error::outcome;
use crate::kv_store::ResponseModel;
use crate::log::log_model;
use crate::log::LogEvent;
use crate::log::LogEventModel;
use crate::log::repeated;
use crate::request::Request;
use crate::request::RequestModel;
use crate::service::handled;
use crate::state::StoreModel;
use crate::text::same_text;
use vstd::prelude::*;
use vstd::string::StringExecFns;

verus! {

/// One stage of the chain.
#[derive(Debug)]
pub enum Stage {
    /// Refuses a body of more bytes than this.
    BodyLimit(usize),
    /// Refuses a request that does not present this secret as a bearer
    /// credential.
    BearerAuth(String),
    /// Records entry and exit around the stages inside it.
    Logger,
}

/// What contracts see of a `Stage`.
pub enum StageModel {
    BodyLimit(usize),
    BearerAuth(Seq<char>),
    Logger,
}

impl View for Stage {
    type V = StageModel;

    open spec fn view(&self) -> StageModel {
        match self {
            Stage::BodyLimit(ceiling) => StageModel::BodyLimit(*ceiling),
            Stage::BearerAuth(secret) => StageModel::BearerAuth(secret@),
            Stage::Logger => StageModel::Logger,
        }
    }
}

/// What contracts see of the stages, outermost first.
pub open spec fn stage_models(stages: Seq<Stage>) -> Seq<StageModel> {
    stages.map_values(|stage: Stage| stage@)
}

impl StageModel {
    /// The failure with which this stage refuses a request, if it does. A
    /// body limit refuses a body of more bytes than its ceiling, a bearer
    /// check a request that does not present its secret; a logger refuses
    /// nothing.
    pub open spec fn refuses(self, request: RequestModel) -> Option<ErrorKind> {
        match self {
            StageModel::BodyLimit(ceiling) => if request.body.len() > ceiling {
                Some(ErrorKind::PayloadTooLarge)
            } else {
                None
            },
            StageModel::BearerAuth(secret) => if authorized(request.authorization, secret) {
                None
            } else {
                Some(ErrorKind::Unauthorized)
            },
            StageModel::Logger => None,
        }
    }
}

/// Refuses a body of more than `ceiling` bytes.
pub fn check_body_size(length: usize, ceiling: usize) -> (verdict: Result<(), KVError>)
    ensures
        outcome(verdict) == if length > ceiling {
            Err(ErrorModel::of(ErrorKind::PayloadTooLarge))
        } else {
            Ok(())
        },
{
    if length > ceiling {
        Err(KVError::of(ErrorKind::PayloadTooLarge))
    } else {
        Ok(())
    }
}

/// Whether the value of an authorization header presents `secret` as a
/// bearer credential: it is the word `Bearer`, one space, and the secret,
/// character for character.
pub open spec fn authorized(presented: Option<Seq<char>>, secret: Seq<char>) -> bool {
    presented == Some("Bearer "@ + secret)
}

/// Refuses a request whose authorization header is missing or does not
/// present `secret`.
pub fn authorize(presented: &Option<String>, secret: &str) -> (verdict: Result<(), KVError>)
    ensures
        outcome(verdict) == if authorized(
            match *presented {
                Some(value) => Some(value@),
                None => None,
            },
            secret@,
        ) {
            Ok(())
        } else {
            Err(ErrorModel::of(ErrorKind::Unauthorized))
        },
{
    match presented {
        Some(value) => {
            let mut expected = "Bearer ".to_owned();
            expected.append(secret);
            if same_text(value.as_str(), expected.as_str()) {
                Ok(())
            } else {
                Err(KVError::of(ErrorKind::Unauthorized))
            }
        },
        None => Err(KVError::of(ErrorKind::Unauthorized)),
    }
}

impl Stage {
    /// Lets the request pass, or refuses it.
    pub fn check(&self, request: &Request) -> (verdict: Result<(), KVError>)
        ensures
            outcome(verdict) == match self@.refuses(request@) {
                Some(kind) => Err(ErrorModel::of(kind)),
                None => Ok(()),
            },
    {
        match self {
            Stage::BodyLimit(ceiling) => check_body_size(request.body.len(), *ceiling),
            Stage::BearerAuth(secret) => authorize(&request.authorization, secret.as_str()),
            Stage::Logger => Ok(()),
        }
    }
}

/// A stage's refusal: the error of that kind, with the store and the log
/// as they were.
pub open spec fn refused(
    kind: ErrorKind,
    pre: StoreModel,
    log_pre: Seq<LogEventModel>,
    reply: Result<ResponseModel, ErrorModel>,
    post: StoreModel,
    log_post: Seq<LogEventModel>,
) -> bool {
    &&& reply == Err::<ResponseModel, ErrorModel>(ErrorModel::of(kind))
    &&& post == pre
    &&& log_post == log_pre
}

/// What a chain of stages, outermost first, may do with a request. With no
/// stage left the handler runs. A stage that refuses the request replies
/// in place of everything inside it. A stage that lets it pass hands it
/// inward unchanged; a logger records the entry before it does so, and the
/// exit after whatever came back.
pub open spec fn chained(
    stages: Seq<StageModel>,
    pre: StoreModel,
    request: RequestModel,
    log_pre: Seq<LogEventModel>,
    reply: Result<ResponseModel, ErrorModel>,
    post: StoreModel,
    log_post: Seq<LogEventModel>,
) -> bool
    decreases stages.len(),
{
    if stages.len() == 0 {
        &&& log_post == log_pre
        &&& handled(pre, request, reply, post)
    } else {
        let inner = stages.drop_first();
        match stages[0].refuses(request) {
            Some(kind) => refused(kind, pre, log_pre, reply, post, log_post),
            None => if stages[0] is Logger {
                &&& log_post.len() > 0
                &&& log_post.last() == LogEventModel::exit(request)
                &&& chained(
                    inner,
                    pre,
                    request,
                    log_pre.push(LogEventModel::entry(request)),
                    reply,
                    post,
                    log_post.drop_last(),
                )
            } else {
                chained(inner, pre, request, log_pre, reply, post, log_post)
            },
        }
    }
}

/// The failure with which the outermost refusing stage refuses a request,
/// if any stage does.
pub open spec fn refusal(stages: Seq<StageModel>, request: RequestModel) -> Option<ErrorKind>
    decreases stages.len(),
{
    if stages.len() == 0 {
        None
    } else if stages[0].refuses(request) is Some {
        stages[0].refuses(request)
    } else {
        refusal(stages.drop_first(), request)
    }
}

/// The number of loggers that a request comes through: those outside the
/// outermost refusing stage, or all of them where no stage refuses.
pub open spec fn logged(stages: Seq<StageModel>, request: RequestModel) -> nat
    decreases stages.len(),
{
    if stages.len() == 0 || stages[0].refuses(request) is Some {
        0
    } else if stages[0] is Logger {
        1 + logged(stages.drop_first(), request)
    } else {
        logged(stages.drop_first(), request)
    }
}

/// What a chain does, told in one piece. Every logger that the request
/// comes through records its entry, then the outermost refusing stage
/// replies, or the handler where none refuses, then each of those loggers
/// records its exit. A refusal leaves the store as it was.
pub open spec fn unfolded(
    stages: Seq<StageModel>,
    pre: StoreModel,
    request: RequestModel,
    log_pre: Seq<LogEventModel>,
    reply: Result<ResponseModel, ErrorModel>,
    post: StoreModel,
    log_post: Seq<LogEventModel>,
) -> bool {
    let count = logged(stages, request);
    &&& log_post == log_pre + repeated(LogEventModel::entry(request), count) + repeated(
        LogEventModel::exit(request),
        count,
    )
    &&& match refusal(stages, request) {
        Some(kind) => reply == Err::<ResponseModel, ErrorModel>(ErrorModel::of(kind)) && post
            == pre,
        None => handled(pre, request, reply, post),
    }
}

/// Nesting the stages and walking them in order come to the same: a
/// refusing stage keeps the stages inside it and the handler from running,
/// but not the loggers outside it from recording the exit.
pub proof fn lemma_chain_unfolds(
    stages: Seq<StageModel>,
    pre: StoreModel,
    request: RequestModel,
    log_pre: Seq<LogEventModel>,
    reply: Result<ResponseModel, ErrorModel>,
    post: StoreModel,
    log_post: Seq<LogEventModel>,
)
    ensures
        chained(stages, pre, request, log_pre, reply, post, log_post) <==> unfolded(
            stages,
            pre,
            request,
            log_pre,
            reply,
            post,
            log_post,
        ),
    decreases stages.len(),
{
    let entry = LogEventModel::entry(request);
    let exit = LogEventModel::exit(request);
    let count = logged(stages, request);
    if stages.len() == 0 || stages[0].refuses(request) is Some {
    } else {
        let inner = stages.drop_first();
        if stages[0] is Logger {
            let entered = log_pre.push(entry);
            let less = logged(inner, request);
            lemma_chain_unfolds(inner, pre, request, entered, reply, post, log_post.drop_last());
            assert(entered + repeated(entry, less) =~= log_pre + repeated(entry, count));
            assert((log_pre + repeated(entry, count) + repeated(exit, count)).drop_last()
                =~= log_pre + repeated(entry, count) + repeated(exit, less));
            if log_post.len() > 0 && log_post.last() == exit && log_post.drop_last() == entered
                + repeated(entry, less) + repeated(exit, less) {
                let entries = log_pre + repeated(entry, count);
                assert(log_post =~= log_post.drop_last().push(exit));
                assert((entries + repeated(exit, less)).push(exit) =~= entries + repeated(
                    exit,
                    count,
                ));
            }
        } else {
            lemma_chain_unfolds(inner, pre, request, log_pre, reply, post, log_post);
        }
    }
}

/// Records `exit` as many times as `owed` says.
pub fn leave(owed: usize, exit: &LogEvent, log: &mut Vec<LogEvent>)
    ensures
        log_model(final(log)@) == log_model(old(log)@) + repeated(exit@, owed as nat),
{
    let mut done: usize = 0;
    while done < owed
        invariant
            done <= owed,
            log_model(log@) == log_model(old(log)@) + repeated(exit@, done as nat),
        decreases owed - done,
    {
        let ghost before = log_model(log@);
        log.push(exit.duplicate());
        assert(log_model(log@) =~= before.push(exit@));
        done = done + 1;
    }
}

/// What the stages make of a request before any handler runs.
/// Where a stage refuses it, the admission is that stage's failure, and
/// the log has gained the entries and the exits of the loggers outside
/// that stage. Where none refuses, the admission is the number of loggers,
/// whose exits are still owed, and the log has gained their entries.
pub open spec fn entered(
    stages: Seq<StageModel>,
    request: RequestModel,
    log_pre: Seq<LogEventModel>,
    admission: Result<usize, ErrorModel>,
    log_post: Seq<LogEventModel>,
) -> bool {
    let count = logged(stages, request);
    let entries = repeated(LogEventModel::entry(request), count);
    match refusal(stages, request) {
        Some(kind) => {
            &&& admission == Err::<usize, ErrorModel>(ErrorModel::of(kind))
            &&& log_post == log_pre + entries + repeated(LogEventModel::exit(request), count)
        },
        None => {
            &&& admission == Ok::<usize, ErrorModel>(count as usize)
            &&& count <= usize::MAX
            &&& log_post == log_pre + entries
        },
    }
}

/// Walks the stages, outermost first, up to the handler or to the first
/// stage that refuses.
pub fn enter(stages: &Vec<Stage>, request: &Request, log: &mut Vec<LogEvent>) -> (admission:
    Result<usize, KVError>)
    ensures
        entered(
            stage_models(stages@),
            request@,
            log_model(old(log)@),
            outcome(admission),
            log_model(final(log)@),
        ),
{
    let ghost models = stage_models(stages@);
    let ghost entry = LogEventModel::entry(request@);
    let mut owed: usize = 0;
    let mut at: usize = 0;
    assert(models.skip(0) =~= models);
    while at < stages.len()
        invariant
            at <= stages.len(),
            owed <= at,
            models == stage_models(stages@),
            entry == LogEventModel::entry(request@),
            refusal(models, request@) == refusal(models.skip(at as int), request@),
            logged(models, request@) == owed + logged(models.skip(at as int), request@),
            log_model(log@) == log_model(old(log)@) + repeated(entry, owed as nat),
        decreases stages.len() - at,
    {
        proof {
            let rest = models.skip(at as int);
            assert(rest.drop_first() =~= models.skip(at + 1));
        }
        match stages[at].check(request) {
            Ok(_) => {},
            Err(error) => {
                let exit = LogEvent::exit(request);
                leave(owed, &exit, log);
                return Err(error);
            },
        }
        if let Stage::Logger = stages[at] {
            let ghost before = log_model(log@);
            log.push(LogEvent::entry(request));
            assert(log_model(log@) =~= before.push(entry));
            owed = owed + 1;
        }
        at = at + 1;
    }
    Ok(owed)
}

} // verus!
