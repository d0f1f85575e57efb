//! The store as the threads of a server share it: behind one lock, which
//! any number of readers or one writer may hold. What an operation finds
//! behind the lock is whatever the operations before it left there, so the
//! contracts here say what holds on every store; what each operation makes
//! of the store it finds is stated where it is defined.

use crate::interceptor::chained;
use crate::interceptor::enter;
use crate::interceptor::leave;
use crate::interceptor::lemma_chain_unfolds;
use crate::interceptor::Stage;
use crate::interceptor::stage_models;
use crate::interceptor::StageModel;
use crate::kv_store::get_stored_type;
use crate::kv_store::kv_error::ErrorKind;
use crate::kv_store::kv_error::ErrorModel;
use crate::kv_store::kv_error::KVError;
use crate::kv_store::kv_error::outcome;
use crate::kv_store::Response;
use crate::kv_store::ResponseModel;
use crate::kv_store::store_value;
use crate::log::log_model;
use crate::log::LogEvent;
use crate::log::LogEventModel;
use crate::request::Operation;
use crate::request::Request;
use crate::request::RequestModel;
use crate::service::Admitted;
use crate::service::begin;
use crate::service::completed;
use crate::service::Config;
use crate::service::ConfigModel;
use crate::service::handle;
use crate::service::handle_read;
use crate::service::handled;
use crate::service::lemma_steps_serve;
use crate::service::served;
use crate::service::text_reply;
use crate::state::AppState;
use crate::state::StoreModel;
use std::ops::Deref;
use std::ops::DerefMut;
use std::sync::PoisonError;
use std::sync::RwLock;
use std::sync::RwLockReadGuard;
use std::sync::RwLockWriteGuard;
use vstd::prelude::*;

verus! {

/// The reader-writer lock of `std::sync`.
#[verifier::external_type_specification]
#[verifier::external_body]
#[verifier::reject_recursive_types(T)]
pub struct ExRwLock<T: ?Sized>(RwLock<T>);

/// What `RwLock::read` hands out: shared access for as long as it lives.
#[verifier::external_type_specification]
#[verifier::external_body]
#[verifier::reject_recursive_types(T)]
pub struct ExRwLockReadGuard<'a, T: ?Sized>(RwLockReadGuard<'a, T>);

/// What `RwLock::write` hands out: exclusive access for as long as it
/// lives.
#[verifier::external_type_specification]
#[verifier::external_body]
#[verifier::reject_recursive_types(T)]
pub struct ExRwLockWriteGuard<'a, T: ?Sized + 'a>(RwLockWriteGuard<'a, T>);

/// The store behind its lock.
pub struct SharedState {
    lock: RwLock<AppState>,
}

/// Calls `RwLock::new`.
#[verifier::external_body]
fn new_lock(store: AppState) -> (lock: RwLock<AppState>) {
    RwLock::new(store)
}

/// Calls `RwLock::read`, which waits until no writer holds the lock, and
/// gives the error where a writer has panicked while holding it. Nothing
/// is claimed of the outcome. No caller holds a guard of this lock when it
/// calls: on a thread that does, `read` may panic or never return.
#[verifier::external_body]
fn lock_shared<'a>(lock: &'a RwLock<AppState>) -> (guard: Result<
    RwLockReadGuard<'a, AppState>,
    PoisonError<RwLockReadGuard<'a, AppState>>,
>) {
    lock.read()
}

/// Calls `RwLock::write`, which waits until nobody else holds the lock,
/// and gives the error where a writer has panicked while holding it.
/// Nothing is claimed of the outcome. No caller holds a guard of this lock
/// when it calls: on a thread that does, `write` may panic or never return.
#[verifier::external_body]
fn lock_exclusive<'a>(lock: &'a RwLock<AppState>) -> (guard: Result<
    RwLockWriteGuard<'a, AppState>,
    PoisonError<RwLockWriteGuard<'a, AppState>>,
>) {
    lock.write()
}

/// Calls `deref` on a read guard. Nothing is claimed of the store that it
/// guards: it is what the last writer left.
#[verifier::external_body]
fn guarded<'a, 'b>(guard: &'a RwLockReadGuard<'b, AppState>) -> (store: &'a AppState) {
    guard.deref()
}

/// Calls `deref_mut` on a write guard. Nothing is claimed of the store
/// that it guards: it is what the last writer left.
#[verifier::external_body]
fn guarded_mut<'a, 'b>(guard: &'a mut RwLockWriteGuard<'b, AppState>) -> (store:
    &'a mut AppState) {
    guard.deref_mut()
}

/// A request was handled on some store: there is a store before and a
/// store after of which `handled` holds.
pub open spec fn handled_on_some_store(
    request: RequestModel,
    reply: Result<ResponseModel, ErrorModel>,
) -> bool {
    exists|pre: StoreModel, post: StoreModel| handled(pre, request, reply, post)
}

/// A request went through a chain on some store.
pub open spec fn chained_on_some_store(
    stages: Seq<StageModel>,
    request: RequestModel,
    log_pre: Seq<LogEventModel>,
    reply: Result<ResponseModel, ErrorModel>,
    log_post: Seq<LogEventModel>,
) -> bool {
    exists|pre: StoreModel, post: StoreModel|
        chained(stages, pre, request, log_pre, reply, post, log_post)
}

/// The second step was taken on some store.
pub open spec fn completed_on_some_store(
    pass: Admitted,
    log_pre: Seq<LogEventModel>,
    reply: Result<ResponseModel, ErrorModel>,
    log_post: Seq<LogEventModel>,
) -> bool {
    exists|pre: StoreModel, post: StoreModel|
        completed(pre, pass, log_pre, reply, post, log_post)
}

/// A request was served on some store.
pub open spec fn served_on_some_store(
    config: ConfigModel,
    request: RequestModel,
    log_pre: Seq<LogEventModel>,
    reply: Result<ResponseModel, ErrorModel>,
    log_post: Seq<LogEventModel>,
) -> bool {
    exists|pre: StoreModel, post: StoreModel|
        served(config, pre, request, log_pre, reply, post, log_post)
}

impl Default for SharedState {
    fn default() -> Self {
        SharedState::new()
    }
}

impl SharedState {
    /// An empty store behind a new lock.
    pub fn new() -> Self {
        SharedState::with(AppState::new())
    }

    /// `store` behind a new lock.
    pub fn with(store: AppState) -> Self {
        SharedState { lock: new_lock(store) }
    }

    /// Poisons the store, as a write that did not complete leaves it.
    pub fn poison(&self) {
        match lock_exclusive(&self.lock) {
            Ok(mut guard) => guarded_mut(&mut guard).poison(),
            Err(_) => {},
        }
    }

    /// Shared access to the store, or `LockPoisoned` where a panic has
    /// poisoned the lock.
    fn shared<'a>(&'a self) -> (guard: Result<RwLockReadGuard<'a, AppState>, KVError>)
        ensures
            guard matches Err(error) ==> error@ == ErrorModel::of(ErrorKind::LockPoisoned),
    {
        let taken = lock_shared(&self.lock);
        // Only taking the lock tells whether it is poisoned.
        let guard = unpoisoned(taken);
        guard
    }

    /// Exclusive access to the store, or `LockPoisoned` where a panic has
    /// poisoned the lock.
    fn exclusive<'a>(&'a self) -> (guard: Result<RwLockWriteGuard<'a, AppState>, KVError>)
        ensures
            guard matches Err(error) ==> error@ == ErrorModel::of(ErrorKind::LockPoisoned),
    {
        let taken = lock_exclusive(&self.lock);
        // Only taking the lock tells whether it is poisoned.
        let guard = unpoisoned(taken);
        guard
    }

    /// Performs the operation that the request names, holding the lock for
    /// as long as the store is read or changed: shared for the two reads,
    /// exclusive for a write and the deletions. The body of a write is
    /// classified, and so decoded, before the lock is taken. A lock that a
    /// panic has poisoned is `LockPoisoned`, as a poisoned store is.
    pub fn handle(&self, request: Request) -> (reply: Result<Response, KVError>)
        ensures
            handled_on_some_store(request@, outcome(reply)),
    {
        let ghost asked = request@;
        proof {
            // A poisoned lock replies as a poisoned store does.
            let ruined = StoreModel::empty().poison();
            assert(handled(ruined, asked, Err(ErrorModel::of(ErrorKind::LockPoisoned)), ruined));
        }
        match request.operation {
            Operation::Write => {
                let value = match get_stored_type(request.content_type.as_str(), request.body) {
                    Ok(value) => value,
                    Err(error) => {
                        let ghost fresh = StoreModel::empty();
                        assert(handled(fresh, asked, Err(error@), fresh));
                        return Err(error);
                    },
                };
                let mut guard = self.exclusive()?;
                let store = guarded_mut(&mut guard);
                let ghost pre = store@;
                let ack = store_value(store, request.key, value);
                let reply = match ack {
                    Ok(ack) => Ok(text_reply(ack)),
                    Err(error) => Err(error),
                };
                assert(handled(pre, asked, outcome(reply), store@));
                reply
            },
            Operation::Read | Operation::Transform => {
                let guard = self.shared()?;
                let reply = handle_read(guarded(&guard), &request);
                reply
            },
            Operation::DeleteOne | Operation::DeleteAll => {
                let mut guard = self.exclusive()?;
                let reply = handle(guarded_mut(&mut guard), request);
                reply
            },
        }
    }

    /// Runs a request through `stages`, outermost first, and then through
    /// the handler, unless a stage refuses it. The lock is taken by the
    /// handler alone: a request that a stage refuses never waits for it.
    pub fn run_chain(
        &self,
        stages: &Vec<Stage>,
        request: Request,
        log: &mut Vec<LogEvent>,
    ) -> (reply: Result<Response, KVError>)
        ensures
            chained_on_some_store(
                stage_models(stages@),
                request@,
                log_model(old(log)@),
                outcome(reply),
                log_model(final(log)@),
            ),
    {
        let ghost models = stage_models(stages@);
        let ghost asked = request@;
        let exit = LogEvent::exit(&request);
        match enter(stages, &request, log) {
            Ok(owed) => {
                let reply = self.handle(request);
                leave(owed, &exit, log);
                proof {
                    let (pre, post) = choose|pre: StoreModel, post: StoreModel|
                        handled(pre, asked, outcome(reply), post);
                    lemma_chain_unfolds(
                        models,
                        pre,
                        asked,
                        log_model(old(log)@),
                        outcome(reply),
                        post,
                        log_model(log@),
                    );
                }
                reply
            },
            Err(error) => {
                proof {
                    lemma_chain_unfolds(
                        models,
                        StoreModel::empty(),
                        asked,
                        log_model(old(log)@),
                        Err(error@),
                        StoreModel::empty(),
                        log_model(log@),
                    );
                }
                Err(error)
            },
        }
    }

    /// The second step of serving a request: the handler, under the lock,
    /// and the exits.
    pub fn complete(&self, pass: Admitted, log: &mut Vec<LogEvent>) -> (reply: Result<
        Response,
        KVError,
    >)
        ensures
            completed_on_some_store(
                pass,
                log_model(old(log)@),
                outcome(reply),
                log_model(final(log)@),
            ),
    {
        let (request, owed) = pass.release();
        let exit = LogEvent::exit(&request);
        let ghost asked = request@;
        let reply = self.handle(request);
        leave(owed, &exit, log);
        proof {
            let (pre, post) = choose|pre: StoreModel, post: StoreModel|
                handled(pre, asked, outcome(reply), post);
            assert(completed(
                pre,
                pass,
                log_model(old(log)@),
                outcome(reply),
                post,
                log_model(log@),
            ));
        }
        reply
    }

    /// Serves a request in one go: both steps, one after the other.
    pub fn serve(&self, config: &Config, request: Request, log: &mut Vec<LogEvent>) -> (reply:
        Result<Response, KVError>)
        ensures
            served_on_some_store(
                config@,
                request@,
                log_model(old(log)@),
                outcome(reply),
                log_model(final(log)@),
            ),
    {
        let ghost asked = request@;
        let admission = begin(config, request, log);
        let ghost begun_log = log_model(log@);
        let ghost admission_seen = admission;
        match admission {
            Ok(pass) => {
                let reply = self.complete(pass, log);
                proof {
                    let (pre, post) = choose|pre: StoreModel, post: StoreModel|
                        completed(
                            pre,
                            pass,
                            begun_log,
                            outcome(reply),
                            post,
                            log_model(log@),
                        );
                    lemma_steps_serve(
                        config@,
                        pre,
                        asked,
                        log_model(old(log)@),
                        admission_seen,
                        begun_log,
                        outcome(reply),
                        post,
                        log_model(log@),
                    );
                }
                reply
            },
            Err(error) => {
                proof {
                    lemma_steps_serve(
                        config@,
                        StoreModel::empty(),
                        asked,
                        log_model(old(log)@),
                        admission_seen,
                        begun_log,
                        Err(error@),
                        StoreModel::empty(),
                        log_model(log@),
                    );
                }
                Err(error)
            },
        }
    }
}

/// What taking a lock of `std::sync` gave, in the terms of this library:
/// the guard itself where the lock gave one, and `LockPoisoned` where a
/// panic has poisoned the lock, whatever guard came with the error.
pub fn unpoisoned<G>(taken: Result<G, PoisonError<G>>) -> (guard: Result<G, KVError>)
    ensures
        match taken {
            Ok(held) => guard matches Ok(kept) && kept == held,
            Err(_) => guard matches Err(error) && error@ == ErrorModel::of(
                ErrorKind::LockPoisoned,
            ),
        },
{
    match taken {
        Ok(held) => Ok(held),
        Err(poisoned) => Err(KVError::from(poisoned)),
    }
}

} // verus!
