use vstd::prelude::*;
use crate::auth::{
    resolve, resolve_spec, AuthContext, AuthContextView, AuthStrategy, CredentialStore,
};
use crate::error::{
    AuthError, BusinessError, Failure, LockError, OutcomeClass, ResponseEnvelope,
};
use crate::flow::Flow;
use crate::locking::{deadline, HandleView, LockAction, LockHandle, LockManager, LockTable};
use crate::request::RawRequest;

verus! {

/// What every invocation is handed and none may change: the credential
/// stores and the configuration.
#[derive(Debug, PartialEq, Eq)]
pub struct AppState {
    pub credentials: CredentialStore,
    /// For how long a lock binds if it is never given back.
    pub lock_ttl: u64,
}

/// The mathematical value of an [`ExecutionEvent`].
pub struct EventView {
    pub flow: Flow,
    pub duration: u64,
    pub outcome: OutcomeClass,
    pub merchant_id: Option<Seq<char>>,
    pub release_failed: bool,
}

/// The one record that telemetry gets of an invocation.
#[derive(Debug, PartialEq, Eq)]
pub struct ExecutionEvent {
    pub flow: Flow,
    pub duration: u64,
    pub outcome: OutcomeClass,
    /// The merchant, where the request got as far as having one.
    pub merchant_id: Option<String>,
    /// Whether the request held a lock that the store did not take back.
    /// Such a lock stays until its time runs out; the answer to the
    /// request is not touched by it.
    pub release_failed: bool,
}

impl View for ExecutionEvent {
    type V = EventView;

    open spec fn view(&self) -> EventView {
        EventView {
            flow: self.flow,
            duration: self.duration,
            outcome: self.outcome,
            merchant_id: match self.merchant_id {
                Some(m) => Some(m@),
                None => None,
            },
            release_failed: self.release_failed,
        }
    }
}

/// The time from `start` to `end`; nothing where the clock went backwards.
pub open spec fn elapsed(start: u64, end: u64) -> u64 {
    if end >= start {
        (end - start) as u64
    } else {
        0
    }
}

/// The mathematical value of a [`PendingEvent`].
pub struct PendingView {
    pub flow: Flow,
    pub started_at: u64,
    pub outcome: OutcomeClass,
    pub merchant_id: Option<Seq<char>>,
    pub release_failed: bool,
}

impl PendingView {
    /// The event of the invocation once its end is timed at `finished_at`.
    pub open spec fn closed(self, finished_at: u64) -> EventView {
        EventView {
            flow: self.flow,
            duration: elapsed(self.started_at, finished_at),
            outcome: self.outcome,
            merchant_id: self.merchant_id,
            release_failed: self.release_failed,
        }
    }
}

/// What telemetry is to get of an invocation that has ended, whichever step
/// ended it, but for the one thing the pipeline cannot know: what the clock
/// shows now. The caller reads the clock and closes the event.
#[must_use]
#[derive(Debug, PartialEq, Eq)]
pub struct PendingEvent {
    pub flow: Flow,
    /// The clock as the request came in.
    pub started_at: u64,
    pub outcome: OutcomeClass,
    /// The merchant, where the request got as far as having one.
    pub merchant_id: Option<String>,
    /// Whether the request held a lock that the store did not take back.
    pub release_failed: bool,
}

impl View for PendingEvent {
    type V = PendingView;

    open spec fn view(&self) -> PendingView {
        PendingView {
            flow: self.flow,
            started_at: self.started_at,
            outcome: self.outcome,
            merchant_id: match self.merchant_id {
                Some(m) => Some(m@),
                None => None,
            },
            release_failed: self.release_failed,
        }
    }
}

impl PendingEvent {
    /// The event for telemetry, with the time that the invocation took up
    /// to `finished_at`, the clock as it ended.
    pub fn close(self, finished_at: u64) -> (r: ExecutionEvent)
        ensures
            r@ == self@.closed(finished_at),
    {
        ExecutionEvent {
            flow: self.flow,
            duration: time_between(self.started_at, finished_at),
            outcome: self.outcome,
            merchant_id: self.merchant_id,
            release_failed: self.release_failed,
        }
    }
}

/// The mathematical value of an [`InFlight`].
pub struct InFlightView {
    pub flow: Flow,
    pub auth: AuthContextView,
    pub handle: Option<HandleView>,
    pub started_at: u64,
}

/// A request that passed authentication and locking and whose business
/// operation may now run. It owns the lock it took, if it took one, until
/// it is handed to [`finish`] or [`abort`]. One that is dropped instead
/// keeps its lock until the lock's time runs out.
#[must_use]
#[derive(Debug)]
pub struct InFlight {
    flow: Flow,
    auth: AuthContext,
    handle: Option<LockHandle>,
    started_at: u64,
}

impl View for InFlight {
    type V = InFlightView;

    closed spec fn view(&self) -> InFlightView {
        InFlightView {
            flow: self.flow,
            auth: self.auth@,
            handle: match self.handle {
                Some(h) => Some(h@),
                None => None,
            },
            started_at: self.started_at,
        }
    }
}

impl InFlight {
    /// The identity on whose behalf the business operation runs.
    pub fn auth(&self) -> (r: &AuthContext)
        ensures
            r@ == self@.auth,
    {
        &self.auth
    }

    /// Whether the request holds a lock.
    pub fn holds_lock(&self) -> (r: bool)
        ensures
            r == self@.handle.is_some(),
    {
        self.handle.is_some()
    }

    /// The clock as the request came in.
    pub fn started_at(&self) -> (r: u64)
        ensures
            r == self@.started_at,
    {
        self.started_at
    }
}

/// How the first two steps of the pipeline end.
#[derive(Debug)]
pub enum Admission {
    /// The request is authenticated and holds the lock it declared.
    Admitted(InFlight),
    /// The request was turned away before any business logic ran.
    Rejected { failure: Failure, event: PendingEvent },
}

/// What locking yields for a request whose credentials resolved to
/// `identity`: the identity and the lock taken, or the first failure. No
/// lock is asked for on behalf of a request that did not authenticate.
pub open spec fn admit_spec(
    identity: Result<AuthContextView, AuthError>,
    locks: LockTable,
    action: LockAction,
    ttl: u64,
    now: u64,
) -> Result<(AuthContextView, Option<HandleView>), Failure> {
    match identity {
        Err(e) => Err(Failure::Auth(e)),
        Ok(auth) => match action.key_spec(auth.merchant_id) {
            None => Ok((auth, None)),
            Some(key) => match locks.acquire_outcome(key, ttl, now) {
                Err(e) => Err(Failure::Lock(e)),
                Ok(handle) => Ok((auth, Some(handle))),
            },
        },
    }
}

/// The lock store after authentication followed by locking.
pub open spec fn locks_after_admit(
    identity: Result<AuthContextView, AuthError>,
    locks: LockTable,
    action: LockAction,
    ttl: u64,
    now: u64,
) -> LockTable {
    match identity {
        Err(_) => locks,
        Ok(auth) => match action.key_spec(auth.merchant_id) {
            None => locks,
            Some(key) => locks.after_acquire(key, ttl, now),
        },
    }
}

/// The event of a request that came in at `started_at` and was turned
/// away: it names the merchant only where authentication had succeeded.
pub open spec fn rejection_event(
    identity: Result<AuthContextView, AuthError>,
    flow: Flow,
    failure: Failure,
    started_at: u64,
) -> PendingView {
    PendingView {
        flow,
        started_at,
        outcome: OutcomeClass::Failed(failure.class_spec()),
        merchant_id: match identity {
            Ok(auth) => Some(auth.merchant_id),
            Err(_) => None,
        },
        release_failed: false,
    }
}

/// The lock store after a request that was admitted gave back what it held.
pub open spec fn locks_after_release(locks: LockTable, handle: Option<HandleView>) -> LockTable {
    match handle {
        Some(h) => locks.after_release(h),
        None => locks,
    }
}

/// Whether a request that gives back what it holds keeps a lease all the
/// same, because the store does not take the handle.
pub open spec fn release_fails(locks: LockTable, handle: Option<HandleView>) -> bool {
    match handle {
        Some(h) => !locks.releases(h),
        None => false,
    }
}

/// The event of a request that was admitted, ended with `outcome` and gave
/// back what it held to the store `locks`.
pub open spec fn completion_event(request: InFlightView, outcome: OutcomeClass, locks: LockTable)
    -> PendingView {
    PendingView {
        flow: request.flow,
        started_at: request.started_at,
        outcome,
        merchant_id: Some(request.auth.merchant_id),
        release_failed: release_fails(locks, request.handle),
    }
}

fn time_between(start: u64, end: u64) -> (r: u64)
    ensures
        r == elapsed(start, end),
{
    if end >= start {
        end - start
    } else {
        0
    }
}

/// The first two steps of the pipeline: resolve the identity, then take the
/// declared lock. The business operation may run only on `Admitted`.
pub fn begin(
    flow: Flow,
    app: &AppState,
    locks: &mut LockManager,
    request: &RawRequest,
    strategy: &AuthStrategy,
    action: &LockAction,
    now: u64,
) -> (r: Admission)
    ensures
        ({
            let identity = resolve_spec(*strategy, app.credentials, *request, flow, now);
            let admitted = admit_spec(identity, old(locks)@, *action, app.lock_ttl, now);
            &&& final(locks)@ == locks_after_admit(
                identity,
                old(locks)@,
                *action,
                app.lock_ttl,
                now,
            )
            &&& match r {
                Admission::Admitted(request) => {
                    &&& admitted == Ok::<(AuthContextView, Option<HandleView>), Failure>(
                        (request@.auth, request@.handle),
                    )
                    &&& request@.flow == flow
                    &&& request@.started_at == now
                },
                Admission::Rejected { failure, event } => {
                    &&& admitted == Err::<(AuthContextView, Option<HandleView>), Failure>(failure)
                    &&& event@ == rejection_event(identity, flow, failure, now)
                },
            }
        }),
{
    match resolve(strategy, &app.credentials, request, flow, now) {
        Err(e) => {
            let failure = Failure::Auth(e);
            Admission::Rejected {
                failure,
                event: PendingEvent {
                    flow,
                    started_at: now,
                    outcome: OutcomeClass::Failed(failure.class()),
                    merchant_id: None,
                    release_failed: false,
                },
            }
        },
        Ok(auth) => match action.key_for(auth.merchant_id()) {
            None => Admission::Admitted(InFlight { flow, auth, handle: None, started_at: now }),
            Some(key) => match locks.acquire(&key, app.lock_ttl, now) {
                Err(e) => {
                    let failure = Failure::Lock(e);
                    Admission::Rejected {
                        failure,
                        event: PendingEvent {
                            flow,
                            started_at: now,
                            outcome: OutcomeClass::Failed(failure.class()),
                            merchant_id: Some(auth.merchant_id().clone()),
                            release_failed: false,
                        },
                    }
                },
                Ok(handle) => Admission::Admitted(
                    InFlight { flow, auth, handle: Some(handle), started_at: now },
                ),
            },
        },
    }
}

/// The last steps of the pipeline: give the lock back, whatever the
/// business operation answered, and wrap its answer. A release that the
/// store does not take leaves the answer as it is and shows in the event
/// alone.
pub fn finish<T>(
    admitted: InFlight,
    outcome: Result<T, BusinessError>,
    locks: &mut LockManager,
) -> (r: (ResponseEnvelope<T>, PendingEvent))
    ensures
        final(locks)@ == locks_after_release(old(locks)@, admitted@.handle),
        r.0 == ResponseEnvelope::of_outcome(outcome),
        r.1@ == completion_event(admitted@, r.0.outcome_spec(), old(locks)@),
{
    let InFlight { flow, auth, handle, started_at } = admitted;
    let release_failed = match handle {
        Some(h) => !locks.release(h),
        None => false,
    };
    let envelope = ResponseEnvelope::from_outcome(outcome);
    let event = PendingEvent {
        flow,
        started_at,
        outcome: envelope.outcome_class(),
        merchant_id: Some(auth.merchant_id().clone()),
        release_failed,
    };
    (envelope, event)
}

/// Ends a request whose caller went away before the business operation
/// answered: the lock is given back all the same.
pub fn abort(admitted: InFlight, locks: &mut LockManager) -> (r: PendingEvent)
    ensures
        final(locks)@ == locks_after_release(old(locks)@, admitted@.handle),
        r@ == completion_event(admitted@, OutcomeClass::Cancelled, old(locks)@),
{
    let InFlight { flow, auth, handle, started_at } = admitted;
    let release_failed = match handle {
        Some(h) => !locks.release(h),
        None => false,
    };
    PendingEvent {
        flow,
        started_at,
        outcome: OutcomeClass::Cancelled,
        merchant_id: Some(auth.merchant_id().clone()),
        release_failed,
    }
}

/// The business logic of one operation, as the pipeline sees it.
pub trait BusinessOperation {
    /// The merchant state the operation reads and changes.
    type State;

    /// What the request asks for.
    type Payload;

    /// What a successful operation answers.
    type Output;

    /// What must hold of the state before the operation runs, and holds
    /// again after it. An operation that says nothing asks for nothing.
    open spec fn ready(&self, state: Self::State) -> bool {
        true
    }

    /// Whether running on `before` for `auth` at `now` may leave `after`
    /// and answer `outcome`. An operation that says nothing promises
    /// nothing.
    open spec fn effect(
        &self,
        before: Self::State,
        auth: AuthContextView,
        payload: Self::Payload,
        now: u64,
        after: Self::State,
        outcome: Result<Self::Output, BusinessError>,
    ) -> bool {
        true
    }

    fn run(
        &self,
        state: &mut Self::State,
        auth: &AuthContext,
        payload: &Self::Payload,
        now: u64,
    ) -> (r: Result<Self::Output, BusinessError>)
        requires
            self.ready(*old(state)),
        ensures
            self.ready(*final(state)),
            self.effect(*old(state), auth@, *payload, now, *final(state), r),
    ;
}

/// Runs one request through the whole pipeline: authenticate, lock, run
/// the business operation, unlock, answer. `started_at` is the clock as the
/// request came in. The event comes back pending: the caller closes it
/// with the clock as it shows after the call.
pub fn execute<Op: BusinessOperation>(
    flow: Flow,
    app: &AppState,
    locks: &mut LockManager,
    state: &mut Op::State,
    request: &RawRequest,
    payload: &Op::Payload,
    strategy: &AuthStrategy,
    action: &LockAction,
    op: &Op,
    started_at: u64,
) -> (r: (ResponseEnvelope<Op::Output>, PendingEvent))
    requires
        op.ready(*old(state)),
    ensures
        op.ready(*final(state)),
        ({
            let identity = resolve_spec(*strategy, app.credentials, *request, flow, started_at);
            match admit_spec(identity, old(locks)@, *action, app.lock_ttl, started_at) {
                Err(failure) => {
                    &&& r.0 == ResponseEnvelope::<Op::Output>::Error(failure)
                    &&& *final(state) == *old(state)
                    &&& final(locks)@ == old(locks)@
                    &&& r.1@ == rejection_event(identity, flow, failure, started_at)
                },
                Ok((auth, handle)) => {
                    &&& r.0.business_outcome() matches Some(outcome)
                    &&& op.effect(*old(state), auth, *payload, started_at, *final(state), outcome)
                    &&& final(locks)@ == locks_after_release(
                        locks_after_admit(
                            identity,
                            old(locks)@,
                            *action,
                            app.lock_ttl,
                            started_at,
                        ),
                        handle,
                    )
                    &&& r.1@ == (PendingView {
                        flow,
                        started_at,
                        outcome: r.0.outcome_spec(),
                        merchant_id: Some(auth.merchant_id),
                        release_failed: false,
                    })
                },
            }
        }),
{
    match begin(flow, app, locks, request, strategy, action, started_at) {
        Admission::Rejected { failure, event } => (ResponseEnvelope::Error(failure), event),
        Admission::Admitted(admitted) => {
            let outcome = op.run(state, admitted.auth(), payload, started_at);
            finish(admitted, outcome, locks)
        },
    }
}

/// A request that declares a lock is admitted only with that lock in hand:
/// its key was free, the handle is for exactly that key, and the lock binds
/// from then on.
pub proof fn law_admitted_request_holds_its_lock(
    identity: Result<AuthContextView, AuthError>,
    locks: LockTable,
    action: LockAction,
    ttl: u64,
    now: u64,
)
    requires
        action is Lock,
        admit_spec(identity, locks, action, ttl, now) is Ok,
    ensures
        ({
            let (auth, handle) = admit_spec(identity, locks, action, ttl, now)->Ok_0;
            &&& handle is Some
            &&& Some(handle->Some_0.key) == action.key_spec(auth.merchant_id)
            &&& !locks.held(handle->Some_0.key, now)
            &&& locks_after_admit(identity, locks, action, ttl, now).owns(handle->Some_0)
        }),
{
}

/// A request that is turned away has taken no lock, and one that did not
/// authenticate has not even asked for one.
pub proof fn law_rejected_request_takes_no_lock(
    identity: Result<AuthContextView, AuthError>,
    locks: LockTable,
    action: LockAction,
    ttl: u64,
    now: u64,
)
    requires
        admit_spec(identity, locks, action, ttl, now) is Err,
    ensures
        locks_after_admit(identity, locks, action, ttl, now) == locks,
        identity is Err ==> admit_spec(identity, locks, action, ttl, now) == Err::<
            (AuthContextView, Option<HandleView>),
            Failure,
        >(Failure::Auth(identity->Err_0)),
{
}

/// While an admitted request holds its lock, a second request of the same
/// merchant that declares the same lock is turned away by the lock store:
/// with a conflict where the store serves.
pub proof fn law_overlapping_request_is_turned_away(
    first: Result<AuthContextView, AuthError>,
    second: Result<AuthContextView, AuthError>,
    locks: LockTable,
    action: LockAction,
    ttl: u64,
    now: u64,
    later_ttl: u64,
    later: u64,
)
    requires
        action is Lock,
        admit_spec(first, locks, action, ttl, now) is Ok,
        second is Ok,
        second->Ok_0.merchant_id == first->Ok_0.merchant_id,
        later < deadline(now, ttl),
    ensures
        ({
            let held = locks_after_admit(first, locks, action, ttl, now);
            let answer = admit_spec(second, held, action, later_ttl, later);
            &&& answer matches Err(Failure::Lock(_))
            &&& held.serving() ==> answer == Err::<(AuthContextView, Option<HandleView>), Failure>(
                Failure::Lock(LockError::Contention),
            )
            &&& locks_after_admit(second, held, action, later_ttl, later) == held
        }),
{
}

/// A request that went through the pipeline without interruption leaves
/// the key it locked free.
pub proof fn law_lock_is_given_back(
    identity: Result<AuthContextView, AuthError>,
    locks: LockTable,
    action: LockAction,
    ttl: u64,
    now: u64,
    later: u64,
)
    requires
        admit_spec(identity, locks, action, ttl, now) is Ok,
        admit_spec(identity, locks, action, ttl, now)->Ok_0.1 is Some,
    ensures
        ({
            let handle = admit_spec(identity, locks, action, ttl, now)->Ok_0.1;
            !locks_after_release(
                locks_after_admit(identity, locks, action, ttl, now),
                handle,
            ).held(handle->Some_0.key, later)
        }),
{
}

} // verus!
