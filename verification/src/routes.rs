use vstd::prelude::*;
use crate::auth::{
    attempt, check_client_secret, check_path_merchant, fallback_from, AuthContext,
    AuthContextView, AuthStrategy, ResourceRefView, Scheme,
};
use crate::error::{
    AuthError, BusinessError, ErrorClass, Failure, OutcomeClass, ResponseEnvelope,
};
use crate::flow::Flow;
use crate::locking::{LockAction, LockManager, ResourceType};
use crate::payment_link::{
    after_initiate, initiate_spec, link_matches, links_match, list_spec, retrieve_spec, LinkStore,
    PaymentLink, PaymentLinkInitiateRequest, PaymentLinkListConstraints, PaymentLinkView,
    RetrievePaymentLinkRequest,
};
use crate::pipeline::{
    admit_spec, execute, locks_after_admit, locks_after_release, rejection_event, AppState,
    BusinessOperation, PendingEvent, PendingView,
};
use crate::request::RawRequest;

verus! {

/// Reads one payment link.
pub struct RetrieveLink {
    pub link_id: String,
}

impl BusinessOperation for RetrieveLink {
    type State = LinkStore;

    type Payload = RetrievePaymentLinkRequest;

    type Output = PaymentLink;

    open spec fn effect(
        &self,
        before: LinkStore,
        auth: AuthContextView,
        payload: RetrievePaymentLinkRequest,
        now: u64,
        after: LinkStore,
        outcome: Result<PaymentLink, BusinessError>,
    ) -> bool {
        &&& after == before
        &&& link_matches(outcome, retrieve_spec(before@, auth, self.link_id@, now))
    }

    fn run(
        &self,
        state: &mut LinkStore,
        auth: &AuthContext,
        payload: &RetrievePaymentLinkRequest,
        now: u64,
    ) -> (r: Result<PaymentLink, BusinessError>) {
        state.retrieve(auth, &self.link_id, now)
    }
}

/// Starts the payment flow against a payment link.
pub struct InitiateLink;

impl BusinessOperation for InitiateLink {
    type State = LinkStore;

    type Payload = PaymentLinkInitiateRequest;

    type Output = PaymentLink;

    open spec fn effect(
        &self,
        before: LinkStore,
        auth: AuthContextView,
        payload: PaymentLinkInitiateRequest,
        now: u64,
        after: LinkStore,
        outcome: Result<PaymentLink, BusinessError>,
    ) -> bool {
        &&& after@ == after_initiate(before@, auth, payload.merchant_id@, payload.payment_id@, now)
        &&& link_matches(
            outcome,
            initiate_spec(before@, auth, payload.merchant_id@, payload.payment_id@, now),
        )
    }

    fn run(
        &self,
        state: &mut LinkStore,
        auth: &AuthContext,
        payload: &PaymentLinkInitiateRequest,
        now: u64,
    ) -> (r: Result<PaymentLink, BusinessError>) {
        state.initiate(auth, &payload.merchant_id, &payload.payment_id, now)
    }
}

/// Lists the payment links of a merchant.
pub struct ListLinks;

impl BusinessOperation for ListLinks {
    type State = LinkStore;

    type Payload = PaymentLinkListConstraints;

    type Output = Vec<PaymentLink>;

    open spec fn effect(
        &self,
        before: LinkStore,
        auth: AuthContextView,
        payload: PaymentLinkListConstraints,
        now: u64,
        after: LinkStore,
        outcome: Result<Vec<PaymentLink>, BusinessError>,
    ) -> bool {
        &&& after == before
        &&& links_match(outcome, list_spec(before@, auth, payload, now))
    }

    fn run(
        &self,
        state: &mut LinkStore,
        auth: &AuthContext,
        payload: &PaymentLinkListConstraints,
        now: u64,
    ) -> (r: Result<Vec<PaymentLink>, BusinessError>) {
        state.list(auth, payload, now)
    }
}

/// The lock that an operation on the resource `resource_id` declares: an
/// operation that changes the resource locks it, one that only reads locks
/// nothing.
pub open spec fn declared_lock(flow: Flow, resource_id: String) -> LockAction {
    if flow.mutates() {
        LockAction::Lock { resource_type: ResourceType::PaymentLink, resource_id }
    } else {
        LockAction::NotApplicable
    }
}

/// The lock that an operation on the resource `resource_id` declares. It
/// depends on the kind of operation alone, never on the request.
pub fn lock_action(flow: Flow, resource_id: &String) -> (r: LockAction)
    ensures
        r == declared_lock(flow, *resource_id),
{
    if flow.is_mutation() {
        LockAction::Lock {
            resource_type: ResourceType::PaymentLink,
            resource_id: resource_id.clone(),
        }
    } else {
        LockAction::NotApplicable
    }
}

/// How a retrieval authenticates.
pub open spec fn retrieve_plan(payload: RetrievePaymentLinkRequest) -> AuthStrategy {
    match payload.client_secret {
        Some(secret) => AuthStrategy::ClientSecretCorrelation { client_secret: secret },
        None => AuthStrategy::SingleScheme(Scheme::ApiKey),
    }
}

/// How a retrieval authenticates: by client secret where the payload
/// carries one, else by secret key. The link that the request names plays
/// no part in it.
pub fn retrieve_strategy(payload: &RetrievePaymentLinkRequest) -> (r: AuthStrategy)
    ensures
        r == retrieve_plan(*payload),
{
    match &payload.client_secret {
        Some(secret) => AuthStrategy::ClientSecretCorrelation { client_secret: secret.clone() },
        None => AuthStrategy::SingleScheme(Scheme::ApiKey),
    }
}

/// How an initiation authenticates: as the merchant named in the path.
pub fn initiate_strategy(merchant_id: &String) -> (r: AuthStrategy)
    ensures
        r == (AuthStrategy::ContextDerived { merchant_id: *merchant_id }),
{
    AuthStrategy::ContextDerived { merchant_id: merchant_id.clone() }
}

/// How a listing authenticates: by secret key, else by token.
pub fn list_strategy() -> (r: AuthStrategy)
    ensures
        r matches AuthStrategy::OrderedFallback(schemes) && schemes@ == seq![
            Scheme::ApiKey,
            Scheme::Jwt,
        ],
{
    let mut schemes: Vec<Scheme> = Vec::new();
    schemes.push(Scheme::ApiKey);
    schemes.push(Scheme::Jwt);
    assert(schemes@ =~= seq![Scheme::ApiKey, Scheme::Jwt]);
    AuthStrategy::OrderedFallback(schemes)
}

/// The name under which a payment link is locked and identities are
/// confined to it.
pub open spec fn link_resource(id: Seq<char>) -> ResourceRefView {
    ResourceRefView { resource_type: ResourceType::PaymentLink, resource_id: id }
}

/// The identity of a retrieval: that of the client secret where the request
/// carries one, else that of the secret key. It does not depend on the link
/// that the request names.
pub open spec fn retrieve_identity(
    app: AppState,
    req: RawRequest,
    payload: RetrievePaymentLinkRequest,
    now: u64,
) -> Result<AuthContextView, AuthError> {
    match payload.client_secret {
        Some(secret) => check_client_secret(app.credentials, secret@, now),
        None => attempt(Scheme::ApiKey, app.credentials, req, Flow::PaymentLinkRetrieve, now),
    }
}

/// The identity of a listing: that of the secret key, else that of the
/// token.
pub open spec fn list_identity(app: AppState, req: RawRequest, now: u64) -> Result<
    AuthContextView,
    AuthError,
> {
    fallback_from(
        seq![Scheme::ApiKey, Scheme::Jwt],
        0,
        app.credentials,
        req,
        Flow::PaymentLinkList,
        now,
    )
}

/// The event of a request that was admitted and ran without interruption:
/// the lock it took, if any, went back.
pub open spec fn served_event(
    flow: Flow,
    auth: AuthContextView,
    status: OutcomeClass,
    started_at: u64,
) -> PendingView {
    PendingView {
        flow,
        started_at,
        outcome: status,
        merchant_id: Some(auth.merchant_id),
        release_failed: false,
    }
}

/// Retrieves the payment link `link_id`. The request authenticates by
/// client secret where the payload carries one, else by secret key. An
/// identity that a client secret confines to one link is refused every
/// other link. Nothing is locked and nothing changes. `started_at` is the
/// clock as the request came in; the caller closes the event that comes
/// back with the clock as it shows after the call.
pub fn payment_link_retrieve(
    app: &AppState,
    locks: &mut LockManager,
    links: &mut LinkStore,
    req: &RawRequest,
    link_id: &String,
    payload: &RetrievePaymentLinkRequest,
    started_at: u64,
) -> (r: (ResponseEnvelope<PaymentLink>, PendingEvent))
    ensures
        final(locks)@ == old(locks)@,
        *final(links) == *old(links),
        ({
            let flow = Flow::PaymentLinkRetrieve;
            let identity = retrieve_identity(*app, *req, *payload, started_at);
            match identity {
                Err(e) => {
                    &&& r.0 == ResponseEnvelope::<PaymentLink>::Error(Failure::Auth(e))
                    &&& r.1@ == rejection_event(identity, flow, Failure::Auth(e), started_at)
                },
                Ok(auth) => {
                    &&& r.0.business_outcome() matches Some(outcome)
                    &&& link_matches(
                        outcome,
                        retrieve_spec(old(links)@, auth, link_id@, started_at),
                    )
                    &&& auth.resource is Some && auth.resource != Some(link_resource(link_id@))
                        ==> r.0 == ResponseEnvelope::<PaymentLink>::Error(
                        Failure::Business(BusinessError::ScopeViolation),
                    )
                    &&& r.1@ == served_event(flow, auth, r.0.outcome_spec(), started_at)
                },
            }
        }),
{
    let flow = Flow::PaymentLinkRetrieve;
    let strategy = retrieve_strategy(payload);
    let action = lock_action(flow, link_id);
    let op = RetrieveLink { link_id: link_id.clone() };
    execute(flow, app, locks, links, req, payload, &strategy, &action, &op, started_at)
}

/// Initiates the link of `path.0`, the merchant, for `path.1`, the payment.
/// The identity is the merchant named in the path. The link is locked under
/// the payment's id for as long as the initiation runs, so of two
/// initiations that overlap one is turned away with a conflict.
/// `started_at` is the clock as the request came in; the caller closes the
/// event that comes back with the clock as it shows after the call.
pub fn initiate_payment_link(
    app: &AppState,
    locks: &mut LockManager,
    links: &mut LinkStore,
    req: &RawRequest,
    path: &(String, String),
    started_at: u64,
) -> (r: (ResponseEnvelope<PaymentLink>, PendingEvent))
    ensures
        ({
            let flow = Flow::PaymentLinkInitiate;
            let identity = check_path_merchant(path.0@, flow);
            let action = declared_lock(flow, path.1);
            match admit_spec(identity, old(locks)@, action, app.lock_ttl, started_at) {
                Err(failure) => {
                    &&& r.0 == ResponseEnvelope::<PaymentLink>::Error(failure)
                    &&& *final(links) == *old(links)
                    &&& final(locks)@ == old(locks)@
                    &&& r.1@ == rejection_event(identity, flow, failure, started_at)
                },
                Ok((auth, handle)) => {
                    &&& r.0.business_outcome() matches Some(outcome)
                    &&& link_matches(
                        outcome,
                        initiate_spec(old(links)@, auth, path.0@, path.1@, started_at),
                    )
                    &&& final(links)@ == after_initiate(
                        old(links)@,
                        auth,
                        path.0@,
                        path.1@,
                        started_at,
                    )
                    &&& final(locks)@ == locks_after_release(
                        locks_after_admit(
                            identity,
                            old(locks)@,
                            action,
                            app.lock_ttl,
                            started_at,
                        ),
                        handle,
                    )
                    &&& r.1@ == served_event(flow, auth, r.0.outcome_spec(), started_at)
                },
            }
        }),
{
    let flow = Flow::PaymentLinkInitiate;
    let payload = PaymentLinkInitiateRequest {
        merchant_id: path.0.clone(),
        payment_id: path.1.clone(),
    };
    let strategy = initiate_strategy(&path.0);
    let action = lock_action(flow, &path.1);
    execute(flow, app, locks, links, req, &payload, &strategy, &action, &InitiateLink, started_at)
}

/// Lists the payment links of the merchant that the request authenticates
/// as, by secret key or else by token. Nothing is locked and nothing
/// changes. `started_at` is the clock as the request came in; the caller
/// closes the event that comes back with the clock as it shows after the
/// call.
pub fn payments_link_list(
    app: &AppState,
    locks: &mut LockManager,
    links: &mut LinkStore,
    req: &RawRequest,
    payload: &PaymentLinkListConstraints,
    started_at: u64,
) -> (r: (ResponseEnvelope<Vec<PaymentLink>>, PendingEvent))
    ensures
        final(locks)@ == old(locks)@,
        *final(links) == *old(links),
        ({
            let flow = Flow::PaymentLinkList;
            let identity = list_identity(*app, *req, started_at);
            match identity {
                Err(e) => {
                    &&& r.0 == ResponseEnvelope::<Vec<PaymentLink>>::Error(Failure::Auth(e))
                    &&& r.1@ == rejection_event(identity, flow, Failure::Auth(e), started_at)
                },
                Ok(auth) => {
                    &&& r.0.business_outcome() matches Some(outcome)
                    &&& links_match(outcome, list_spec(old(links)@, auth, *payload, started_at))
                    &&& r.1@ == served_event(flow, auth, r.0.outcome_spec(), started_at)
                },
            }
        }),
{
    let flow = Flow::PaymentLinkList;
    let strategy = list_strategy();
    let action = lock_action(flow, &String::new());
    execute(flow, app, locks, links, req, payload, &strategy, &action, &ListLinks, started_at)
}

/// A client secret opens the link it was minted for and no other: a
/// retrieval that presents it for any other link is refused as a failure
/// of authorization, which no repetition of the request mends.
pub proof fn law_secret_opens_its_own_link_only(
    app: AppState,
    req: RawRequest,
    payload: RetrievePaymentLinkRequest,
    links: Seq<PaymentLinkView>,
    link_id: Seq<char>,
    now: u64,
)
    requires
        payload.client_secret is Some,
        retrieve_identity(app, req, payload, now) is Ok,
        retrieve_identity(app, req, payload, now)->Ok_0.resource != Some(link_resource(link_id)),
    ensures
        ({
            let auth = retrieve_identity(app, req, payload, now)->Ok_0;
            let refusal = Failure::Business(BusinessError::ScopeViolation);
            &&& retrieve_spec(links, auth, link_id, now) == Err::<PaymentLinkView, BusinessError>(
                BusinessError::ScopeViolation,
            )
            &&& refusal.class_spec() == ErrorClass::AuthorizationFailure
            &&& !refusal.class_spec().retryable_spec()
        }),
{
}

} // verus!
