use vstd::prelude::*;

verus! {

/// The classes into which every failure of a request falls.
#[derive(Clone, Copy, Debug, PartialEq, Eq, Structural)]
pub enum ErrorClass {
    /// The credential is bad, expired or missing.
    AuthenticationFailure,
    /// The identity is valid but its scope does not cover the operation.
    AuthorizationFailure,
    /// The resource is locked by another request.
    ResourceConflict,
    /// A backing store could not be reached.
    InfrastructureFailure,
    /// The business operation refused the request.
    BusinessFailure,
    /// The resource does not exist.
    NotFound,
}

impl ErrorClass {
    /// The HTTP status that stands for the class.
    pub open spec fn status_spec(self) -> u16 {
        match self {
            ErrorClass::AuthenticationFailure => 401,
            ErrorClass::AuthorizationFailure => 403,
            ErrorClass::ResourceConflict => 409,
            ErrorClass::InfrastructureFailure => 503,
            ErrorClass::BusinessFailure => 422,
            ErrorClass::NotFound => 404,
        }
    }

    /// Whether a caller may repeat the same request unchanged and hope for
    /// another outcome: only conflicts and infrastructure failures pass.
    pub open spec fn retryable_spec(self) -> bool {
        self == ErrorClass::ResourceConflict || self == ErrorClass::InfrastructureFailure
    }

    /// The HTTP status that stands for the class.
    pub fn status(&self) -> (r: u16)
        ensures
            r == self.status_spec(),
    {
        match self {
            ErrorClass::AuthenticationFailure => 401,
            ErrorClass::AuthorizationFailure => 403,
            ErrorClass::ResourceConflict => 409,
            ErrorClass::InfrastructureFailure => 503,
            ErrorClass::BusinessFailure => 422,
            ErrorClass::NotFound => 404,
        }
    }

    /// Whether a caller may repeat the same request unchanged.
    pub fn is_retryable(&self) -> (r: bool)
        ensures
            r == self.retryable_spec(),
    {
        match self {
            ErrorClass::ResourceConflict => true,
            ErrorClass::InfrastructureFailure => true,
            _ => false,
        }
    }
}

/// Why a credential did not resolve to an identity.
#[derive(Clone, Copy, Debug, PartialEq, Eq, Structural)]
pub enum AuthError {
    MalformedCredential,
    UnknownKey,
    ExpiredCredential,
    SignatureMismatch,
    InsufficientScope,
    /// The credential store did not answer.
    StoreUnavailable,
}

/// Why a lock was not granted.
#[derive(Clone, Copy, Debug, PartialEq, Eq, Structural)]
pub enum LockError {
    /// Another live handle holds the key.
    Contention,
    /// The lock store did not answer.
    StoreUnavailable,
}

/// Why a business operation refused a request.
#[derive(Clone, Copy, Debug, PartialEq, Eq, Structural)]
pub enum BusinessError {
    /// The resource is not in a state from which the operation may start.
    InvalidTransition,
    /// The resource does not exist for this merchant.
    NotFound,
    /// The identity is confined to another resource.
    ScopeViolation,
}

/// The stable, machine-readable cause of a failed request.
#[derive(Clone, Copy, Debug, PartialEq, Eq, Structural)]
pub enum Failure {
    Auth(AuthError),
    Lock(LockError),
    Business(BusinessError),
}

impl Failure {
    /// The class of each cause.
    pub open spec fn class_spec(self) -> ErrorClass {
        match self {
            Failure::Auth(AuthError::InsufficientScope) => ErrorClass::AuthorizationFailure,
            Failure::Auth(AuthError::StoreUnavailable) => ErrorClass::InfrastructureFailure,
            Failure::Auth(_) => ErrorClass::AuthenticationFailure,
            Failure::Lock(LockError::Contention) => ErrorClass::ResourceConflict,
            Failure::Lock(LockError::StoreUnavailable) => ErrorClass::InfrastructureFailure,
            Failure::Business(BusinessError::InvalidTransition) => ErrorClass::BusinessFailure,
            Failure::Business(BusinessError::NotFound) => ErrorClass::NotFound,
            Failure::Business(BusinessError::ScopeViolation) => ErrorClass::AuthorizationFailure,
        }
    }

    /// The code of each cause.
    pub open spec fn code_spec(self) -> Seq<char> {
        match self {
            Failure::Auth(AuthError::MalformedCredential) => "malformed_credential"@,
            Failure::Auth(AuthError::UnknownKey) => "unknown_key"@,
            Failure::Auth(AuthError::ExpiredCredential) => "expired_credential"@,
            Failure::Auth(AuthError::SignatureMismatch) => "signature_mismatch"@,
            Failure::Auth(AuthError::InsufficientScope) => "insufficient_scope"@,
            Failure::Auth(AuthError::StoreUnavailable) => "credential_store_unavailable"@,
            Failure::Lock(LockError::Contention) => "resource_locked"@,
            Failure::Lock(LockError::StoreUnavailable) => "lock_store_unavailable"@,
            Failure::Business(BusinessError::InvalidTransition) => "invalid_transition"@,
            Failure::Business(BusinessError::NotFound) => "resource_not_found"@,
            Failure::Business(BusinessError::ScopeViolation) => "resource_out_of_scope"@,
        }
    }

    /// The text shown for each cause: one per class.
    pub open spec fn message_spec(self) -> Seq<char> {
        match self.class_spec() {
            ErrorClass::AuthenticationFailure => "The credentials supplied could not be authenticated."@,
            ErrorClass::AuthorizationFailure => "The credentials supplied do not permit this operation."@,
            ErrorClass::ResourceConflict => "The resource is being modified by another request; try again."@,
            ErrorClass::InfrastructureFailure => "The service is temporarily unavailable; try again."@,
            ErrorClass::BusinessFailure => "The operation is not allowed in the current state of the resource."@,
            ErrorClass::NotFound => "The resource does not exist."@,
        }
    }

    /// The class that decides the status and the retry policy.
    pub fn class(&self) -> (r: ErrorClass)
        ensures
            r == self.class_spec(),
    {
        match self {
            Failure::Auth(AuthError::InsufficientScope) => ErrorClass::AuthorizationFailure,
            Failure::Auth(AuthError::StoreUnavailable) => ErrorClass::InfrastructureFailure,
            Failure::Auth(_) => ErrorClass::AuthenticationFailure,
            Failure::Lock(LockError::Contention) => ErrorClass::ResourceConflict,
            Failure::Lock(LockError::StoreUnavailable) => ErrorClass::InfrastructureFailure,
            Failure::Business(BusinessError::InvalidTransition) => ErrorClass::BusinessFailure,
            Failure::Business(BusinessError::NotFound) => ErrorClass::NotFound,
            Failure::Business(BusinessError::ScopeViolation) => ErrorClass::AuthorizationFailure,
        }
    }

    /// The stable error code, one per cause.
    pub fn code(&self) -> (r: &'static str)
        ensures
            r@ == self.code_spec(),
    {
        match self {
            Failure::Auth(AuthError::MalformedCredential) => "malformed_credential",
            Failure::Auth(AuthError::UnknownKey) => "unknown_key",
            Failure::Auth(AuthError::ExpiredCredential) => "expired_credential",
            Failure::Auth(AuthError::SignatureMismatch) => "signature_mismatch",
            Failure::Auth(AuthError::InsufficientScope) => "insufficient_scope",
            Failure::Auth(AuthError::StoreUnavailable) => "credential_store_unavailable",
            Failure::Lock(LockError::Contention) => "resource_locked",
            Failure::Lock(LockError::StoreUnavailable) => "lock_store_unavailable",
            Failure::Business(BusinessError::InvalidTransition) => "invalid_transition",
            Failure::Business(BusinessError::NotFound) => "resource_not_found",
            Failure::Business(BusinessError::ScopeViolation) => "resource_out_of_scope",
        }
    }

    /// A text that is safe to show to a merchant. It is chosen by the class
    /// alone, so nothing of the failing component can reach it.
    pub fn message(&self) -> (r: &'static str)
        ensures
            r@ == self.message_spec(),
    {
        match self.class() {
            ErrorClass::AuthenticationFailure => "The credentials supplied could not be authenticated.",
            ErrorClass::AuthorizationFailure => "The credentials supplied do not permit this operation.",
            ErrorClass::ResourceConflict => "The resource is being modified by another request; try again.",
            ErrorClass::InfrastructureFailure => "The service is temporarily unavailable; try again.",
            ErrorClass::BusinessFailure => "The operation is not allowed in the current state of the resource.",
            ErrorClass::NotFound => "The resource does not exist.",
        }
    }
}

/// The uniform answer of the pipeline: the payload of a successful
/// operation, or the cause of its failure.
#[derive(Debug, PartialEq, Eq)]
pub enum ResponseEnvelope<T> {
    Success(T),
    Error(Failure),
}

impl<T> ResponseEnvelope<T> {
    /// The HTTP status of an answer.
    pub open spec fn status_spec(self) -> u16 {
        match self {
            ResponseEnvelope::Success(_) => 200,
            ResponseEnvelope::Error(f) => f.class_spec().status_spec(),
        }
    }

    /// How a request with this answer ended.
    pub open spec fn outcome_spec(self) -> OutcomeClass {
        match self {
            ResponseEnvelope::Success(_) => OutcomeClass::Success,
            ResponseEnvelope::Error(f) => OutcomeClass::Failed(f.class_spec()),
        }
    }

    /// The envelope that stands for the result of a business operation.
    pub open spec fn of_outcome(outcome: Result<T, BusinessError>) -> ResponseEnvelope<T> {
        match outcome {
            Ok(payload) => ResponseEnvelope::Success(payload),
            Err(e) => ResponseEnvelope::Error(Failure::Business(e)),
        }
    }

    /// The result of the business operation that the envelope wraps, where
    /// it wraps one: a request turned away before its operation ran wraps
    /// none.
    pub open spec fn business_outcome(self) -> Option<Result<T, BusinessError>> {
        match self {
            ResponseEnvelope::Success(payload) => Some(Ok(payload)),
            ResponseEnvelope::Error(Failure::Business(e)) => Some(Err(e)),
            ResponseEnvelope::Error(_) => None,
        }
    }

    /// Wraps the result of a business operation.
    pub fn from_outcome(outcome: Result<T, BusinessError>) -> (r: ResponseEnvelope<T>)
        ensures
            r == Self::of_outcome(outcome),
    {
        match outcome {
            Ok(payload) => ResponseEnvelope::Success(payload),
            Err(e) => ResponseEnvelope::Error(Failure::Business(e)),
        }
    }

    /// The HTTP status of the answer: 200 on success, else that of the
    /// failure's class.
    pub fn status(&self) -> (r: u16)
        ensures
            r == self.status_spec(),
    {
        match self {
            ResponseEnvelope::Success(_) => 200,
            ResponseEnvelope::Error(f) => f.class().status(),
        }
    }

    /// How the request ended, as telemetry records it.
    pub fn outcome_class(&self) -> (r: OutcomeClass)
        ensures
            r == self.outcome_spec(),
    {
        match self {
            ResponseEnvelope::Success(_) => OutcomeClass::Success,
            ResponseEnvelope::Error(f) => OutcomeClass::Failed(f.class()),
        }
    }
}

/// How a pipeline invocation ended.
#[derive(Clone, Copy, Debug, PartialEq, Eq, Structural)]
pub enum OutcomeClass {
    Success,
    Failed(ErrorClass),
    /// The caller went away before the business operation answered.
    Cancelled,
}

/// Failures of authentication, of authorization and of locking fall into
/// classes of their own: a bad credential is never reported as a lack of
/// permission or as a conflict, nor either of those as a bad credential.
pub proof fn law_failure_classes_are_told_apart(auth: AuthError, lock: LockError)
    ensures
        Failure::Auth(auth).class_spec() == ErrorClass::AuthorizationFailure <==> auth
            == AuthError::InsufficientScope,
        Failure::Auth(auth).class_spec() == ErrorClass::InfrastructureFailure <==> auth
            == AuthError::StoreUnavailable,
        Failure::Auth(auth).class_spec() == ErrorClass::AuthenticationFailure <==> auth
            != AuthError::InsufficientScope && auth != AuthError::StoreUnavailable,
        Failure::Lock(lock).class_spec() == ErrorClass::ResourceConflict <==> lock
            == LockError::Contention,
        Failure::Lock(lock).class_spec() == ErrorClass::InfrastructureFailure <==> lock
            == LockError::StoreUnavailable,
{
}

/// A failure can be retried unchanged exactly where a lock was contended
/// or a store did not answer; a failure of authentication or authorization
/// cannot.
pub proof fn law_retry_policy(failure: Failure)
    ensures
        failure.class_spec().retryable_spec() <==> failure == Failure::Lock(LockError::Contention)
            || failure == Failure::Lock(LockError::StoreUnavailable) || failure == Failure::Auth(
            AuthError::StoreUnavailable,
        ),
{
}

/// Every class has a status of its own, and none that of a success.
pub proof fn law_statuses_are_distinct(a: ErrorClass, b: ErrorClass)
    ensures
        a.status_spec() == b.status_spec() <==> a == b,
        a.status_spec() != 200,
{
}

/// No two causes share a code.
pub proof fn law_codes_are_distinct(a: Failure, b: Failure)
    requires
        a != b,
    ensures
        a.code_spec() != b.code_spec(),
{
    reveal_strlit("malformed_credential");
    reveal_strlit("unknown_key");
    reveal_strlit("expired_credential");
    reveal_strlit("signature_mismatch");
    reveal_strlit("insufficient_scope");
    reveal_strlit("credential_store_unavailable");
    reveal_strlit("resource_locked");
    reveal_strlit("lock_store_unavailable");
    reveal_strlit("invalid_transition");
    reveal_strlit("resource_not_found");
    reveal_strlit("resource_out_of_scope");
    if a.code_spec().len() == b.code_spec().len() {
        assert(a.code_spec()[0] != b.code_spec()[0] || a.code_spec()[2] != b.code_spec()[2]);
    }
}

} // verus!
