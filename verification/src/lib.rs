//! The request-execution core of a payment router.
//!
//! Every operation on merchant state goes through one pipeline: resolve the
//! credentials into an identity, take the lock that the operation declares,
//! run the business logic, give the lock back, and wrap the outcome in a
//! uniform answer, with one telemetry event per request. Time is an input:
//! every function that depends on the clock takes its reading as an
//! argument.
//!
//! - [`request`]: what the transport hands over.
//! - [`auth`]: credentials, strategies and the resolution into an identity.
//! - [`locking`]: exclusive, keyed, time-bounded locks.
//! - [`pipeline`]: the pipeline itself.
//! - [`payment_link`]: the life of a payment link.
//! - [`routes`]: the payment link operations as the pipeline runs them.
//! - [`error`]: the causes of failure and the answer envelope.
//! - [`flow`]: the kinds of operation.

pub mod auth;
pub mod error;
pub mod flow;
pub mod locking;
pub mod payment_link;
pub mod pipeline;
pub mod request;
pub mod routes;
