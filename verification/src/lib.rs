//! Adaptive admission control for a request-issuing service.
//!
//! The crate bounds the number of concurrently in-flight requests so that a
//! downstream service is kept near its sustainable throughput without being
//! driven into overload, using only what is observable at the call boundary:
//! response latency and explicit backpressure signals. The limit falls
//! multiplicatively on a backpressure signal and climbs additively on
//! low-latency, fully-utilized successes.
//!
//! The pieces, leaves first:
//! - [`outcome`]: how a completed call is classified for control purposes;
//! - [`pool`]: a resizable counting gate of admission permits;
//! - [`controller`]: the control loop that owns the limit and the pool;
//! - [`completion`]: the per-request tracker that reports one outcome and
//!   releases its permit exactly once, on every exit path.
//!
//! Waiting for a free permit, timing a request, and walking an in-flight
//! computation are left to the embedding runtime: it calls
//! [`Controller::try_acquire`] again after each release it is woken by, and
//! hands the measured elapsed time and classified outcome to
//! [`TrackedCompletion::complete`] — or [`TrackedCompletion::abandon`] when
//! the caller gave up first.

pub mod completion;
pub mod controller;
pub mod outcome;
pub mod pool;

pub use completion::TrackedCompletion;
pub use controller::{Controller, Settings};
pub use outcome::{classify_outcome, Outcome};
pub use pool::{Acquired, Permit, PermitPool};
