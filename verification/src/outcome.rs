//! Classification of a completed request for control purposes.

use vstd::prelude::*;

verus! {

/// How a completed request bears on the concurrency limit.
#[derive(Clone, Copy, Debug, PartialEq, Eq, Structural)]
pub enum Outcome {
    /// The downstream served the request.
    Success,
    /// The downstream rejected the request because it is overloaded; the only
    /// outcome that ever lowers the limit.
    BackpressureSignal,
    /// The request failed for a reason unrelated to load; it carries no
    /// congestion information and contributes no latency sample.
    OtherError,
}

/// Derives the control outcome from a completed call: success when the
/// downstream answered, `BackpressureSignal` exactly when the error was
/// classified as an overload signal, and `OtherError` otherwise.
///
/// The caller answers "is this a backpressure signal?" for its own error
/// type; the classification itself stays a capability of the service's error
/// representation.
pub fn classify_outcome(succeeded: bool, backpressure: bool) -> (outcome: Outcome)
    ensures
        outcome == (if succeeded {
            Outcome::Success
        } else if backpressure {
            Outcome::BackpressureSignal
        } else {
            Outcome::OtherError
        }),
{
    if succeeded {
        Outcome::Success
    } else if backpressure {
        Outcome::BackpressureSignal
    } else {
        Outcome::OtherError
    }
}

} // verus!
