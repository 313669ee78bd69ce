//! Health probe: classification of one bounded health-check request.
//!
//! The embedding program issues a single HTTP GET against the backend's
//! health endpoint with a short timeout and reports what happened as a
//! plain value: `Some(status)` when a response arrived, `None` when the
//! request failed to complete (connection refused, timeout). The
//! classification into the three probe results is the logic verified here;
//! retry policy lives in the readiness poller, never in the probe.

use vstd::prelude::*;

verus! {

/// The outcome of a single readiness probe.
#[derive(Clone, Copy, PartialEq, Eq, Structural, Debug)]
pub enum ProbeResult {
    /// The backend answered with a success-class (2xx) response.
    Healthy,
    /// The backend answered, but not with a success-class response:
    /// the server is up yet not finished initializing.
    NotReady,
    /// The request failed to complete: connection refused or timed out.
    Unreachable,
}

/// What a completed response with the given status code, or a request
/// that never completed (`None`), means for readiness.
pub open spec fn spec_classify(status: Option<u16>) -> ProbeResult {
    match status {
        Option::Some(code) => if 200 <= code < 300 {
            ProbeResult::Healthy
        } else {
            ProbeResult::NotReady
        },
        Option::None => ProbeResult::Unreachable,
    }
}

/// Classify the reported outcome of one health-check request.
pub fn classify_probe(status: Option<u16>) -> (r: ProbeResult)
    ensures
        r == spec_classify(status),
{
    match status {
        Option::Some(code) => {
            if 200 <= code && code < 300 {
                ProbeResult::Healthy
            } else {
                ProbeResult::NotReady
            }
        },
        Option::None => ProbeResult::Unreachable,
    }
}

} // verus!
