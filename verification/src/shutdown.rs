//! Shutdown coordinator: graceful stop with a forced-kill fallback.
//!
//! On exit the embedding program posts one graceful-shutdown request to
//! the backend with a short bounded timeout and reports the reply as a
//! plain value. The coordinator classifies the reply and plans the rest:
//! an acknowledged request earns the backend a fixed grace period to take
//! its own process tree down; any other reply falls through to a forced
//! kill via the process supervisor. No path retries and no path waits
//! beyond the request timeout plus the grace period.

use vstd::prelude::*;

use crate::supervisor::KillAction;
use crate::supervisor::ProcessSupervisor;
use crate::supervisor::spec_terminate;

verus! {

/// How the shutdown attempt ended.
#[derive(Clone, Copy, PartialEq, Eq, Structural, Debug)]
pub enum ShutdownOutcome {
    /// The backend acknowledged the graceful request with a success
    /// response and is expected to terminate itself.
    GracefulAcked,
    /// The request completed or timed out without an acknowledgment.
    GracefulTimedOut,
    /// The request never reached the backend: connection refused.
    Unreachable,
    /// The backend was killed forcefully after the graceful attempt
    /// did not succeed.
    ForcedKill,
}

/// What the bounded graceful-shutdown request came back with.
#[derive(Clone, Copy, PartialEq, Eq, Structural, Debug)]
pub enum ShutdownReply {
    /// A response arrived with this status code.
    Status { code: u16 },
    /// The request timed out.
    TimedOut,
    /// The connection was refused or otherwise never established.
    ConnectionFailed,
}

/// Timing budget of the shutdown path, in milliseconds.
#[derive(Clone, Copy, PartialEq, Eq, Structural, Debug)]
pub struct ShutdownConfig {
    /// Bound on the one graceful-shutdown request.
    pub request_timeout_ms: u64,
    /// Fixed wait granted to an acknowledged backend to exit cleanly.
    pub grace_period_ms: u64,
}

/// What the embedding program must still do to finish shutting down.
#[derive(Clone, Copy, PartialEq, Eq, Structural, Debug)]
pub struct ShutdownPlan {
    pub outcome: ShutdownOutcome,
    /// The kill to deliver, if the graceful attempt did not succeed.
    pub kill: KillAction,
    /// How long to wait for an acknowledged backend to exit on its own.
    pub wait_ms: u64,
}

/// How a reply classifies before any fallback: a success-class response
/// is an acknowledgment, a refused connection means the backend was
/// unreachable, and anything else counts as a graceful attempt that ran
/// out of time.
pub open spec fn spec_classify_reply(reply: ShutdownReply) -> ShutdownOutcome {
    match reply {
        ShutdownReply::Status { code } => if 200 <= code < 300 {
            ShutdownOutcome::GracefulAcked
        } else {
            ShutdownOutcome::GracefulTimedOut
        },
        ShutdownReply::TimedOut => ShutdownOutcome::GracefulTimedOut,
        ShutdownReply::ConnectionFailed => ShutdownOutcome::Unreachable,
    }
}

/// Classify the reply to the graceful-shutdown request.
pub fn classify_reply(reply: ShutdownReply) -> (o: ShutdownOutcome)
    ensures
        o == spec_classify_reply(reply),
{
    match reply {
        ShutdownReply::Status { code } => {
            if 200 <= code && code < 300 {
                ShutdownOutcome::GracefulAcked
            } else {
                ShutdownOutcome::GracefulTimedOut
            }
        },
        ShutdownReply::TimedOut => ShutdownOutcome::GracefulTimedOut,
        ShutdownReply::ConnectionFailed => ShutdownOutcome::Unreachable,
    }
}

/// What finishing the shutdown does to the supervisor's slot, and the
/// plan handed back, for a given reply: an acknowledged request keeps the
/// child untouched and grants the grace period; every other reply falls
/// through to forced termination with no further waiting.
pub open spec fn spec_shutdown(
    sup: crate::supervisor::SupervisorState,
    cfg: ShutdownConfig,
    reply: ShutdownReply,
) -> (crate::supervisor::SupervisorState, ShutdownPlan) {
    if spec_classify_reply(reply) == ShutdownOutcome::GracefulAcked {
        (
            sup,
            ShutdownPlan {
                outcome: ShutdownOutcome::GracefulAcked,
                kill: KillAction::NoOp,
                wait_ms: cfg.grace_period_ms,
            },
        )
    } else {
        let (sup2, kill) = spec_terminate(sup);
        (sup2, ShutdownPlan { outcome: ShutdownOutcome::ForcedKill, kill, wait_ms: 0 })
    }
}

/// Finish the shutdown once the graceful request has been answered.
///
/// An acknowledged request keeps the child untouched — the backend kills
/// its own tree — and grants it the grace period. Every other reply falls
/// through to forced termination: the supervisor gives up its live handle
/// exactly once and the outcome becomes `ForcedKill`, with no further
/// waiting.
pub fn shutdown(sup: &mut ProcessSupervisor, cfg: &ShutdownConfig, reply: ShutdownReply) -> (p:
    ShutdownPlan)
    ensures
        (final(sup).state, p) == spec_shutdown(old(sup).state, *cfg, reply),
        p.wait_ms <= cfg.grace_period_ms,
{
    let classified = classify_reply(reply);
    match classified {
        ShutdownOutcome::GracefulAcked => ShutdownPlan {
            outcome: ShutdownOutcome::GracefulAcked,
            kill: KillAction::NoOp,
            wait_ms: cfg.grace_period_ms,
        },
        _ => {
            let kill = sup.terminate();
            ShutdownPlan { outcome: ShutdownOutcome::ForcedKill, kill, wait_ms: 0 }
        },
    }
}

/// The wait the plan for this reply asks for, on top of the one bounded
/// request.
pub open spec fn spec_planned_wait(cfg: ShutdownConfig, reply: ShutdownReply) -> int {
    if spec_classify_reply(reply) == ShutdownOutcome::GracefulAcked {
        cfg.grace_period_ms as int
    } else {
        0
    }
}

/// Law: shutdown is bounded. Whatever the backend replies — and so
/// however responsive it is — the coordinator spends at most the one
/// request, bounded by its timeout, plus the planned wait, and the total
/// never exceeds the request timeout plus the grace period. No shutdown
/// path blocks forever.
pub proof fn lemma_shutdown_bounded(cfg: ShutdownConfig, reply: ShutdownReply)
    ensures
        cfg.request_timeout_ms + spec_planned_wait(cfg, reply) <= cfg.request_timeout_ms
            + cfg.grace_period_ms,
{
}

} // verus!
