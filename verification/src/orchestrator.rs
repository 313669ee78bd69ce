//! Lifecycle orchestrator: the full startup → ready → running → shutdown
//! sequence as one state machine.
//!
//! The embedding program raises events — the spawn outcome, the poller's
//! resolution, the exit request, the reply to the graceful-shutdown
//! request — and carries out the action each transition returns: start
//! the poll loop, show the main surface and close the splash, report a
//! fatal failure and exit non-zero, post the shutdown request, or execute
//! the final shutdown plan.
//!
//! The design assumes shutdown is only ever requested once the poll loop
//! has resolved and the orchestrator is `Running`; an exit request in any
//! other phase is ignored rather than raced against the poller.

use vstd::prelude::*;

use crate::endpoint::BackendEndpoint;
use crate::shutdown::ShutdownConfig;
use crate::shutdown::ShutdownPlan;
use crate::shutdown::ShutdownReply;
use crate::shutdown::shutdown;
use crate::shutdown::spec_shutdown;
use crate::supervisor::ProcessSupervisor;
use crate::supervisor::SupervisorState;

verus! {

/// Everything the orchestration is configured with.
#[derive(Clone, PartialEq, Eq, Debug)]
pub struct LifecycleConfig {
    pub endpoint: BackendEndpoint,
    /// Attempt budget of the readiness poller.
    pub max_attempts: u32,
    /// Sleep between readiness attempts, in milliseconds.
    pub interval_ms: u64,
    pub shutdown: ShutdownConfig,
}

/// Where the orchestrated lifecycle stands.
#[derive(Clone, Copy, PartialEq, Eq, Structural, Debug)]
pub enum LifecyclePhase {
    /// The backend is being spawned.
    Launching,
    /// The backend was spawned; the poller is waiting for it.
    WaitingForReady,
    /// The backend is healthy and the main surface is up.
    Running,
    /// An exit was requested; the graceful request is in flight.
    ShuttingDown,
    /// Spawn failed or readiness timed out; the process exits non-zero.
    Failed,
    /// The lifecycle is over.
    Terminated,
}

/// Which fatal condition was surfaced to the user.
#[derive(Clone, Copy, PartialEq, Eq, Structural, Debug)]
pub enum FailureReason {
    /// The backend executable could not be located or launched.
    SpawnFailed,
    /// The attempt budget was spent without a healthy probe.
    ReadinessTimeout,
}

/// What the embedding program tells the orchestrator.
#[derive(Clone, Copy, PartialEq, Eq, Structural, Debug)]
pub enum LifecycleEvent {
    /// The spawn succeeded and produced this child identifier.
    SpawnSucceeded { id: u64 },
    /// The backend executable could not be located or launched.
    SpawnFailed,
    /// The readiness poller resolved.
    ReadinessResolved { ready: bool },
    /// The host raised its one exit-request signal.
    ExitRequested,
    /// The graceful-shutdown request was answered.
    ShutdownReplied { reply: ShutdownReply },
    /// The fatal failure was shown to the user for its display delay.
    FailureHandled,
}

/// What the embedding program must do after a transition.
#[derive(Clone, Copy, PartialEq, Eq, Structural, Debug)]
pub enum OrchestratorAction {
    /// Run the readiness poll loop off the UI thread.
    AwaitReadiness,
    /// Create and show the main surface, close the splash surface.
    ShowMainSurface,
    /// Show a readable failure message, wait a short display delay,
    /// then exit the process with this status.
    FailAndExit { reason: FailureReason, exit_code: u8 },
    /// Post the graceful-shutdown request with its bounded timeout.
    RequestGracefulShutdown,
    /// Deliver the kill the plan asks for, if any, and wait out the
    /// plan's grace period.
    FinishShutdown { plan: ShutdownPlan },
    /// Nothing to do; stale or out-of-phase events change nothing.
    Ignore,
}

/// Owner of the whole lifecycle: configuration, current phase, and the
/// supervisor holding the one child handle.
#[derive(Debug)]
pub struct LifecycleOrchestrator {
    pub config: LifecycleConfig,
    pub phase: LifecyclePhase,
    pub supervisor: ProcessSupervisor,
}

/// The transition table. Every pair of phase and event not listed leaves
/// the orchestrator unchanged.
pub open spec fn spec_handle(o: LifecycleOrchestrator, ev: LifecycleEvent) -> (
    LifecycleOrchestrator,
    OrchestratorAction,
) {
    match (o.phase, ev) {
        (LifecyclePhase::Launching, LifecycleEvent::SpawnSucceeded { id }) => (
            LifecycleOrchestrator {
                config: o.config,
                phase: LifecyclePhase::WaitingForReady,
                supervisor: ProcessSupervisor { state: SupervisorState::Live { id } },
            },
            OrchestratorAction::AwaitReadiness,
        ),
        (LifecyclePhase::Launching, LifecycleEvent::SpawnFailed) => (
            LifecycleOrchestrator {
                config: o.config,
                phase: LifecyclePhase::Failed,
                supervisor: o.supervisor,
            },
            OrchestratorAction::FailAndExit { reason: FailureReason::SpawnFailed, exit_code: 1 },
        ),
        (LifecyclePhase::WaitingForReady, LifecycleEvent::ReadinessResolved { ready }) => if ready {
            (
                LifecycleOrchestrator {
                    config: o.config,
                    phase: LifecyclePhase::Running,
                    supervisor: o.supervisor,
                },
                OrchestratorAction::ShowMainSurface,
            )
        } else {
            (
                LifecycleOrchestrator {
                    config: o.config,
                    phase: LifecyclePhase::Failed,
                    supervisor: o.supervisor,
                },
                OrchestratorAction::FailAndExit {
                    reason: FailureReason::ReadinessTimeout,
                    exit_code: 1,
                },
            )
        },
        (LifecyclePhase::Running, LifecycleEvent::ExitRequested) => (
            LifecycleOrchestrator {
                config: o.config,
                phase: LifecyclePhase::ShuttingDown,
                supervisor: o.supervisor,
            },
            OrchestratorAction::RequestGracefulShutdown,
        ),
        (LifecyclePhase::ShuttingDown, LifecycleEvent::ShutdownReplied { reply }) => {
            let (sup2, plan) = spec_shutdown(o.supervisor.state, o.config.shutdown, reply);
            (
                LifecycleOrchestrator {
                    config: o.config,
                    phase: LifecyclePhase::Terminated,
                    supervisor: ProcessSupervisor { state: sup2 },
                },
                OrchestratorAction::FinishShutdown { plan },
            )
        },
        (LifecyclePhase::Failed, LifecycleEvent::FailureHandled) => (
            LifecycleOrchestrator {
                config: o.config,
                phase: LifecyclePhase::Terminated,
                supervisor: o.supervisor,
            },
            OrchestratorAction::Ignore,
        ),
        _ => (o, OrchestratorAction::Ignore),
    }
}

impl LifecycleOrchestrator {
    /// Well-formedness: the poll budget is positive, no child is owned
    /// before a spawn succeeds, and one live child is owned from then on
    /// until the lifecycle resolves.
    pub open spec fn wf(self) -> bool {
        &&& self.config.max_attempts >= 1
        &&& (self.phase is Launching ==> self.supervisor.state is Empty)
        &&& (self.phase is WaitingForReady || self.phase is Running || self.phase is ShuttingDown
            ==> self.supervisor.state is Live)
    }

    /// A fresh orchestrator, about to spawn the backend.
    pub fn new(config: LifecycleConfig) -> (o: LifecycleOrchestrator)
        requires
            config.max_attempts >= 1,
        ensures
            o.wf(),
            o.config == config,
            o.phase is Launching,
            o.supervisor.state is Empty,
    {
        LifecycleOrchestrator {
            config,
            phase: LifecyclePhase::Launching,
            supervisor: ProcessSupervisor::new(),
        }
    }

    /// Make the transition for one event and hand back the action the
    /// embedding program must carry out.
    pub fn handle_event(&mut self, ev: LifecycleEvent) -> (a: OrchestratorAction)
        requires
            old(self).wf(),
        ensures
            final(self).wf(),
            (*final(self), a) == spec_handle(*old(self), ev),
    {
        match (self.phase, ev) {
            (LifecyclePhase::Launching, LifecycleEvent::SpawnSucceeded { id }) => {
                self.supervisor.adopt(id);
                self.phase = LifecyclePhase::WaitingForReady;
                OrchestratorAction::AwaitReadiness
            },
            (LifecyclePhase::Launching, LifecycleEvent::SpawnFailed) => {
                self.phase = LifecyclePhase::Failed;
                OrchestratorAction::FailAndExit {
                    reason: FailureReason::SpawnFailed,
                    exit_code: 1,
                }
            },
            (LifecyclePhase::WaitingForReady, LifecycleEvent::ReadinessResolved { ready }) => {
                if ready {
                    self.phase = LifecyclePhase::Running;
                    OrchestratorAction::ShowMainSurface
                } else {
                    self.phase = LifecyclePhase::Failed;
                    OrchestratorAction::FailAndExit {
                        reason: FailureReason::ReadinessTimeout,
                        exit_code: 1,
                    }
                }
            },
            (LifecyclePhase::Running, LifecycleEvent::ExitRequested) => {
                self.phase = LifecyclePhase::ShuttingDown;
                OrchestratorAction::RequestGracefulShutdown
            },
            (LifecyclePhase::ShuttingDown, LifecycleEvent::ShutdownReplied { reply }) => {
                let plan = shutdown(&mut self.supervisor, &self.config.shutdown, reply);
                self.phase = LifecyclePhase::Terminated;
                OrchestratorAction::FinishShutdown { plan }
            },
            (LifecyclePhase::Failed, LifecycleEvent::FailureHandled) => {
                self.phase = LifecyclePhase::Terminated;
                OrchestratorAction::Ignore
            },
            _ => OrchestratorAction::Ignore,
        }
    }
}

/// Law: once shutdown has begun, the reply event always brings the
/// orchestrator to `Terminated`, whatever the backend replied. Shutdown
/// completes with any outcome and never stalls.
pub proof fn lemma_shutdown_always_terminates(o: LifecycleOrchestrator, reply: ShutdownReply)
    requires
        o.phase is ShuttingDown,
    ensures
        spec_handle(o, LifecycleEvent::ShutdownReplied { reply }).0.phase is Terminated,
{
}

/// Law: every transition into `Failed` leaves through `FailAndExit` with
/// a non-zero status — the two fatal conditions, spawn failure and
/// readiness timeout, are exactly the user-visible failures.
pub proof fn lemma_failures_exit_nonzero(o: LifecycleOrchestrator, ev: LifecycleEvent)
    requires
        !(o.phase is Failed),
        spec_handle(o, ev).0.phase is Failed,
    ensures
        spec_handle(o, ev).1 matches OrchestratorAction::FailAndExit { exit_code, .. }
            && exit_code != 0,
{
}

} // verus!
