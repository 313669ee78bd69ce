//! Readiness poller: bounded retries of the health probe.
//!
//! The poller is an explicit state machine. The embedding program performs
//! one probe per attempt, feeds the classified result into [`Poller::on_probe`],
//! and acts on the returned decision (sleep for the configured interval and
//! retry, or stop). Attempt numbers map to a coarse human-readable phase for
//! the status sink; delivery of those updates is best-effort and never
//! affects the poller's own result.
//!
//! [`wait_until_ready`] drives the machine over a given sequence of probe
//! results and carries the retry laws in its contract: the poller resolves
//! on the first healthy probe after exactly that many attempts with one
//! fewer sleep, and resolves unready after exactly `max_attempts` attempts
//! when no probe is healthy.

use vstd::prelude::*;

use crate::probe::ProbeResult;

verus! {

/// Coarse startup phase shown to the user while polling.
#[derive(Clone, Copy, PartialEq, Eq, Structural, Debug)]
pub enum Phase {
    /// Attempts 1 through 9.
    Starting,
    /// Attempts 10 through 29.
    Initializing,
    /// Attempts 30 and later.
    AlmostReady,
}

/// The phase that belongs to the given attempt number.
pub open spec fn spec_phase(attempt: int) -> Phase {
    if attempt < 10 {
        Phase::Starting
    } else if attempt < 30 {
        Phase::Initializing
    } else {
        Phase::AlmostReady
    }
}

/// Map an attempt number to its phase.
pub fn phase_for_attempt(attempt: u32) -> (p: Phase)
    requires
        attempt >= 1,
    ensures
        p == spec_phase(attempt as int),
{
    if attempt < 10 {
        Phase::Starting
    } else if attempt < 30 {
        Phase::Initializing
    } else {
        Phase::AlmostReady
    }
}

/// The status text pushed to the status sink for each phase.
pub open spec fn spec_phase_text(p: Phase) -> Seq<char> {
    match p {
        Phase::Starting => "starting"@,
        Phase::Initializing => "initializing/migrating"@,
        Phase::AlmostReady => "almost ready"@,
    }
}

/// The human-readable text for a phase.
pub fn phase_text(p: Phase) -> (t: &'static str)
    ensures
        t@ == spec_phase_text(p),
{
    match p {
        Phase::Starting => "starting",
        Phase::Initializing => "initializing/migrating",
        Phase::AlmostReady => "almost ready",
    }
}

/// Where the poller stands. The readiness state reaches `Ready` at most
/// once per process lifetime, and no probing happens after `Ready` or
/// `Failed`: [`Poller::on_probe`] refuses terminal states.
#[derive(Clone, Copy, PartialEq, Eq, Structural, Debug)]
pub enum ReadinessState {
    /// No probe has been made yet.
    Starting,
    /// `attempt` probes have completed, none of them healthy, and the
    /// attempt budget is not yet spent.
    Probing { attempt: u32 },
    /// A probe came back healthy on attempt `attempts_used`.
    Ready { attempts_used: u32 },
    /// The attempt budget was spent without a healthy probe.
    Failed,
}

/// What the embedding loop should do after an attempt.
#[derive(Clone, Copy, PartialEq, Eq, Structural, Debug)]
pub enum PollDecision {
    /// The backend is healthy: stop polling and report readiness.
    Ready,
    /// The attempt budget is spent: stop polling and report failure.
    Exhausted,
    /// Sleep for the configured interval, then probe again.
    SleepThenRetry,
}

/// The outcome of one attempt: its number, the phase to show, and the
/// decision to act on.
#[derive(Clone, Copy, PartialEq, Eq, Structural, Debug)]
pub struct PollStep {
    pub attempt: u32,
    pub phase: Phase,
    pub decision: PollDecision,
}

/// True once the poller has resolved, one way or the other.
pub open spec fn spec_is_terminal(s: ReadinessState) -> bool {
    s is Ready || s is Failed
}

/// The number of the next attempt, counted from 1. Meaningless (0) in
/// terminal states.
pub open spec fn spec_next_attempt(s: ReadinessState) -> int {
    match s {
        ReadinessState::Starting => 1,
        ReadinessState::Probing { attempt } => attempt + 1,
        ReadinessState::Ready { .. } => 0,
        ReadinessState::Failed => 0,
    }
}

/// The transition the poller makes when the next probe comes back with
/// `r`: ready on the first healthy result, failed once the budget is
/// spent, otherwise one more recorded attempt.
pub open spec fn spec_on_probe(s: ReadinessState, max_attempts: u32, r: ProbeResult) -> (
    ReadinessState,
    PollDecision,
)
    recommends
        !spec_is_terminal(s),
{
    let k = spec_next_attempt(s);
    if r is Healthy {
        (ReadinessState::Ready { attempts_used: k as u32 }, PollDecision::Ready)
    } else if k >= max_attempts {
        (ReadinessState::Failed, PollDecision::Exhausted)
    } else {
        (ReadinessState::Probing { attempt: k as u32 }, PollDecision::SleepThenRetry)
    }
}

/// Readiness poller for one backend startup.
#[derive(Clone, Copy, PartialEq, Eq, Structural, Debug)]
pub struct Poller {
    pub max_attempts: u32,
    pub interval_ms: u64,
    pub state: ReadinessState,
}

impl Poller {
    /// Well-formedness: the budget is at least one attempt, recorded
    /// attempts stay below the budget, and a ready resolution names an
    /// attempt within the budget.
    pub open spec fn wf(self) -> bool {
        &&& self.max_attempts >= 1
        &&& (self.state matches ReadinessState::Probing { attempt } ==> 1 <= attempt
            < self.max_attempts)
        &&& (self.state matches ReadinessState::Ready { attempts_used } ==> 1 <= attempts_used
            <= self.max_attempts)
    }

    /// A fresh poller that has not probed yet.
    pub fn new(max_attempts: u32, interval_ms: u64) -> (p: Poller)
        requires
            max_attempts >= 1,
        ensures
            p.wf(),
            p.max_attempts == max_attempts,
            p.interval_ms == interval_ms,
            p.state == ReadinessState::Starting,
    {
        Poller { max_attempts, interval_ms, state: ReadinessState::Starting }
    }

    /// The number of the attempt about to be made, counted from 1.
    pub fn next_attempt(&self) -> (k: u32)
        requires
            self.wf(),
            !spec_is_terminal(self.state),
        ensures
            k == spec_next_attempt(self.state),
            1 <= k <= self.max_attempts,
    {
        match self.state {
            ReadinessState::Starting => 1,
            ReadinessState::Probing { attempt } => attempt + 1,
            ReadinessState::Ready { .. } => unreached(),
            ReadinessState::Failed => unreached(),
        }
    }

    /// Record the result of the attempt that was just probed and decide
    /// what the embedding loop does next. Probing a resolved poller is
    /// refused: readiness is reached at most once.
    pub fn on_probe(&mut self, result: ProbeResult) -> (step: PollStep)
        requires
            old(self).wf(),
            !spec_is_terminal(old(self).state),
        ensures
            final(self).wf(),
            final(self).max_attempts == old(self).max_attempts,
            final(self).interval_ms == old(self).interval_ms,
            step.attempt == spec_next_attempt(old(self).state),
            step.phase == spec_phase(step.attempt as int),
            (final(self).state, step.decision) == spec_on_probe(
                old(self).state,
                old(self).max_attempts,
                result,
            ),
    {
        let k = self.next_attempt();
        let phase = phase_for_attempt(k);
        let decision: PollDecision;
        match result {
            ProbeResult::Healthy => {
                self.state = ReadinessState::Ready { attempts_used: k };
                decision = PollDecision::Ready;
            },
            _ => {
                if k >= self.max_attempts {
                    self.state = ReadinessState::Failed;
                    decision = PollDecision::Exhausted;
                } else {
                    self.state = ReadinessState::Probing { attempt: k };
                    decision = PollDecision::SleepThenRetry;
                }
            },
        }
        PollStep { attempt: k, phase, decision }
    }
}

/// What one full polling run did: whether the backend became ready, how
/// many attempts were made, how many sleeps fell between them, and the
/// phase pushed to the status sink for each attempt.
#[derive(PartialEq, Eq, Debug)]
pub struct PollReport {
    pub ready: bool,
    pub attempts: u32,
    pub sleeps: u32,
    pub phases: Vec<Phase>,
}

/// Drive the poller over a sequence of probe results, one per attempt.
///
/// The contract carries the retry laws: when the first healthy probe is
/// the `N`th, the run reports ready after exactly `N` attempts and `N - 1`
/// sleeps; when no probe within the budget is healthy, it reports not
/// ready after exactly `max_attempts` attempts. The embedding program
/// runs the same machine against live probes, sleeping exactly where a
/// run over the same results counts a sleep.
pub fn wait_until_ready(probes: &Vec<ProbeResult>, max_attempts: u32, interval_ms: u64) -> (r:
    PollReport)
    requires
        1 <= max_attempts,
        probes@.len() >= max_attempts,
    ensures
        r.ready == (exists|i: int| 0 <= i < max_attempts && probes@[i] is Healthy),
        1 <= r.attempts <= max_attempts,
        forall|i: int| 0 <= i < r.attempts - 1 ==> !(probes@[i] is Healthy),
        r.ready ==> probes@[r.attempts - 1] is Healthy && r.sleeps == r.attempts - 1,
        !r.ready ==> r.attempts == max_attempts && r.sleeps == max_attempts - 1 && !(probes@[
            max_attempts - 1] is Healthy),
        r.phases@.len() == r.attempts,
        forall|j: int| 0 <= j < r.attempts ==> r.phases@[j] == spec_phase(j + 1),
{
    let mut poller = Poller::new(max_attempts, interval_ms);
    let mut phases: Vec<Phase> = Vec::new();
    let mut attempts: u32 = 0;
    let mut sleeps: u32 = 0;
    let mut ready: bool = false;
    loop
        invariant_except_break
            poller.wf(),
            poller.max_attempts == max_attempts,
            probes@.len() >= max_attempts,
            !spec_is_terminal(poller.state),
            attempts == spec_next_attempt(poller.state) - 1,
            attempts < max_attempts,
            sleeps == attempts,
            !ready,
            forall|i: int| 0 <= i < attempts ==> !(probes@[i] is Healthy),
            phases@.len() == attempts,
            forall|j: int| 0 <= j < attempts ==> phases@[j] == spec_phase(j + 1),
        ensures
            1 <= attempts <= max_attempts,
            forall|i: int| 0 <= i < attempts - 1 ==> !(probes@[i] is Healthy),
            ready ==> probes@[attempts - 1] is Healthy && sleeps == attempts - 1,
            !ready ==> attempts == max_attempts && sleeps == max_attempts - 1 && !(probes@[
                attempts - 1] is Healthy),
            phases@.len() == attempts,
            forall|j: int| 0 <= j < attempts ==> phases@[j] == spec_phase(j + 1),
        decreases max_attempts - attempts,
    {
        let k = poller.next_attempt();
        let result = probes[(k - 1) as usize];
        let step = poller.on_probe(result);
        phases.push(step.phase);
        attempts = k;
        match step.decision {
            PollDecision::Ready => {
                ready = true;
                break;
            },
            PollDecision::Exhausted => {
                break;
            },
            PollDecision::SleepThenRetry => {
                sleeps = sleeps + 1;
            },
        }
    }
    proof {
        if ready {
            assert(probes@[attempts - 1] is Healthy);
        } else {
            assert(forall|i: int| 0 <= i < max_attempts ==> !(probes@[i] is Healthy)) by {
                assert(forall|i: int| 0 <= i < attempts - 1 ==> !(probes@[i] is Healthy));
                assert(!(probes@[attempts - 1] is Healthy));
            }
        }
    }
    PollReport { ready, attempts, sleeps, phases }
}

} // verus!
