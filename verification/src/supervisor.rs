//! Process supervisor: ownership of the single backend child process.
//!
//! The supervisor owns the one handle slot for the spawned backend. The
//! embedding program performs the actual spawn and reports its outcome;
//! on exit it carries out the kill signal the supervisor asks for. At most
//! one live handle exists at a time, and terminating a handle that was
//! already terminated, or whose process already exited, is a no-op rather
//! than an error.

use vstd::prelude::*;

verus! {

/// Failure to locate or launch the backend executable. Fatal to the
/// orchestrator: the environment is broken and nothing retries a spawn.
#[derive(Clone, Copy, PartialEq, Eq, Structural, Debug)]
pub struct SpawnError;

/// The supervisor's one handle slot.
#[derive(Clone, Copy, PartialEq, Eq, Structural, Debug)]
pub enum SupervisorState {
    /// No child has been adopted yet.
    Empty,
    /// A live child with the given identifier is owned.
    Live { id: u64 },
    /// The child with the given identifier was terminated or exited.
    Terminated { id: u64 },
}

/// The kill signal the embedding program must deliver, if any.
#[derive(Clone, Copy, PartialEq, Eq, Structural, Debug)]
pub enum KillAction {
    /// Send an unconditional kill signal to the child with this identifier.
    Signal { id: u64 },
    /// Nothing to do: no live child is owned.
    NoOp,
}

/// What terminating does to the slot: a live handle is killed once, any
/// other slot is left untouched with nothing to signal.
pub open spec fn spec_terminate(s: SupervisorState) -> (SupervisorState, KillAction) {
    match s {
        SupervisorState::Live { id } => (
            SupervisorState::Terminated { id },
            KillAction::Signal { id },
        ),
        _ => (s, KillAction::NoOp),
    }
}

/// Owner of the single backend child handle.
#[derive(Clone, Copy, PartialEq, Eq, Structural, Debug)]
pub struct ProcessSupervisor {
    pub state: SupervisorState,
}

impl ProcessSupervisor {
    /// A supervisor with an empty handle slot.
    pub fn new() -> (s: ProcessSupervisor)
        ensures
            s.state == SupervisorState::Empty,
    {
        ProcessSupervisor { state: SupervisorState::Empty }
    }

    /// Adopt the handle of a freshly spawned child. The slot must be
    /// empty: a single backend instance exists per orchestration.
    pub fn adopt(&mut self, id: u64)
        requires
            old(self).state == SupervisorState::Empty,
        ensures
            final(self).state == (SupervisorState::Live { id }),
    {
        self.state = SupervisorState::Live { id };
    }

    /// Record the outcome of the one spawn attempt: the embedding
    /// program performs the actual spawn and reports the identifier it
    /// produced, or that the executable could not be located or
    /// launched. The slot must be empty — a single backend instance
    /// exists per orchestration — and stays empty on failure, which is
    /// fatal and never retried.
    pub fn record_spawn(&mut self, spawned: Option<u64>) -> (r: Result<u64, SpawnError>)
        requires
            old(self).state == SupervisorState::Empty,
        ensures
            match spawned {
                Option::Some(id) => r == Ok::<u64, SpawnError>(id) && final(self).state == (
                SupervisorState::Live { id }),
                Option::None => r == Err::<u64, SpawnError>(SpawnError) && final(self).state
                    == SupervisorState::Empty,
            },
    {
        match spawned {
            Option::Some(id) => {
                self.state = SupervisorState::Live { id };
                Ok(id)
            },
            Option::None => Err(SpawnError),
        }
    }

    /// Note that the child exited on its own: the handle is no longer
    /// live, and a later terminate has nothing left to signal.
    pub fn record_exit(&mut self)
        ensures
            final(self).state == spec_terminate(old(self).state).0,
    {
        if let SupervisorState::Live { id } = self.state {
            self.state = SupervisorState::Terminated { id };
        }
    }

    /// Ask for the unconditional kill of the owned child. Idempotent:
    /// only a live handle yields a signal, and the slot then remembers
    /// the termination so that nothing is signalled twice.
    pub fn terminate(&mut self) -> (a: KillAction)
        ensures
            (final(self).state, a) == spec_terminate(old(self).state),
    {
        match self.state {
            SupervisorState::Live { id } => {
                self.state = SupervisorState::Terminated { id };
                KillAction::Signal { id }
            },
            _ => KillAction::NoOp,
        }
    }
}

/// Law: terminating is idempotent. After one terminate, a second one —
/// including one on a handle whose process already exited, which the
/// slot records the same way — changes nothing and signals nothing.
pub proof fn lemma_terminate_idempotent(s: SupervisorState)
    ensures
        ({
            let (s1, _) = spec_terminate(s);
            let (s2, a2) = spec_terminate(s1);
            s2 == s1 && a2 == KillAction::NoOp
        }),
{
}

} // verus!
