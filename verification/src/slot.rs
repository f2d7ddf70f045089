//! The slot that owns the backend's process handle between startup and
//! shutdown.
//!
//! The slot is made empty, takes the outcome of the launch once, and gives the
//! handle up once, at the first shutdown, to whoever then owes the process its
//! kill request. What it gave up it never holds again.
//!
//! Every operation that changes the slot takes `&mut self`: the caller has the
//! slot to itself for the whole of the operation, so no two operations
//! interleave. A host that reaches the slot from more than one context keeps
//! it behind its lock and calls these operations with the lock held.

use vstd::prelude::*;

verus! {

/// Where the supervised process stands, as the supervisor sees it.
#[derive(Clone, Copy, Debug, PartialEq, Eq, Structural)]
pub enum Phase {
    /// Startup has not yet said whether there is a backend.
    Unstarted,
    /// Startup ended without a backend.
    Absent,
    /// A backend was launched and has not been given up.
    Running,
    /// The backend's handle was given up at shutdown.
    Terminated,
}

/// What the slot holds.
#[derive(Debug, PartialEq, Eq)]
pub enum Supervised<H> {
    /// Startup has not yet said whether there is a backend.
    Unstarted,
    /// Startup ended without a backend.
    Absent,
    /// The handle of the launched backend.
    Running(H),
    /// The handle was given up at shutdown.
    Terminated,
}

impl<H> Supervised<H> {
    /// The phase, without the handle.
    pub open spec fn phase(self) -> Phase {
        match self {
            Supervised::Unstarted => Phase::Unstarted,
            Supervised::Absent => Phase::Absent,
            Supervised::Running(_) => Phase::Running,
            Supervised::Terminated => Phase::Terminated,
        }
    }

    /// The handle in the slot, if there is one.
    pub open spec fn handle(self) -> Option<H> {
        match self {
            Supervised::Running(handle) => Some(handle),
            _ => None,
        }
    }

    /// What a slot holds once startup has told it the outcome of the launch.
    pub open spec fn recorded(outcome: Option<H>) -> Self {
        match outcome {
            Some(handle) => Supervised::Running(handle),
            None => Supervised::Absent,
        }
    }

    /// What the slot holds after it was offered the outcome of the launch:
    /// only a slot that startup has not yet spoken to takes it.
    pub open spec fn offered(self, outcome: Option<H>) -> Self {
        if self is Unstarted {
            Self::recorded(outcome)
        } else {
            self
        }
    }

    /// The handle that a shutdown in this state hands out to be killed.
    pub open spec fn kill_request(self) -> Option<H> {
        self.handle()
    }

    /// What the slot holds after a shutdown.
    pub open spec fn shut_down(self) -> Self {
        match self {
            Supervised::Running(_) => Supervised::Terminated,
            _ => self,
        }
    }

    /// How many kill requests `shutdowns` shutdowns in a row hand out,
    /// starting in this state.
    pub open spec fn kill_requests(self, shutdowns: nat) -> nat
        decreases shutdowns,
    {
        if shutdowns == 0 {
            0
        } else {
            let first: nat = if self.kill_request() is Some {
                1
            } else {
                0
            };
            first + self.shut_down().kill_requests((shutdowns - 1) as nat)
        }
    }
}

/// The slot: at most one handle, owned by the slot alone while it is there.
#[derive(Debug)]
pub struct BackendSlot<H> {
    state: Supervised<H>,
}

impl<H> View for BackendSlot<H> {
    type V = Supervised<H>;

    closed spec fn view(&self) -> Supervised<H> {
        self.state
    }
}

/// The slot would not take the outcome of a launch, because startup had spoken
/// to it before or its handle was already given up. It hands the outcome back:
/// a handle in it is still the caller's to deal with.
#[derive(Debug, PartialEq, Eq)]
pub struct NotAwaited<H> {
    pub outcome: Option<H>,
}

impl<H> BackendSlot<H> {
    /// An empty slot, before startup.
    pub fn new() -> (slot: Self)
        ensures
            slot@ == Supervised::<H>::Unstarted,
    {
        BackendSlot { state: Supervised::Unstarted }
    }

    /// The phase the slot is in.
    pub fn phase(&self) -> (phase: Phase)
        ensures
            phase == self@.phase(),
    {
        match &self.state {
            Supervised::Unstarted => Phase::Unstarted,
            Supervised::Absent => Phase::Absent,
            Supervised::Running(_) => Phase::Running,
            Supervised::Terminated => Phase::Terminated,
        }
    }

    /// Whether the slot holds no handle.
    pub fn is_empty(&self) -> (empty: bool)
        ensures
            empty == (self@.handle() is None),
    {
        match &self.state {
            Supervised::Running(_) => false,
            _ => true,
        }
    }

    /// Stores the outcome of the launch: the handle, or that there is none.
    /// Startup calls this once, before any shutdown can come.
    pub fn record(&mut self, outcome: Option<H>)
        requires
            old(self)@ is Unstarted,
        ensures
            final(self)@ == Supervised::recorded(outcome),
            final(self)@.handle() == outcome,
    {
        self.state = match outcome {
            Some(handle) => Supervised::Running(handle),
            None => Supervised::Absent,
        };
    }

    /// Stores the outcome of the launch if the slot still awaits one, and
    /// hands it back if not, leaving the slot as it was.
    pub fn try_record(&mut self, outcome: Option<H>) -> (taken: Result<(), NotAwaited<H>>)
        ensures
            taken is Ok <==> old(self)@ is Unstarted,
            taken is Err ==> taken->Err_0.outcome == outcome,
            final(self)@ == old(self)@.offered(outcome),
    {
        match &self.state {
            Supervised::Unstarted => {
                self.record(outcome);
                Ok(())
            },
            _ => Err(NotAwaited { outcome }),
        }
    }

    /// Empties the slot at shutdown and hands out the handle that was in it.
    /// The caller owes the process behind that handle one forceful kill
    /// request, and whatever comes of the request the slot stays empty. A slot
    /// without a handle is left as it was and hands out nothing, so a second
    /// shutdown does nothing.
    pub fn terminate_on_shutdown(&mut self) -> (kill: Option<H>)
        ensures
            kill == old(self)@.kill_request(),
            final(self)@ == old(self)@.shut_down(),
            final(self)@.handle() is None,
    {
        let mut state = Supervised::Terminated;
        core::mem::swap(&mut self.state, &mut state);
        match state {
            Supervised::Running(handle) => Some(handle),
            other => {
                self.state = other;
                None
            },
        }
    }
}

/// What the host is to report about the kill request it made at shutdown.
/// Neither stops the shutdown.
#[derive(Debug, PartialEq, Eq)]
pub enum ShutdownNote<E> {
    /// The request was made and the host reported no error.
    Killed,
    /// The host reported an error: the process had already exited, or the
    /// host was not allowed to kill it.
    KillFailed(E),
}

impl<E> ShutdownNote<E> {
    /// The note for what came of a kill request.
    pub open spec fn of(outcome: Result<(), E>) -> Self {
        match outcome {
            Ok(_) => ShutdownNote::Killed,
            Err(error) => ShutdownNote::KillFailed(error),
        }
    }

    /// Whether the note tells of something that went wrong, and so belongs on
    /// the error stream.
    pub fn is_error(&self) -> (failure: bool)
        ensures
            failure == (self is KillFailed),
    {
        match self {
            ShutdownNote::Killed => false,
            ShutdownNote::KillFailed(_) => true,
        }
    }
}

/// Turns what came of a kill request into a note. An error is reported and
/// goes no further.
pub fn kill_report<E>(outcome: Result<(), E>) -> (note: ShutdownNote<E>)
    ensures
        note == ShutdownNote::of(outcome),
{
    match outcome {
        Ok(_) => ShutdownNote::Killed,
        Err(error) => ShutdownNote::KillFailed(error),
    }
}

/// The slot holds a handle in the phase `Running` and in no other.
pub proof fn law_handle_iff_running<H>(state: Supervised<H>)
    ensures
        state.handle() is Some <==> state.phase() == Phase::Running,
{
}

/// After a shutdown the slot is empty, whatever it held before.
pub proof fn law_empty_after_shutdown<H>(state: Supervised<H>)
    ensures
        state.shut_down().handle() is None,
        state.shut_down().phase() != Phase::Running,
{
}

/// A second shutdown changes nothing and hands out nothing: two shutdowns in
/// a row leave the slot as one does, and the only kill request is the first
/// one's.
pub proof fn law_shutdown_is_idempotent<H>(state: Supervised<H>)
    ensures
        state.shut_down().shut_down() == state.shut_down(),
        state.shut_down().kill_request() is None,
        state.kill_requests(2) == state.kill_requests(1),
{
    reveal_with_fuel(Supervised::kill_requests, 3);
}

/// An empty slot hands out nothing, however many shutdowns come.
pub proof fn law_empty_slot_requests_no_kill<H>(state: Supervised<H>, shutdowns: nat)
    requires
        state.handle() is None,
    ensures
        state.kill_requests(shutdowns) == 0,
    decreases shutdowns,
{
    if shutdowns > 0 {
        law_empty_slot_requests_no_kill(state.shut_down(), (shutdowns - 1) as nat);
    }
}

/// When startup has recorded the outcome of the launch before the first
/// shutdown comes, the slot ends empty and a launched process is handed out
/// for its kill request exactly once, by the first shutdown, however many
/// shutdowns follow. Without a launched process nothing is ever handed out.
pub proof fn law_recorded_handle_is_killed_once<H>(outcome: Option<H>, shutdowns: nat)
    requires
        shutdowns >= 1,
    ensures
        Supervised::recorded(outcome).kill_request() == outcome,
        Supervised::recorded(outcome).shut_down().handle() is None,
        Supervised::recorded(outcome).kill_requests(shutdowns) == (if outcome is Some {
            1nat
        } else {
            0nat
        }),
{
    let state = Supervised::recorded(outcome);
    law_empty_slot_requests_no_kill(state.shut_down(), (shutdowns - 1) as nat);
}

/// Once the handle was given up the slot is never filled again: a shutdown
/// leaves it so, and it takes no outcome that it is offered.
pub proof fn law_cleared_slot_stays_empty<H>(state: Supervised<H>, outcome: Option<H>)
    requires
        state is Terminated,
    ensures
        state.shut_down() == state,
        state.offered(outcome) == state,
{
}

/// The slot is filled at most once: an outcome that is offered after startup
/// has spoken changes nothing.
pub proof fn law_recorded_once<H>(first: Option<H>, second: Option<H>)
    ensures
        Supervised::<H>::Unstarted.offered(first) == Supervised::recorded(first),
        Supervised::<H>::Unstarted.offered(first).offered(second) == Supervised::recorded(first),
{
}

} // verus!
