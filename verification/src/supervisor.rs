//! The process supervisor: one slot that holds at most one handle.
//!
//! A start or a stop is settled in two steps, with the outside work between
//! them. The supervisor first decides what is to be done
//! ([`SupervisorState::request_start`], [`SupervisorState::request_stop`]);
//! the caller spawns or terminates; the supervisor then takes the outcome
//! ([`SupervisorState::launch_finished`], [`stop_finished`]). The caller
//! serialises these steps, so that no two requests interleave.

use vstd::prelude::*;
use crate::mode::{detect, spec_detect, EnvSignals, LaunchMode};
use crate::server::{spec_stop_message, stop, LaunchError, ServerHandle};

verus! {

/// What the supervisor reports to its callers.
#[derive(Clone, Debug, PartialEq, Eq)]
pub enum Status {
    /// A handle is held; the port is the one it was started for.
    Running(u16),
    /// No handle is held.
    Stopped,
    /// The last start or stop failed; holds the message for the user.
    Error(String),
}

/// What is to be done about a start request.
#[derive(Clone, Copy, Debug, PartialEq, Eq)]
pub enum StartDecision {
    /// A handle is already held, started for this port: spawn nothing.
    AlreadyRunning(u16),
    /// The slot is empty: launch in this mode.
    Launch(LaunchMode),
}

/// What is to be done about a stop request.
#[derive(Clone, Copy, Debug, PartialEq, Eq)]
pub enum StopDecision {
    /// The slot was empty: signal nothing.
    AlreadyStopped,
    /// The handle has left the slot: terminate its process and await its
    /// exit.
    Terminate(ServerHandle),
}

/// The outcome of a start.
#[derive(Clone, Debug, PartialEq, Eq)]
pub struct StartReport {
    pub status: Status,
    /// A handle that the slot declined because it already held one. Its
    /// process must be terminated by the caller.
    pub surplus: Option<ServerHandle>,
}

/// The slot and the output captured for the current or most recent run.
pub struct SupervisorState {
    slot: Option<ServerHandle>,
    captured: String,
}

/// The status that a slot shows.
pub open spec fn spec_status(slot: Option<ServerHandle>) -> Status {
    match slot {
        Some(handle) => Status::Running(handle.port),
        None => Status::Stopped,
    }
}

/// Whether a start on `slot` launches: only an empty slot does.
pub open spec fn start_launches(slot: Option<ServerHandle>) -> bool {
    slot is None
}

/// The slot after a start whose launch, where one is made, ends in
/// `outcome`. A held handle is never replaced.
pub open spec fn slot_after_start(
    slot: Option<ServerHandle>,
    outcome: Result<ServerHandle, LaunchError>,
) -> Option<ServerHandle> {
    match (slot, outcome) {
        (None, Ok(handle)) => Some(handle),
        _ => slot,
    }
}

/// Whether a stop on `slot` signals a process: only a held handle is
/// signalled.
pub open spec fn stop_signals(slot: Option<ServerHandle>) -> bool {
    slot is Some
}

/// The slot after a stop: empty, whether or not the termination succeeds.
pub open spec fn slot_after_stop(slot: Option<ServerHandle>) -> Option<ServerHandle> {
    None
}

/// The slot after a series of starts, the `i`-th of which would end in
/// `outcomes[i]` if it launched.
pub open spec fn slot_after_starts(
    slot: Option<ServerHandle>,
    outcomes: Seq<Result<ServerHandle, LaunchError>>,
) -> Option<ServerHandle>
    decreases outcomes.len(),
{
    if outcomes.len() == 0 {
        slot
    } else {
        slot_after_start(slot_after_starts(slot, outcomes.drop_last()), outcomes.last())
    }
}

/// The number of child processes that such a series of starts brings into
/// being: one for each start that launches and succeeds.
pub open spec fn children_spawned(
    slot: Option<ServerHandle>,
    outcomes: Seq<Result<ServerHandle, LaunchError>>,
) -> nat
    decreases outcomes.len(),
{
    if outcomes.len() == 0 {
        0
    } else {
        let before = slot_after_starts(slot, outcomes.drop_last());
        let spawned: nat = if start_launches(before) && outcomes.last() is Ok {
            1
        } else {
            0
        };
        children_spawned(slot, outcomes.drop_last()) + spawned
    }
}

impl SupervisorState {
    /// The handle in the slot.
    pub closed spec fn handle(&self) -> Option<ServerHandle> {
        self.slot
    }

    /// The captured output.
    pub closed spec fn output(&self) -> Seq<char> {
        self.captured@
    }

    /// An empty slot with no output.
    pub fn new() -> (state: SupervisorState)
        ensures
            state.handle() is None,
            state.output() == Seq::<char>::empty(),
    {
        SupervisorState { slot: None, captured: String::new() }
    }

    /// Reports what the slot holds. Nothing is asked of the process.
    pub fn status(&self) -> (status: Status)
        ensures
            status == spec_status(self.handle()),
    {
        match self.slot {
            Some(handle) => Status::Running(handle.port),
            None => Status::Stopped,
        }
    }

    /// Decides a start request. With a handle in the slot nothing is to be
    /// spawned; with none the launch mode is detected anew.
    pub fn request_start(&self, signals: &EnvSignals) -> (decision: StartDecision)
        ensures
            decision == match self.handle() {
                Some(handle) => StartDecision::AlreadyRunning(handle.port),
                None => StartDecision::Launch(spec_detect(*signals)),
            },
            decision is Launch <==> start_launches(self.handle()),
    {
        match self.slot {
            Some(handle) => StartDecision::AlreadyRunning(handle.port),
            None => StartDecision::Launch(detect(signals)),
        }
    }

    /// Takes the outcome of a launch. A handle enters an empty slot, and
    /// the output of the run before is dropped. A failure leaves the slot
    /// as it was and is reported in words. A handle that meets an occupied
    /// slot does not replace the one held: it comes back as surplus.
    pub fn launch_finished(&mut self, outcome: Result<ServerHandle, LaunchError>) -> (report:
        StartReport)
        ensures
            final(self).handle() == slot_after_start(old(self).handle(), outcome),
            match outcome {
                Ok(handle) => match old(self).handle() {
                    None => report.status == Status::Running(handle.port) && report.surplus is None
                        && final(self).output() == Seq::<char>::empty(),
                    Some(held) => report.status == Status::Running(held.port) && report.surplus
                        == Some(handle) && final(self).output() == old(self).output(),
                },
                Err(e) => report.status matches Status::Error(text) && text@ == e.spec_message()
                    && report.surplus is None && final(self).output() == old(self).output(),
            },
    {
        match outcome {
            Ok(handle) => match self.slot {
                None => {
                    self.slot = Some(handle);
                    self.captured = String::new();
                    StartReport { status: Status::Running(handle.port), surplus: None }
                },
                Some(held) => StartReport {
                    status: Status::Running(held.port),
                    surplus: Some(handle),
                },
            },
            Err(e) => StartReport { status: Status::Error(e.message()), surplus: None },
        }
    }

    /// Decides a stop request. The handle leaves the slot at once, so that
    /// the slot is empty whatever becomes of the termination; on an empty
    /// slot nothing is to be signalled.
    pub fn request_stop(&mut self) -> (decision: StopDecision)
        ensures
            final(self).handle() == slot_after_stop(old(self).handle()),
            final(self).output() == old(self).output(),
            decision == match old(self).handle() {
                Some(handle) => StopDecision::Terminate(handle),
                None => StopDecision::AlreadyStopped,
            },
            decision is Terminate <==> stop_signals(old(self).handle()),
    {
        match self.slot {
            Some(handle) => {
                self.slot = None;
                StopDecision::Terminate(handle)
            },
            None => StopDecision::AlreadyStopped,
        }
    }

    /// Adds to the captured output.
    pub fn record_output(&mut self, text: &str)
        ensures
            final(self).handle() == old(self).handle(),
            final(self).output() == old(self).output() + text@,
    {
        self.captured.append(text);
    }

    /// The output captured for the current or most recent run; empty where
    /// none was captured.
    pub fn logs(&self) -> (text: String)
        ensures
            text@ == self.output(),
    {
        self.captured.clone()
    }
}

/// The status after a stop whose termination was attempted on `handle`.
pub fn stop_finished(handle: ServerHandle, killed: Result<(), String>) -> (status: Status)
    ensures
        match killed {
            Ok(_) => status == Status::Stopped,
            Err(cause) => status matches Status::Error(text) && text@ == spec_stop_message(cause@),
        },
{
    match stop(handle, killed) {
        Ok(_) => Status::Stopped,
        Err(text) => Status::Error(text),
    }
}

/// Once a handle is held, further starts change nothing and spawn nothing.
pub proof fn lemma_starts_keep_held_handle(
    handle: ServerHandle,
    outcomes: Seq<Result<ServerHandle, LaunchError>>,
)
    ensures
        slot_after_starts(Some(handle), outcomes) == Some(handle),
        spec_status(slot_after_starts(Some(handle), outcomes)) == Status::Running(handle.port),
        children_spawned(Some(handle), outcomes) == 0,
    decreases outcomes.len(),
{
    if outcomes.len() > 0 {
        lemma_starts_keep_held_handle(handle, outcomes.drop_last());
    }
}

/// However many starts are made on an empty slot, at most one child comes
/// into being: exactly one where some launch succeeds, and exactly one
/// where starts are made and every launch would succeed.
pub proof fn lemma_starts_spawn_one_child(outcomes: Seq<Result<ServerHandle, LaunchError>>)
    ensures
        children_spawned(None, outcomes) <= 1,
        children_spawned(None, outcomes) == 1 <==> slot_after_starts(None, outcomes) is Some,
        slot_after_starts(None, outcomes) is Some <==> exists|i: int|
            0 <= i < outcomes.len() && #[trigger] outcomes[i] is Ok,
        outcomes.len() > 0 && (forall|i: int| 0 <= i < outcomes.len() ==> #[trigger] outcomes[i] is Ok)
            ==> children_spawned(None, outcomes) == 1,
    decreases outcomes.len(),
{
    if outcomes.len() > 0 && outcomes[0] is Ok {
        assert(exists|i: int| 0 <= i < outcomes.len() && #[trigger] outcomes[i] is Ok);
    }
    if outcomes.len() > 0 {
        let earlier = outcomes.drop_last();
        lemma_starts_spawn_one_child(earlier);
        let last = outcomes.len() - 1;
        if slot_after_starts(None, outcomes) is Some {
            if slot_after_starts(None, earlier) is Some {
                let i = choose|i: int| 0 <= i < earlier.len() && #[trigger] earlier[i] is Ok;
                assert(outcomes[i] is Ok);
            } else {
                assert(outcomes[last] is Ok);
            }
        } else {
            assert forall|i: int| 0 <= i < outcomes.len() implies !(#[trigger] outcomes[i] is Ok) by {
                if i < last {
                    assert(earlier[i] == outcomes[i]);
                }
            }
        }
    }
}

/// After a start that succeeds on an empty slot the status is running on
/// the handle's port, and stays so over any further starts.
pub proof fn lemma_running_after_start(
    handle: ServerHandle,
    later: Seq<Result<ServerHandle, LaunchError>>,
)
    ensures
        spec_status(slot_after_start(None, Ok(handle))) == Status::Running(handle.port),
        spec_status(slot_after_starts(slot_after_start(None, Ok(handle)), later))
            == Status::Running(handle.port),
{
    lemma_starts_keep_held_handle(handle, later);
}

/// A stop on an empty slot signals nothing and leaves it empty. After any
/// stop the status is stopped, and the next start launches and, where the
/// launch succeeds, holds the new handle.
pub proof fn lemma_stop_then_start(slot: Option<ServerHandle>, handle: ServerHandle)
    ensures
        !stop_signals(None),
        slot_after_stop(None) is None,
        spec_status(slot_after_stop(slot)) == Status::Stopped,
        start_launches(slot_after_stop(slot)),
        slot_after_start(slot_after_stop(slot), Ok(handle)) == Some(handle),
{
}

} // verus!
