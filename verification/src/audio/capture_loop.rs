//! The capture loop as a state machine.
//!
//! The thread that owns the audio client performs the actions and reports
//! what came of them; every decision is taken here. The stop flag is looked at
//! between waits, a signalled wait is followed by reads until the device has
//! nothing left, and the teardown runs in one fixed order.

use vstd::prelude::*;

verus! {

/// Longest wait for a packet, in milliseconds. It bounds how long a stop
/// request can go unnoticed while the device is silent.
pub const POLL_INTERVAL_MS: u32 = 100;

/// Result code of a wait that ended without a signal.
pub const WAIT_TIMEOUT: u32 = 258;

/// One step of the teardown.
#[derive(Clone, Copy, Debug, PartialEq, Eq, Structural)]
pub enum ShutdownStep {
    /// Reset the stream, which drops what is still buffered.
    Flush,
    /// Stop the stream.
    Stop,
    /// Close the event handle and release the clients.
    ReleaseHandles,
    /// Leave the threading context.
    Uninitialize,
}

/// Where the loop stands.
#[derive(Clone, Copy, Debug, PartialEq, Eq, Structural)]
pub enum LoopState {
    /// About to look at the stop flag.
    Polling,
    /// Waiting for the device's event.
    Waiting,
    /// Reading the packets that are ready.
    Draining,
    /// Tearing down; the step named is under way.
    Closing(ShutdownStep),
    /// Torn down.
    Finished,
}

/// What the thread reports.
#[derive(Clone, Copy, Debug, PartialEq, Eq, Structural)]
pub enum LoopEvent {
    /// The stop flag as it was read.
    StopFlag(bool),
    /// The wait returned with this result code.
    WaitReturned(u32),
    /// A read gave a packet of this many frames.
    Packet(u32),
    /// A read failed or the device had nothing.
    NoPacket,
    /// The teardown step under way is done.
    StepDone,
}

/// What the thread does next.
#[derive(Clone, Copy, Debug, PartialEq, Eq, Structural)]
pub enum LoopAction {
    /// Read the stop flag.
    CheckStop,
    /// Wait for the device's event, at most this many milliseconds.
    Wait(u32),
    /// Ask the device for the next packet.
    ReadPacket,
    /// Emit the packet of this many frames that was just read, give its
    /// buffer back, then ask for the next packet.
    Deliver(u32),
    /// Perform this teardown step.
    Shutdown(ShutdownStep),
    /// Leave the loop.
    Exit,
}

/// The state a fresh loop starts in, once its stream runs.
pub open spec fn initial_state() -> LoopState {
    LoopState::Polling
}

/// The action a state is waiting on. It is what a loop in that state does
/// first, and what it does again when a report does not fit the state.
pub open spec fn pending_action(state: LoopState) -> LoopAction {
    match state {
        LoopState::Polling => LoopAction::CheckStop,
        LoopState::Waiting => LoopAction::Wait(POLL_INTERVAL_MS),
        LoopState::Draining => LoopAction::ReadPacket,
        LoopState::Closing(step) => LoopAction::Shutdown(step),
        LoopState::Finished => LoopAction::Exit,
    }
}

/// The teardown step after `step`, if there is one.
pub open spec fn step_after(step: ShutdownStep) -> Option<ShutdownStep> {
    match step {
        ShutdownStep::Flush => Some(ShutdownStep::Stop),
        ShutdownStep::Stop => Some(ShutdownStep::ReleaseHandles),
        ShutdownStep::ReleaseHandles => Some(ShutdownStep::Uninitialize),
        ShutdownStep::Uninitialize => None,
    }
}

/// The teardown, first step first. Flushing before stopping, and both before
/// any handle is released, keeps the endpoint usable for the next session.
pub open spec fn shutdown_order() -> Seq<ShutdownStep> {
    seq![
        ShutdownStep::Flush,
        ShutdownStep::Stop,
        ShutdownStep::ReleaseHandles,
        ShutdownStep::Uninitialize,
    ]
}

/// The state that follows `state` on `event`.
pub open spec fn next_state(state: LoopState, event: LoopEvent) -> LoopState {
    match (state, event) {
        (LoopState::Polling, LoopEvent::StopFlag(true)) => LoopState::Closing(ShutdownStep::Flush),
        (LoopState::Polling, LoopEvent::StopFlag(false)) => LoopState::Waiting,
        (LoopState::Waiting, LoopEvent::WaitReturned(code)) => if code == WAIT_TIMEOUT {
            LoopState::Polling
        } else {
            LoopState::Draining
        },
        (LoopState::Draining, LoopEvent::Packet(frames)) => if frames == 0 {
            LoopState::Polling
        } else {
            LoopState::Draining
        },
        (LoopState::Draining, LoopEvent::NoPacket) => LoopState::Polling,
        (LoopState::Closing(step), LoopEvent::StepDone) => match step_after(step) {
            Some(next) => LoopState::Closing(next),
            None => LoopState::Finished,
        },
        _ => state,
    }
}

/// The action that `state` answers `event` with.
pub open spec fn next_action(state: LoopState, event: LoopEvent) -> LoopAction {
    match (state, event) {
        (LoopState::Draining, LoopEvent::Packet(frames)) => if frames == 0 {
            LoopAction::CheckStop
        } else {
            LoopAction::Deliver(frames)
        },
        _ => pending_action(next_state(state, event)),
    }
}

/// A capture loop.
#[derive(Clone, Copy, Debug)]
pub struct CaptureLoop {
    pub state: LoopState,
}

impl CaptureLoop {
    /// A loop whose stream has just been started.
    pub fn new() -> (fresh: CaptureLoop)
        ensures
            fresh.state == initial_state(),
    {
        CaptureLoop { state: LoopState::Polling }
    }

    /// The action the loop is waiting on.
    pub fn pending(&self) -> (action: LoopAction)
        ensures
            action == pending_action(self.state),
    {
        pending_of(self.state)
    }

    /// Takes a report and says what to do next.
    pub fn step(&mut self, event: LoopEvent) -> (action: LoopAction)
        ensures
            final(self).state == next_state(old(self).state, event),
            action == next_action(old(self).state, event),
    {
        let state = self.state;
        let (next, action): (LoopState, LoopAction) = match (state, event) {
            (LoopState::Polling, LoopEvent::StopFlag(stop)) => {
                if stop {
                    (
                        LoopState::Closing(ShutdownStep::Flush),
                        LoopAction::Shutdown(ShutdownStep::Flush),
                    )
                } else {
                    (LoopState::Waiting, LoopAction::Wait(POLL_INTERVAL_MS))
                }
            },
            (LoopState::Waiting, LoopEvent::WaitReturned(code)) => {
                if code == WAIT_TIMEOUT {
                    (LoopState::Polling, LoopAction::CheckStop)
                } else {
                    (LoopState::Draining, LoopAction::ReadPacket)
                }
            },
            (LoopState::Draining, LoopEvent::Packet(frames)) => {
                if frames == 0 {
                    (LoopState::Polling, LoopAction::CheckStop)
                } else {
                    (LoopState::Draining, LoopAction::Deliver(frames))
                }
            },
            (LoopState::Draining, LoopEvent::NoPacket) => (
                LoopState::Polling,
                LoopAction::CheckStop,
            ),
            (LoopState::Closing(step), LoopEvent::StepDone) => {
                match following_step(step) {
                    Some(next) => (LoopState::Closing(next), LoopAction::Shutdown(next)),
                    None => (LoopState::Finished, LoopAction::Exit),
                }
            },
            _ => (state, pending_of(state)),
        };
        self.state = next;
        action
    }
}

fn pending_of(state: LoopState) -> (action: LoopAction)
    ensures
        action == pending_action(state),
{
    match state {
        LoopState::Polling => LoopAction::CheckStop,
        LoopState::Waiting => LoopAction::Wait(POLL_INTERVAL_MS),
        LoopState::Draining => LoopAction::ReadPacket,
        LoopState::Closing(step) => LoopAction::Shutdown(step),
        LoopState::Finished => LoopAction::Exit,
    }
}

fn following_step(step: ShutdownStep) -> (next: Option<ShutdownStep>)
    ensures
        next == step_after(step),
{
    match step {
        ShutdownStep::Flush => Some(ShutdownStep::Stop),
        ShutdownStep::Stop => Some(ShutdownStep::ReleaseHandles),
        ShutdownStep::ReleaseHandles => Some(ShutdownStep::Uninitialize),
        ShutdownStep::Uninitialize => None,
    }
}

/// The state after the reports `events`, taken in order.
pub open spec fn run(state: LoopState, events: Seq<LoopEvent>) -> LoopState
    decreases events.len(),
{
    if events.len() == 0 {
        state
    } else {
        next_state(run(state, events.drop_last()), events.last())
    }
}

/// A loop leaves only through the teardown: whatever is reported, the state
/// `Finished` is entered from the last teardown step and from nowhere else.
pub proof fn lemma_exit_only_after_teardown(state: LoopState, event: LoopEvent)
    requires
        state != LoopState::Finished,
        next_state(state, event) == LoopState::Finished,
    ensures
        state == LoopState::Closing(ShutdownStep::Uninitialize),
        event == LoopEvent::StepDone,
{
}

/// The teardown begins when the stop flag is seen set, and only then; it
/// begins with the flush.
pub proof fn lemma_teardown_begins_on_stop(state: LoopState, event: LoopEvent)
    requires
        !(state is Closing),
        next_state(state, event) is Closing,
    ensures
        state == LoopState::Polling,
        event == LoopEvent::StopFlag(true),
        next_state(state, event) == LoopState::Closing(ShutdownStep::Flush),
        next_action(state, event) == LoopAction::Shutdown(ShutdownStep::Flush),
{
}

/// Once begun, the teardown performs the steps of `shutdown_order`, each
/// after the one before it is done, and then the loop leaves.
pub proof fn lemma_teardown_order(i: int)
    requires
        0 <= i < shutdown_order().len(),
    ensures
        pending_action(LoopState::Closing(shutdown_order()[i])) == LoopAction::Shutdown(
            shutdown_order()[i],
        ),
        i + 1 < shutdown_order().len() ==> next_state(
            LoopState::Closing(shutdown_order()[i]),
            LoopEvent::StepDone,
        ) == LoopState::Closing(shutdown_order()[i + 1]),
        i + 1 == shutdown_order().len() ==> next_state(
            LoopState::Closing(shutdown_order()[i]),
            LoopEvent::StepDone,
        ) == LoopState::Finished,
{
}

/// A set stop flag is never followed by another wait or read: from the
/// moment it is reported, the loop only tears down.
pub proof fn lemma_no_capture_after_stop(events: Seq<LoopEvent>)
    ensures
        run(LoopState::Closing(ShutdownStep::Flush), events) is Closing || run(
            LoopState::Closing(ShutdownStep::Flush),
            events,
        ) is Finished,
    decreases events.len(),
{
    if events.len() > 0 {
        lemma_no_capture_after_stop(events.drop_last());
    }
}

/// Every packet that is read with frames in it is delivered, one buffer for
/// each, and the device is asked again before the loop does anything else.
pub proof fn lemma_every_packet_delivered(frames: u32)
    requires
        frames > 0,
    ensures
        next_action(LoopState::Draining, LoopEvent::Packet(frames)) == LoopAction::Deliver(frames),
        next_state(LoopState::Draining, LoopEvent::Packet(frames)) == LoopState::Draining,
{
}

} // verus!
