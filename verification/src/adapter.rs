//! The readiness adapter, without its I/O.
//!
//! The library never touches a socket or the scheduler. Each operation is a
//! state machine that is driven one answer at a time: it is handed an
//! [`Event`], the outcome of the previous outside call, and replies with a
//! [`Step`], which is either the next outside [`Call`] to make or the result
//! of the poll. The caller owns the socket, performs the calls and feeds the
//! answers back.
//!
//! This module holds the vocabulary of that exchange and the reconciliation
//! of the scheduler's readiness with the message queue's own event mask.

use crate::error::Error;
use crate::flags::{is_signalled, signalled, Direction};
use crate::message::Frame;
use vstd::prelude::*;

verus! {

/// Readiness as the host scheduler reports it, and as reconciliation decides.
#[derive(Clone, Copy, Debug, PartialEq, Eq, Structural)]
pub enum Readiness {
    Ready,
    Pending,
}

/// One outside call for the owner of the socket to make.
#[derive(Clone, Copy, Debug, PartialEq, Eq, Structural)]
pub enum Call {
    /// Ask the scheduler whether the registration is ready for the direction,
    /// registering the task to be woken if not. Answer: `Event::Scheduler`.
    PollReady(Direction),
    /// Read the message queue's event mask. Answer: `Event::Events`.
    GetEvents,
    /// Clear the scheduler's readiness for the direction, arming the next
    /// wake. Answer: `Event::Cleared`.
    ClearReady(Direction),
    /// Schedule an immediate wake of the current task. Answer: `Event::Woken`.
    Wake,
    /// Send the front frame of the multipart with these flags. Answer:
    /// `Event::Sent` or `Event::WouldBlock`.
    Send(i32),
    /// Receive one frame with these flags. Answer: `Event::Received` or
    /// `Event::WouldBlock`.
    Receive(i32),
}

/// What the outside world answered. Any call may also answer
/// `Event::Failed`.
#[derive(Clone, Debug, PartialEq, Eq)]
pub enum Event {
    /// The scheduler polls the operation: a poll begins.
    Poll,
    /// The scheduler's view of the registration.
    Scheduler(Readiness),
    /// The message queue's event mask.
    Events(i16),
    /// The scheduler's readiness was cleared.
    Cleared,
    /// The wake was scheduled.
    Woken,
    /// The socket accepted the frame.
    Sent,
    /// The socket handed out a frame.
    Received(Frame),
    /// The socket would have blocked; nothing was transferred.
    WouldBlock,
    /// The call failed.
    Failed(Error),
}

/// The reply of a state machine to one event.
#[derive(Clone, Debug, PartialEq, Eq)]
pub enum Step<T> {
    /// The poll goes on: make this call and come back with its answer.
    Call(Call),
    /// The poll ends: nothing yet, the task will be woken.
    Pending,
    /// The poll ends with a value.
    Ready(T),
    /// The poll ends with an error.
    Failed(Error),
}

/// What reconciliation decides from the two views of readiness.
#[derive(Clone, Copy, Debug, PartialEq, Eq, Structural)]
pub struct Reconciled {
    /// Whether the transfer may be attempted.
    pub outcome: Readiness,
    /// Whether the scheduler's readiness is cleared first.
    pub clear: bool,
    /// Whether an immediate wake of the task is scheduled after clearing.
    pub wake: bool,
}

/// The three-way reconciliation. The event mask is authoritative: the
/// transfer is attempted exactly when the mask signals the direction. Where
/// the scheduler disagrees with the mask, or both say "not ready", its
/// readiness is cleared to arm the next wake; where the scheduler lags behind
/// a ready socket, the task is also woken at once.
pub open spec fn reconciled(scheduler: Readiness, signalled: bool) -> Reconciled {
    Reconciled {
        outcome: if signalled {
            Readiness::Ready
        } else {
            Readiness::Pending
        },
        clear: !(scheduler == Readiness::Ready && signalled),
        wake: scheduler == Readiness::Pending && signalled,
    }
}

/// Reconciles the scheduler's answer with what the event mask signals.
pub fn reconcile(scheduler: Readiness, signalled: bool) -> (decision: Reconciled)
    ensures
        decision == reconciled(scheduler, signalled),
{
    match scheduler {
        Readiness::Pending => if signalled {
            Reconciled { outcome: Readiness::Ready, clear: true, wake: true }
        } else {
            Reconciled { outcome: Readiness::Pending, clear: true, wake: false }
        },
        Readiness::Ready => if signalled {
            Reconciled { outcome: Readiness::Ready, clear: false, wake: false }
        } else {
            Reconciled { outcome: Readiness::Pending, clear: true, wake: false }
        },
    }
}

/// A wake is scheduled only together with a clear and only when the
/// transfer goes ahead; and a poll that ends pending has always cleared the
/// scheduler's readiness, so the task neither sleeps through an edge nor
/// spins on a stale one.
pub proof fn lemma_reconciled(scheduler: Readiness, signalled: bool)
    ensures
        reconciled(scheduler, signalled).wake ==> reconciled(scheduler, signalled).clear
            && reconciled(scheduler, signalled).outcome == Readiness::Ready,
        reconciled(scheduler, signalled).outcome == Readiness::Pending ==> reconciled(
            scheduler,
            signalled,
        ).clear,
{
}

/// How far the reconciliation of one poll has come: which answer it waits for.
#[derive(Clone, Copy, Debug, PartialEq, Eq, Structural)]
pub enum Gate {
    /// The scheduler was asked.
    Scheduler,
    /// The event mask was asked for; holds the scheduler's answer.
    Events(Readiness),
    /// The readiness is being cleared; holds whether a wake follows and how
    /// the poll then goes on.
    Clearing(bool, Readiness),
    /// The wake is being scheduled; the transfer goes ahead after it.
    Waking,
}

/// The reply of the reconciliation to one event.
#[derive(Clone, Copy, Debug, PartialEq, Eq, Structural)]
pub enum GateStep {
    /// Make the call, and wait for its answer in this state.
    Call(Call, Gate),
    /// The socket is ready: attempt the transfer.
    Open,
    /// The socket is not ready: the poll ends pending.
    Shut,
    /// An outside call failed, or the answer was not the one waited for.
    Failed(Error),
}

/// The first call of every reconciliation: ask the scheduler.
pub open spec fn gate_entry(direction: Direction) -> GateStep {
    GateStep::Call(Call::PollReady(direction), Gate::Scheduler)
}

/// How a reconciliation ends.
pub open spec fn gate_outcome(outcome: Readiness) -> GateStep {
    match outcome {
        Readiness::Ready => GateStep::Open,
        Readiness::Pending => GateStep::Shut,
    }
}

/// The reconciliation as a transition function. The scheduler is asked
/// first, then the event mask, whatever the scheduler said; then the
/// readiness is cleared and the task woken as `reconciled` decides.
pub open spec fn gate_step(direction: Direction, gate: Gate, event: Event) -> GateStep {
    match (gate, event) {
        (_, Event::Failed(error)) => GateStep::Failed(error),
        (Gate::Scheduler, Event::Scheduler(answer)) => GateStep::Call(
            Call::GetEvents,
            Gate::Events(answer),
        ),
        (Gate::Events(answer), Event::Events(mask)) => {
            let decision = reconciled(answer, signalled(direction, mask));
            if decision.clear {
                GateStep::Call(
                    Call::ClearReady(direction),
                    Gate::Clearing(decision.wake, decision.outcome),
                )
            } else {
                gate_outcome(decision.outcome)
            }
        },
        (Gate::Clearing(wake, outcome), Event::Cleared) => if wake {
            GateStep::Call(Call::Wake, Gate::Waking)
        } else {
            gate_outcome(outcome)
        },
        (Gate::Waking, Event::Woken) => GateStep::Open,
        _ => GateStep::Failed(Error::Reused),
    }
}

fn conclude(outcome: Readiness) -> (step: GateStep)
    ensures
        step == gate_outcome(outcome),
{
    match outcome {
        Readiness::Ready => GateStep::Open,
        Readiness::Pending => GateStep::Shut,
    }
}

/// Begins the readiness query for `direction`.
pub fn begin_poll_ready(direction: Direction) -> (step: GateStep)
    ensures
        step == gate_entry(direction),
{
    GateStep::Call(Call::PollReady(direction), Gate::Scheduler)
}

/// Advances the readiness query for `direction` by one answer.
pub fn poll_ready(direction: Direction, gate: Gate, event: Event) -> (step: GateStep)
    ensures
        step == gate_step(direction, gate, event),
{
    match event {
        Event::Failed(error) => GateStep::Failed(error),
        Event::Scheduler(answer) => match gate {
            Gate::Scheduler => GateStep::Call(Call::GetEvents, Gate::Events(answer)),
            _ => GateStep::Failed(Error::Reused),
        },
        Event::Events(mask) => match gate {
            Gate::Events(answer) => {
                let decision = reconcile(answer, is_signalled(direction, mask));
                if decision.clear {
                    GateStep::Call(
                        Call::ClearReady(direction),
                        Gate::Clearing(decision.wake, decision.outcome),
                    )
                } else {
                    conclude(decision.outcome)
                }
            },
            _ => GateStep::Failed(Error::Reused),
        },
        Event::Cleared => match gate {
            Gate::Clearing(wake, outcome) => if wake {
                GateStep::Call(Call::Wake, Gate::Waking)
            } else {
                conclude(outcome)
            },
            _ => GateStep::Failed(Error::Reused),
        },
        Event::Woken => match gate {
            Gate::Waking => GateStep::Open,
            _ => GateStep::Failed(Error::Reused),
        },
        _ => GateStep::Failed(Error::Reused),
    }
}

/// Advances the query "may a frame be written" by one answer.
pub fn poll_send_ready(gate: Gate, event: Event) -> (step: GateStep)
    ensures
        step == gate_step(Direction::Send, gate, event),
{
    poll_ready(Direction::Send, gate, event)
}

/// Advances the query "may a frame be read" by one answer.
pub fn poll_receive_ready(gate: Gate, event: Event) -> (step: GateStep)
    ensures
        step == gate_step(Direction::Receive, gate, event),
{
    poll_ready(Direction::Receive, gate, event)
}

} // verus!
