//! The two one-shot operations on a socket: sending one multipart and
//! receiving one multipart.
//!
//! Both hold the adapter, the caller's handle on the socket and its
//! registration, for as long as they run and hand it back with their result.
//! The adapter is never inspected here, only kept and passed on, so its type
//! is a parameter.

use crate::adapter::{
    begin_poll_ready, gate_entry, gate_step, poll_receive_ready, poll_send_ready, Call, Event,
    Gate, GateStep, Step,
};
use crate::error::Error;
use crate::flags::{
    flags_of, front_place, place_of, receive_flags, send_flags, Direction, DONTWAIT,
};
use crate::message::{Frame, Multipart};
use vstd::prelude::*;

verus! {

/// Which answer a send waits for.
#[derive(Clone, Copy, Debug, PartialEq, Eq, Structural)]
pub enum SendPhase {
    /// No poll is running.
    Idle,
    /// The readiness of the socket is being reconciled.
    Gate(Gate),
    /// The front frame was handed to the socket.
    Sending,
    /// The socket would have blocked; the scheduler's readiness is being
    /// cleared before the poll ends pending.
    Backoff,
    /// The send has failed with this error. It still holds the adapter and
    /// the frames it did not send, and does nothing more.
    Failed(Error),
}

/// The state of a send as contracts see it.
pub struct RequestView<A> {
    /// The adapter, while the send holds it.
    pub adapter: Option<A>,
    /// The frames still to send, the next one first.
    pub remaining: Seq<Frame>,
    pub phase: SendPhase,
}

/// Sends one multipart, frame by frame, and yields the adapter.
pub struct MultipartRequest<A> {
    adapter: Option<A>,
    multipart: Multipart,
    phase: SendPhase,
}

impl<A> View for MultipartRequest<A> {
    type V = RequestView<A>;

    closed spec fn view(&self) -> RequestView<A> {
        RequestView { adapter: self.adapter, remaining: self.multipart@, phase: self.phase }
    }
}

/// A send that fails: the error is reported and remembered. The adapter
/// stays where it is, and so do the frames that were not sent.
pub open spec fn request_failed<A>(pre: RequestView<A>, error: Error) -> (
    RequestView<A>,
    Step<A>,
) {
    (RequestView { phase: SendPhase::Failed(error), ..pre }, Step::Failed(error))
}

/// A send that hands its front frame to the socket: non-blocking, and with
/// "more follows" exactly when further frames remain behind it.
pub open spec fn request_attempt<A>(pre: RequestView<A>) -> (RequestView<A>, Step<A>) {
    (
        RequestView { phase: SendPhase::Sending, ..pre },
        Step::Call(Call::Send(flags_of(place_of(pre.remaining.len())))),
    )
}

/// The send as a transition function.
///
/// Without the adapter the send does nothing: every answer is met with
/// `Reused` and changes nothing. A poll fails with `EmptyMultipart` when
/// there is nothing to send. Otherwise readiness is reconciled; if the
/// socket is not writable the poll ends pending. Then the frames go out from
/// the front. An accepted frame is dropped; when none is left the adapter is
/// yielded. If the socket would block, the frame stays at the front, the
/// scheduler's readiness is cleared and the poll ends pending. A failed
/// call ends the poll with its error, and an answer that was not waited for
/// ends it with `Reused`; the send keeps the adapter and its frames, and
/// answers everything that follows with the same error.
pub open spec fn request_step<A>(pre: RequestView<A>, event: Event) -> (RequestView<A>, Step<A>) {
    if pre.adapter is None {
        (pre, Step::Failed(Error::Reused))
    } else {
        match pre.phase {
            SendPhase::Idle => match event {
                Event::Poll => if pre.remaining.len() == 0 {
                    request_failed(pre, Error::EmptyMultipart)
                } else {
                    request_gate(pre, gate_entry(Direction::Send))
                },
                _ => request_failed(pre, Error::Reused),
            },
            SendPhase::Gate(gate) => request_gate(pre, gate_step(Direction::Send, gate, event)),
            SendPhase::Sending => match event {
                Event::Sent => if pre.remaining.len() <= 1 {
                    (
                        RequestView {
                            adapter: None,
                            remaining: Seq::empty(),
                            phase: SendPhase::Idle,
                        },
                        Step::Ready(pre.adapter->0),
                    )
                } else {
                    request_attempt(RequestView { remaining: pre.remaining.drop_first(), ..pre })
                },
                Event::WouldBlock => (
                    RequestView { phase: SendPhase::Backoff, ..pre },
                    Step::Call(Call::ClearReady(Direction::Send)),
                ),
                Event::Failed(error) => request_failed(pre, error),
                _ => request_failed(pre, Error::Reused),
            },
            SendPhase::Backoff => match event {
                Event::Cleared => (RequestView { phase: SendPhase::Idle, ..pre }, Step::Pending),
                Event::Failed(error) => request_failed(pre, error),
                _ => request_failed(pre, Error::Reused),
            },
            SendPhase::Failed(error) => (pre, Step::Failed(error)),
        }
    }
}

/// How a send goes on after one step of reconciliation.
pub open spec fn request_gate<A>(pre: RequestView<A>, step: GateStep) -> (
    RequestView<A>,
    Step<A>,
) {
    match step {
        GateStep::Call(call, gate) => (
            RequestView { phase: SendPhase::Gate(gate), ..pre },
            Step::Call(call),
        ),
        GateStep::Open => request_attempt(pre),
        GateStep::Shut => (RequestView { phase: SendPhase::Idle, ..pre }, Step::Pending),
        GateStep::Failed(error) => request_failed(pre, error),
    }
}

/// How many outside calls a send can still ask for before its poll ends.
pub open spec fn request_budget<A>(state: RequestView<A>) -> nat {
    let frames = 2 * state.remaining.len();
    match state.phase {
        SendPhase::Idle => frames + 6,
        SendPhase::Gate(Gate::Scheduler) => frames + 5,
        SendPhase::Gate(Gate::Events(_)) => frames + 4,
        SendPhase::Gate(Gate::Clearing(_, _)) => frames + 3,
        SendPhase::Gate(Gate::Waking) => frames + 2,
        SendPhase::Sending => frames + 1,
        SendPhase::Backoff => 0,
        SendPhase::Failed(_) => 0,
    }
}

/// No poll of a send spins: every reply that asks for another call uses up
/// budget, so a poll ends after at most six calls and two per frame.
pub proof fn lemma_request_poll_ends<A>(pre: RequestView<A>, event: Event)
    ensures
        request_step(pre, event).1 is Call ==> request_budget(request_step(pre, event).0)
            < request_budget(pre),
{
}

impl<A> MultipartRequest<A> {
    /// A send of `multipart` through the socket behind `adapter`.
    pub fn new(adapter: A, multipart: Multipart) -> (request: Self)
        ensures
            request@ == (RequestView {
                adapter: Some(adapter),
                remaining: multipart@,
                phase: SendPhase::Idle,
            }),
    {
        MultipartRequest { adapter: Some(adapter), multipart, phase: SendPhase::Idle }
    }

    /// A send that has failed with `error` before it began: it holds
    /// `adapter` and has nothing to send.
    pub fn failed(adapter: A, error: Error) -> (request: Self)
        ensures
            request@ == (RequestView {
                adapter: Some(adapter),
                remaining: Seq::empty(),
                phase: SendPhase::Failed(error),
            }),
    {
        MultipartRequest {
            adapter: Some(adapter),
            multipart: Multipart::new(),
            phase: SendPhase::Failed(error),
        }
    }

    /// Takes the adapter out, if the send holds it.
    pub fn take_socket(&mut self) -> (adapter: Option<A>)
        ensures
            adapter == old(self)@.adapter,
            final(self)@ == (RequestView { adapter: None, ..old(self)@ }),
    {
        self.adapter.take()
    }

    /// Lends the adapter to the send.
    pub fn give_socket(&mut self, adapter: A)
        ensures
            final(self)@ == (RequestView { adapter: Some(adapter), ..old(self)@ }),
    {
        self.adapter = Some(adapter);
    }

    /// The adapter, for making the calls that the send asks for.
    pub fn socket(&self) -> (adapter: Option<&A>)
        ensures
            adapter == match self@.adapter {
                Some(held) => Some(&held),
                None => None,
            },
    {
        self.adapter.as_ref()
    }

    /// The frame that `Call::Send` refers to: the first one not yet sent.
    pub fn front(&self) -> (frame: Option<&Frame>)
        ensures
            self@.remaining.len() > 0 ==> frame == Some(&self@.remaining[0]),
            self@.remaining.len() == 0 ==> frame is None,
    {
        self.multipart.get(0)
    }

    /// Whether the send has failed.
    pub fn has_failed(&self) -> (failed: bool)
        ensures
            failed == (self@.phase is Failed),
    {
        match self.phase {
            SendPhase::Failed(_) => true,
            _ => false,
        }
    }

    fn fail(&mut self, error: Error) -> (step: Step<A>)
        ensures
            (final(self)@, step) == request_failed(old(self)@, error),
    {
        self.phase = SendPhase::Failed(error);
        Step::Failed(error)
    }

    /// Hands the front frame to the socket.
    fn send_msg(&mut self) -> (step: Step<A>)
        ensures
            (final(self)@, step) == request_attempt(old(self)@),
    {
        let place = front_place(self.multipart.len());
        self.phase = SendPhase::Sending;
        Step::Call(Call::Send(send_flags(place)))
    }

    /// Goes on after one step of reconciliation.
    fn check_write(&mut self, gate_step: GateStep) -> (step: Step<A>)
        ensures
            (final(self)@, step) == request_gate(old(self)@, gate_step),
    {
        match gate_step {
            GateStep::Call(call, gate) => {
                self.phase = SendPhase::Gate(gate);
                Step::Call(call)
            },
            GateStep::Open => self.send_msg(),
            GateStep::Shut => {
                self.phase = SendPhase::Idle;
                Step::Pending
            },
            GateStep::Failed(error) => self.fail(error),
        }
    }

    /// Takes the socket's answer to a frame and goes on with the next one.
    fn send(&mut self, event: Event) -> (step: Step<A>)
        requires
            old(self)@.adapter is Some,
            old(self)@.phase == SendPhase::Sending,
        ensures
            (final(self)@, step) == request_step(old(self)@, event),
    {
        match event {
            Event::Sent => {
                let _ = self.multipart.pop_front();
                if self.multipart.is_empty() {
                    assert(self.multipart@ =~= Seq::<Frame>::empty());
                    self.phase = SendPhase::Idle;
                    match self.adapter.take() {
                        Some(adapter) => Step::Ready(adapter),
                        None => Step::Failed(Error::Reused),
                    }
                } else {
                    self.send_msg()
                }
            },
            Event::WouldBlock => {
                self.phase = SendPhase::Backoff;
                Step::Call(Call::ClearReady(Direction::Send))
            },
            Event::Failed(error) => self.fail(error),
            _ => self.fail(Error::Reused),
        }
    }

    /// Advances the send by one answer. The adapter leaves the send only as
    /// the result of its last step.
    pub fn poll(&mut self, event: Event) -> (step: Step<A>)
        ensures
            (final(self)@, step) == request_step(old(self)@, event),
            step is Ready || final(self)@.adapter == old(self)@.adapter,
            step matches Step::Ready(adapter) ==> old(self)@.adapter == Some(adapter),
    {
        if self.adapter.is_none() {
            return Step::Failed(Error::Reused);
        }
        match self.phase {
            SendPhase::Failed(error) => Step::Failed(error),
            SendPhase::Idle => match event {
                Event::Poll => if self.multipart.is_empty() {
                    self.fail(Error::EmptyMultipart)
                } else {
                    self.check_write(begin_poll_ready(Direction::Send))
                },
                _ => self.fail(Error::Reused),
            },
            SendPhase::Gate(gate) => self.check_write(poll_send_ready(gate, event)),
            SendPhase::Sending => self.send(event),
            SendPhase::Backoff => match event {
                Event::Cleared => {
                    self.phase = SendPhase::Idle;
                    Step::Pending
                },
                Event::Failed(error) => self.fail(error),
                _ => self.fail(Error::Reused),
            },
        }
    }
}

/// Which answer a receive waits for.
#[derive(Clone, Copy, Debug, PartialEq, Eq, Structural)]
pub enum ReceivePhase {
    /// No poll is running.
    Idle,
    /// The readiness of the socket is being reconciled.
    Gate(Gate),
    /// The socket was asked for a frame; holds whether this poll has already
    /// read one.
    Receiving(bool),
    /// The socket would have blocked in the middle of a message; an immediate
    /// wake is being scheduled before the poll ends pending.
    Waking,
    /// The receive has failed with this error. It still holds the adapter,
    /// and does nothing more.
    Failed(Error),
}

/// The state of a receive as contracts see it.
pub struct ResponseView<A> {
    /// The adapter, while the receive holds it.
    pub adapter: Option<A>,
    /// The frames of the message read so far, in order of arrival.
    pub partial: Seq<Frame>,
    pub phase: ReceivePhase,
}

/// Receives one multipart, frame by frame, and yields it with the adapter.
pub struct MultipartResponse<A> {
    adapter: Option<A>,
    multipart: Multipart,
    phase: ReceivePhase,
}

impl<A> View for MultipartResponse<A> {
    type V = ResponseView<A>;

    closed spec fn view(&self) -> ResponseView<A> {
        ResponseView { adapter: self.adapter, partial: self.multipart@, phase: self.phase }
    }
}

/// Whether `frames` are the frames of an unfinished message: each one
/// announces a successor.
pub open spec fn is_partial_message(frames: Seq<Frame>) -> bool {
    forall|i: int| 0 <= i < frames.len() ==> (#[trigger] frames[i]).more
}

/// Whether `frames` are exactly one message as the socket delivers it: at
/// least one frame, every frame but the last announcing a successor, and the
/// last announcing none.
pub open spec fn is_message(frames: Seq<Frame>) -> bool {
    &&& frames.len() > 0
    &&& is_partial_message(frames.drop_last())
    &&& !frames.last().more
}

impl<A> ResponseView<A> {
    /// The invariant of a receive: every frame it keeps announced a
    /// successor. A new receive has it and every step preserves it.
    pub open spec fn well_formed(self) -> bool {
        is_partial_message(self.partial)
    }
}

/// The reply of a receive with the multipart taken by its frames.
pub open spec fn response_reply<A>(step: Step<(Multipart, A)>) -> Step<(Seq<Frame>, A)> {
    match step {
        Step::Call(call) => Step::Call(call),
        Step::Pending => Step::Pending,
        Step::Ready((multipart, adapter)) => Step::Ready((multipart@, adapter)),
        Step::Failed(error) => Step::Failed(error),
    }
}

/// A receive that fails: the error is reported and remembered, and the
/// frames read so far are dropped. The adapter stays where it is.
pub open spec fn response_failed<A>(pre: ResponseView<A>, error: Error) -> (
    ResponseView<A>,
    Step<(Seq<Frame>, A)>,
) {
    (
        ResponseView {
            adapter: pre.adapter,
            partial: Seq::empty(),
            phase: ReceivePhase::Failed(error),
        },
        Step::Failed(error),
    )
}

/// A receive that asks the socket for one frame, without blocking.
pub open spec fn response_attempt<A>(pre: ResponseView<A>, read: bool) -> (
    ResponseView<A>,
    Step<(Seq<Frame>, A)>,
) {
    (
        ResponseView { phase: ReceivePhase::Receiving(read), ..pre },
        Step::Call(Call::Receive(DONTWAIT)),
    )
}

/// How a receive goes on after one step of reconciliation.
pub open spec fn response_gate<A>(pre: ResponseView<A>, step: GateStep) -> (
    ResponseView<A>,
    Step<(Seq<Frame>, A)>,
) {
    match step {
        GateStep::Call(call, gate) => (
            ResponseView { phase: ReceivePhase::Gate(gate), ..pre },
            Step::Call(call),
        ),
        GateStep::Open => response_attempt(pre, false),
        GateStep::Shut => (ResponseView { phase: ReceivePhase::Idle, ..pre }, Step::Pending),
        GateStep::Failed(error) => response_failed(pre, error),
    }
}

/// The receive as a transition function.
///
/// Without the adapter the receive does nothing: every answer is met with
/// `Reused` and changes nothing. Otherwise readiness is reconciled; if the
/// socket is not readable the poll ends pending. Then frames are read. A frame with its "more" bit set is kept and the next one
/// asked for; a frame without it completes the message, which is yielded
/// with the adapter. If the socket would block before this poll has read a
/// frame, the poll ends pending; if it would block after, the rest of the
/// message is already queued, so the task is woken at once and the poll ends
/// pending. A failed call ends the poll with its error, and an answer that
/// was not waited for ends it with `Reused`; the receive drops what it read,
/// keeps the adapter, and answers everything that follows with the same
/// error.
pub open spec fn response_step<A>(pre: ResponseView<A>, event: Event) -> (
    ResponseView<A>,
    Step<(Seq<Frame>, A)>,
) {
    if pre.adapter is None {
        (pre, Step::Failed(Error::Reused))
    } else {
        match pre.phase {
            ReceivePhase::Idle => match event {
                Event::Poll => response_gate(pre, gate_entry(Direction::Receive)),
                _ => response_failed(pre, Error::Reused),
            },
            ReceivePhase::Gate(gate) => response_gate(
                pre,
                gate_step(Direction::Receive, gate, event),
            ),
            ReceivePhase::Receiving(read) => match event {
                Event::Received(frame) => if frame.more {
                    response_attempt(
                        ResponseView { partial: pre.partial.push(frame), ..pre },
                        true,
                    )
                } else {
                    (
                        ResponseView {
                            adapter: None,
                            partial: Seq::empty(),
                            phase: ReceivePhase::Idle,
                        },
                        Step::Ready((pre.partial.push(frame), pre.adapter->0)),
                    )
                },
                Event::WouldBlock => if read {
                    (ResponseView { phase: ReceivePhase::Waking, ..pre }, Step::Call(Call::Wake))
                } else {
                    (ResponseView { phase: ReceivePhase::Idle, ..pre }, Step::Pending)
                },
                Event::Failed(error) => response_failed(pre, error),
                _ => response_failed(pre, Error::Reused),
            },
            ReceivePhase::Waking => match event {
                Event::Woken => (
                    ResponseView { phase: ReceivePhase::Idle, ..pre },
                    Step::Pending,
                ),
                Event::Failed(error) => response_failed(pre, error),
                _ => response_failed(pre, Error::Reused),
            },
            ReceivePhase::Failed(error) => (pre, Step::Failed(error)),
        }
    }
}

impl<A> MultipartResponse<A> {
    /// A receive from the socket behind `adapter`.
    pub fn new(adapter: A) -> (response: Self)
        ensures
            response@ == (ResponseView {
                adapter: Some(adapter),
                partial: Seq::empty(),
                phase: ReceivePhase::Idle,
            }),
            response@.well_formed(),
    {
        MultipartResponse {
            adapter: Some(adapter),
            multipart: Multipart::new(),
            phase: ReceivePhase::Idle,
        }
    }

    /// A receive that has failed with `error` before it began: it holds
    /// `adapter` and nothing else.
    pub fn failed(adapter: A, error: Error) -> (response: Self)
        ensures
            response@ == (ResponseView {
                adapter: Some(adapter),
                partial: Seq::empty(),
                phase: ReceivePhase::Failed(error),
            }),
            response@.well_formed(),
    {
        MultipartResponse {
            adapter: Some(adapter),
            multipart: Multipart::new(),
            phase: ReceivePhase::Failed(error),
        }
    }

    /// Takes the adapter out, if the receive holds it.
    pub fn take_socket(&mut self) -> (adapter: Option<A>)
        ensures
            adapter == old(self)@.adapter,
            final(self)@ == (ResponseView { adapter: None, ..old(self)@ }),
    {
        self.adapter.take()
    }

    /// Lends the adapter to the receive.
    pub fn give_socket(&mut self, adapter: A)
        ensures
            final(self)@ == (ResponseView { adapter: Some(adapter), ..old(self)@ }),
    {
        self.adapter = Some(adapter);
    }

    /// The adapter, for making the calls that the receive asks for.
    pub fn socket(&self) -> (adapter: Option<&A>)
        ensures
            adapter == match self@.adapter {
                Some(held) => Some(&held),
                None => None,
            },
    {
        self.adapter.as_ref()
    }

    /// Whether the receive has failed.
    pub fn has_failed(&self) -> (failed: bool)
        ensures
            failed == (self@.phase is Failed),
    {
        match self.phase {
            ReceivePhase::Failed(_) => true,
            _ => false,
        }
    }

    fn fail(&mut self, error: Error) -> (step: Step<(Multipart, A)>)
        ensures
            (final(self)@, response_reply(step)) == response_failed(old(self)@, error),
    {
        self.multipart = Multipart::new();
        self.phase = ReceivePhase::Failed(error);
        Step::Failed(error)
    }

    /// Asks the socket for one frame.
    fn recv_msg(&mut self, read: bool) -> (step: Step<(Multipart, A)>)
        ensures
            (final(self)@, response_reply(step)) == response_attempt(old(self)@, read),
    {
        self.phase = ReceivePhase::Receiving(read);
        Step::Call(Call::Receive(receive_flags()))
    }

    /// Goes on after one step of reconciliation.
    fn check_read(&mut self, gate_step: GateStep) -> (step: Step<(Multipart, A)>)
        ensures
            (final(self)@, response_reply(step)) == response_gate(old(self)@, gate_step),
    {
        match gate_step {
            GateStep::Call(call, gate) => {
                self.phase = ReceivePhase::Gate(gate);
                Step::Call(call)
            },
            GateStep::Open => self.recv_msg(false),
            GateStep::Shut => {
                self.phase = ReceivePhase::Idle;
                Step::Pending
            },
            GateStep::Failed(error) => self.fail(error),
        }
    }

    /// Takes the socket's answer to a receive and goes on with the message.
    fn recv(&mut self, read: bool, event: Event) -> (step: Step<(Multipart, A)>)
        requires
            old(self)@.adapter is Some,
            old(self)@.phase == ReceivePhase::Receiving(read),
        ensures
            (final(self)@, response_reply(step)) == response_step(old(self)@, event),
            old(self)@.well_formed() ==> final(self)@.well_formed(),
            old(self)@.well_formed() ==> (step matches Step::Ready((multipart, _))
                ==> is_message(multipart@)),
    {
        match event {
            Event::Received(frame) => {
                if frame.get_more() {
                    self.multipart.push_back(frame);
                    self.recv_msg(true)
                } else {
                    let mut multipart = Multipart::new();
                    std::mem::swap(&mut self.multipart, &mut multipart);
                    multipart.push_back(frame);
                    assert(multipart@.drop_last() =~= old(self)@.partial);
                    self.phase = ReceivePhase::Idle;
                    match self.adapter.take() {
                        Some(adapter) => Step::Ready((multipart, adapter)),
                        None => Step::Failed(Error::Reused),
                    }
                }
            },
            Event::WouldBlock => if read {
                self.phase = ReceivePhase::Waking;
                Step::Call(Call::Wake)
            } else {
                self.phase = ReceivePhase::Idle;
                Step::Pending
            },
            Event::Failed(error) => self.fail(error),
            _ => self.fail(Error::Reused),
        }
    }

    /// Advances the receive by one answer. The adapter leaves the receive
    /// only with the message, and what a well-formed receive yields is one
    /// whole message.
    pub fn poll(&mut self, event: Event) -> (step: Step<(Multipart, A)>)
        ensures
            (final(self)@, response_reply(step)) == response_step(old(self)@, event),
            step is Ready || final(self)@.adapter == old(self)@.adapter,
            step matches Step::Ready((_, adapter)) ==> old(self)@.adapter == Some(adapter),
            old(self)@.well_formed() ==> final(self)@.well_formed(),
            old(self)@.well_formed() ==> (step matches Step::Ready((multipart, _))
                ==> is_message(multipart@)),
    {
        if self.adapter.is_none() {
            return Step::Failed(Error::Reused);
        }
        match self.phase {
            ReceivePhase::Failed(error) => Step::Failed(error),
            ReceivePhase::Idle => match event {
                Event::Poll => self.check_read(begin_poll_ready(Direction::Receive)),
                _ => self.fail(Error::Reused),
            },
            ReceivePhase::Gate(gate) => self.check_read(poll_receive_ready(gate, event)),
            ReceivePhase::Receiving(read) => self.recv(read, event),
            ReceivePhase::Waking => match event {
                Event::Woken => {
                    self.phase = ReceivePhase::Idle;
                    Step::Pending
                },
                Event::Failed(error) => self.fail(error),
                _ => self.fail(Error::Reused),
            },
        }
    }
}

} // verus!
