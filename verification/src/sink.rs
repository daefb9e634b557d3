//! The message sink: a consumer of multiparts that sends one at a time.

use crate::adapter::{Event, Step};
use crate::error::Error;
use crate::future::{request_step, MultipartRequest, RequestView, SendPhase};
use crate::message::{Frame, Multipart};
use vstd::prelude::*;

verus! {

/// The state of a sink as contracts see it.
pub enum SinkView<A> {
    /// Nothing is being sent; the sink holds the adapter.
    Ready(A),
    /// A multipart is being sent, or its send has failed.
    Pending(RequestView<A>),
    /// The sink was closed and has dropped the adapter.
    Closed,
    /// The state is being worked on. No function leaves a sink so.
    Polling,
}

impl<A> SinkView<A> {
    /// The adapter, wherever in the sink it is held.
    pub open spec fn adapter(self) -> Option<A> {
        match self {
            SinkView::Ready(adapter) => Some(adapter),
            SinkView::Pending(request) => request.adapter,
            SinkView::Closed => None,
            SinkView::Polling => None,
        }
    }

    /// Whether the send of the sink has failed.
    pub open spec fn has_failed(self) -> bool {
        self matches SinkView::Pending(request) && request.phase is Failed
    }

    /// How many adapters the sink holds: one or none.
    pub open spec fn holders(self) -> nat {
        if self.adapter() is Some {
            1
        } else {
            0
        }
    }
}

enum SinkState<A> {
    Ready(A),
    Pending(MultipartRequest<A>),
    Closed,
    Polling,
}

/// Sends multiparts through a socket, one at a time.
pub struct MultipartSink<A> {
    inner: SinkState<A>,
}

impl<A> View for MultipartSink<A> {
    type V = SinkView<A>;

    closed spec fn view(&self) -> SinkView<A> {
        match self.inner {
            SinkState::Ready(adapter) => SinkView::Ready(adapter),
            SinkState::Pending(request) => SinkView::Pending(request@),
            SinkState::Closed => SinkView::Closed,
            SinkState::Polling => SinkView::Polling,
        }
    }
}

/// The send that `start_send` begins.
pub open spec fn request_begun<A>(adapter: A, frames: Seq<Frame>) -> RequestView<A> {
    RequestView { adapter: Some(adapter), remaining: frames, phase: SendPhase::Idle }
}

/// What `start_send` does. Only a ready sink takes a multipart: it begins
/// the send of one that has frames, and refuses one without frames with
/// `EmptyMultipart`. A sink that is sending, has failed or was closed
/// refuses every multipart with `Sink`. A refusal changes nothing.
pub open spec fn sink_start<A>(pre: SinkView<A>, frames: Seq<Frame>) -> (
    SinkView<A>,
    Result<(), Error>,
) {
    match pre {
        SinkView::Ready(adapter) => if frames.len() == 0 {
            (pre, Err(Error::EmptyMultipart))
        } else {
            (SinkView::Pending(request_begun(adapter, frames)), Ok(()))
        },
        _ => (pre, Err(Error::Sink)),
    }
}

/// The send of a sink that was handed an answer while it waited for none:
/// it has failed with `Sink`, holds the adapter and has nothing to send.
pub open spec fn sink_refused<A>(adapter: A) -> RequestView<A> {
    RequestView {
        adapter: Some(adapter),
        remaining: Seq::empty(),
        phase: SendPhase::Failed(Error::Sink),
    }
}

/// How the sink goes on after one step of its send: when the send is done
/// the sink is ready again and holds the adapter; when the send fails the
/// sink keeps it as it is, with the adapter and the error in it.
pub open spec fn sink_after<A>(stepped: (RequestView<A>, Step<A>)) -> (SinkView<A>, Step<()>) {
    match stepped.1 {
        Step::Call(call) => (SinkView::Pending(stepped.0), Step::Call(call)),
        Step::Pending => (SinkView::Pending(stepped.0), Step::Pending),
        Step::Ready(adapter) => (SinkView::Ready(adapter), Step::Ready(())),
        Step::Failed(error) => (SinkView::Pending(stepped.0), Step::Failed(error)),
    }
}

/// The flush as a transition function. A ready sink answers a poll with
/// "ready" and stays as it is; handed any other answer it fails with `Sink`.
/// A sending sink drives its send. A sink whose send has failed reports
/// that error again, whatever it is handed. A closed sink reports `Sink`.
/// The adapter is never let go of.
pub open spec fn sink_flush<A>(pre: SinkView<A>, event: Event) -> (SinkView<A>, Step<()>) {
    match pre {
        SinkView::Ready(adapter) => match event {
            Event::Poll => (pre, Step::Ready(())),
            _ => (SinkView::Pending(sink_refused(adapter)), Step::Failed(Error::Sink)),
        },
        SinkView::Pending(request) => sink_after(request_step(request, event)),
        _ => (pre, Step::Failed(Error::Sink)),
    }
}

/// The close as a transition function: a flush after which, once it
/// completes, the sink drops the adapter and accepts nothing more.
pub open spec fn sink_close<A>(pre: SinkView<A>, event: Event) -> (SinkView<A>, Step<()>) {
    let flushed = sink_flush(pre, event);
    if flushed.1 is Ready {
        (SinkView::Closed, flushed.1)
    } else {
        flushed
    }
}

/// What taking the adapter out leaves behind and hands out. A ready sink is
/// nothing but its adapter, so what is left of it is closed.
pub open spec fn sink_taken<A>(pre: SinkView<A>) -> (SinkView<A>, Option<A>) {
    match pre {
        SinkView::Ready(adapter) => (SinkView::Closed, Some(adapter)),
        SinkView::Pending(request) => (
            SinkView::Pending(RequestView { adapter: None, ..request }),
            request.adapter,
        ),
        _ => (pre, None),
    }
}

/// The sink after it was lent the adapter.
pub open spec fn sink_given<A>(pre: SinkView<A>, adapter: A) -> SinkView<A> {
    match pre {
        SinkView::Pending(request) => SinkView::Pending(
            RequestView { adapter: Some(adapter), ..request },
        ),
        _ => SinkView::Ready(adapter),
    }
}

/// What one step of a flush can do. The adapter stays where it is. A step
/// that reports a failure leaves the sink failed, if the sink had an adapter
/// to work with. A failed sink stays as it is: it reports its error again
/// at every flush. Every sink that is not ready, a failed one too, refuses
/// every multipart with `Sink` and stays as it is.
pub proof fn lemma_sink_failure<A>(pre: SinkView<A>, event: Event, frames: Seq<Frame>)
    ensures
        sink_flush(pre, event).0.adapter() == pre.adapter(),
        !(pre is Polling) ==> !(sink_flush(pre, event).0 is Polling),
        pre.adapter() is Some && sink_flush(pre, event).1 is Failed ==> sink_flush(
            pre,
            event,
        ).0.has_failed(),
        pre.has_failed() && pre.adapter() is Some ==> sink_flush(pre, event) == (
            pre,
            Step::<()>::Failed(pre->Pending_0.phase->Failed_0),
        ),
        !(pre is Ready) ==> sink_start(pre, frames) == (pre, Err::<(), Error>(Error::Sink)),
{
}

/// The sink after `count` polls of `poll_ready`, each answered at once.
pub open spec fn sink_polled<A>(pre: SinkView<A>, count: nat) -> SinkView<A>
    decreases count,
{
    if count == 0 {
        pre
    } else {
        sink_flush(sink_polled(pre, (count - 1) as nat), Event::Poll).0
    }
}

/// Asking a ready sink whether it is ready changes nothing, however often
/// it is asked: every poll answers "ready" at once, without an outside call,
/// and `start_send` afterwards does what it would have done at first.
pub proof fn lemma_poll_ready_idempotent<A>(adapter: A, count: nat, frames: Seq<Frame>)
    ensures
        sink_polled(SinkView::Ready(adapter), count) == SinkView::Ready(adapter),
        sink_flush(sink_polled(SinkView::Ready(adapter), count), Event::Poll) == (
            SinkView::Ready(adapter),
            Step::Ready(()),
        ),
        sink_start(sink_polled(SinkView::Ready(adapter), count), frames) == sink_start(
            SinkView::Ready(adapter),
            frames,
        ),
    decreases count,
{
    if count > 0 {
        lemma_poll_ready_idempotent(adapter, (count - 1) as nat, frames);
    }
}

impl<A> MultipartSink<A> {
    /// A sink on the socket behind `adapter`.
    pub fn new(adapter: A) -> (sink: Self)
        ensures
            sink@ == SinkView::Ready(adapter),
    {
        MultipartSink { inner: SinkState::Ready(adapter) }
    }

    /// A sink in the middle of `request`.
    pub fn sending(request: MultipartRequest<A>) -> (sink: Self)
        ensures
            sink@ == SinkView::Pending(request@),
    {
        MultipartSink { inner: SinkState::Pending(request) }
    }

    /// Takes the adapter out of the sink, or out of the send it is running.
    pub fn take_socket(&mut self) -> (adapter: Option<A>)
        ensures
            (final(self)@, adapter) == sink_taken(old(self)@),
    {
        match self.polling() {
            SinkState::Ready(adapter) => {
                self.inner = SinkState::Closed;
                Some(adapter)
            },
            SinkState::Pending(mut request) => {
                let adapter = request.take_socket();
                self.inner = SinkState::Pending(request);
                adapter
            },
            other => {
                self.inner = other;
                None
            },
        }
    }

    /// Lends the adapter to the sink, or to the send it is running.
    pub fn give_socket(&mut self, adapter: A)
        ensures
            final(self)@ == sink_given(old(self)@, adapter),
    {
        match self.polling() {
            SinkState::Pending(mut request) => {
                request.give_socket(adapter);
                self.inner = SinkState::Pending(request);
            },
            _ => {
                self.inner = SinkState::Ready(adapter);
            },
        }
    }

    /// The adapter, for making the calls that the sink asks for.
    pub fn socket(&self) -> (adapter: Option<&A>)
        ensures
            adapter == match self@ {
                SinkView::Ready(held) => Some(&held),
                SinkView::Pending(request) => match request.adapter {
                    Some(held) => Some(&held),
                    None => None,
                },
                _ => None,
            },
    {
        match &self.inner {
            SinkState::Ready(adapter) => Some(adapter),
            SinkState::Pending(request) => request.socket(),
            _ => None,
        }
    }

    /// The frame that `Call::Send` refers to.
    pub fn front(&self) -> (frame: Option<&Frame>)
        ensures
            frame == match self@ {
                SinkView::Pending(request) => if request.remaining.len() > 0 {
                    Some(&request.remaining[0])
                } else {
                    None
                },
                _ => None,
            },
    {
        match &self.inner {
            SinkState::Pending(request) => request.front(),
            _ => None,
        }
    }

    /// Moves the state out to work on it. Every caller puts a state back.
    fn polling(&mut self) -> (state: SinkState<A>)
        ensures
            state == old(self).inner,
            final(self).inner == SinkState::<A>::Polling,
    {
        let mut state = SinkState::Polling;
        std::mem::swap(&mut state, &mut self.inner);
        state
    }

    /// Advances the running send and settles the sink's state on its reply.
    fn poll_request(&mut self, request: MultipartRequest<A>, event: Event) -> (step: Step<()>)
        requires
            old(self)@ is Polling,
        ensures
            (final(self)@, step) == sink_after(request_step(request@, event)),
    {
        let mut request = request;
        match request.poll(event) {
            Step::Call(call) => {
                self.inner = SinkState::Pending(request);
                Step::Call(call)
            },
            Step::Pending => {
                self.inner = SinkState::Pending(request);
                Step::Pending
            },
            Step::Ready(adapter) => {
                self.inner = SinkState::Ready(adapter);
                Step::Ready(())
            },
            Step::Failed(error) => {
                self.inner = SinkState::Pending(request);
                Step::Failed(error)
            },
        }
    }

    /// Begins the send of `multipart` if the sink is ready.
    fn make_request(&mut self, multipart: Multipart) -> (result: Result<(), Error>)
        ensures
            (final(self)@, result) == sink_start(old(self)@, multipart@),
    {
        match self.polling() {
            SinkState::Ready(adapter) => if multipart.is_empty() {
                self.inner = SinkState::Ready(adapter);
                Err(Error::EmptyMultipart)
            } else {
                self.inner = SinkState::Pending(MultipartRequest::new(adapter, multipart));
                Ok(())
            },
            other => {
                self.inner = other;
                Err(Error::Sink)
            },
        }
    }

    /// Accepts `multipart` for sending, or refuses it and changes nothing.
    pub fn start_send(&mut self, multipart: Multipart) -> (result: Result<(), Error>)
        ensures
            (final(self)@, result) == sink_start(old(self)@, multipart@),
            result is Err ==> final(self)@ == old(self)@,
            final(self)@.adapter() == old(self)@.adapter(),
            !(old(self)@ is Polling) ==> !(final(self)@ is Polling),
    {
        self.make_request(multipart)
    }

    /// Advances the query "may `start_send` be called" by one answer.
    pub fn poll_ready(&mut self, event: Event) -> (step: Step<()>)
        ensures
            (final(self)@, step) == sink_flush(old(self)@, event),
            final(self)@.adapter() == old(self)@.adapter(),
            !(old(self)@ is Polling) ==> !(final(self)@ is Polling),
    {
        self.poll_flush(event)
    }

    /// Advances the flush by one answer. Whatever the reply, a failure too,
    /// the sink keeps the adapter.
    pub fn poll_flush(&mut self, event: Event) -> (step: Step<()>)
        ensures
            (final(self)@, step) == sink_flush(old(self)@, event),
            final(self)@.adapter() == old(self)@.adapter(),
            !(old(self)@ is Polling) ==> !(final(self)@ is Polling),
    {
        match self.polling() {
            SinkState::Pending(request) => self.poll_request(request, event),
            SinkState::Ready(adapter) => match event {
                Event::Poll => {
                    self.inner = SinkState::Ready(adapter);
                    Step::Ready(())
                },
                _ => {
                    self.inner = SinkState::Pending(MultipartRequest::failed(adapter, Error::Sink));
                    Step::Failed(Error::Sink)
                },
            },
            other => {
                self.inner = other;
                Step::Failed(Error::Sink)
            },
        }
    }

    /// Advances the close by one answer.
    pub fn poll_close(&mut self, event: Event) -> (step: Step<()>)
        ensures
            (final(self)@, step) == sink_close(old(self)@, event),
            step is Ready || final(self)@.adapter() == old(self)@.adapter(),
            !(old(self)@ is Polling) ==> !(final(self)@ is Polling),
    {
        let step = self.poll_flush(event);
        match step {
            Step::Ready(done) => {
                self.inner = SinkState::Closed;
                Step::Ready(done)
            },
            _ => step,
        }
    }
}

} // verus!
