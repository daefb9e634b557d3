//! The message stream: a lazy sequence of multiparts read from a socket, and
//! the combinators that decide when such a sequence ends.

use crate::adapter::{Event, Step};
use crate::error::Error;
use crate::future::{
    is_message, response_step, MultipartResponse, ReceivePhase, ResponseView,
};
use crate::message::{Frame, Multipart};
use vstd::prelude::*;

verus! {

/// The state of a stream as contracts see it.
pub enum StreamView<A> {
    /// No receive is running; the stream holds the adapter.
    Ready(A),
    /// A multipart is being received, or its receive has failed.
    Pending(ResponseView<A>),
    /// The stream has handed its adapter on and holds nothing.
    Closed,
    /// The state is being worked on. No function leaves a stream so.
    Polling,
}

impl<A> StreamView<A> {
    /// The adapter, wherever in the stream it is held.
    pub open spec fn adapter(self) -> Option<A> {
        match self {
            StreamView::Ready(adapter) => Some(adapter),
            StreamView::Pending(response) => response.adapter,
            StreamView::Closed => None,
            StreamView::Polling => None,
        }
    }

    /// How many adapters the stream holds: one or none.
    pub open spec fn holders(self) -> nat {
        if self.adapter() is Some {
            1
        } else {
            0
        }
    }

    /// The invariant of a stream: that of the receive it is running.
    pub open spec fn well_formed(self) -> bool {
        match self {
            StreamView::Pending(response) => response.well_formed(),
            _ => true,
        }
    }

    /// Whether the stream has failed, and so has ended.
    pub open spec fn has_failed(self) -> bool {
        self matches StreamView::Pending(response) && response.phase is Failed
    }
}

enum StreamState<A> {
    Ready(A),
    Pending(MultipartResponse<A>),
    Closed,
    Polling,
}

/// Receives multiparts from a socket, one after the other.
pub struct MultipartStream<A> {
    inner: StreamState<A>,
}

impl<A> View for MultipartStream<A> {
    type V = StreamView<A>;

    closed spec fn view(&self) -> StreamView<A> {
        match self.inner {
            StreamState::Ready(adapter) => StreamView::Ready(adapter),
            StreamState::Pending(response) => StreamView::Pending(response@),
            StreamState::Closed => StreamView::Closed,
            StreamState::Polling => StreamView::Polling,
        }
    }
}

/// The reply of a stream with the multipart taken by its frames.
pub open spec fn stream_reply(step: Step<Option<Multipart>>) -> Step<Option<Seq<Frame>>> {
    match step {
        Step::Call(call) => Step::Call(call),
        Step::Pending => Step::Pending,
        Step::Ready(Some(multipart)) => Step::Ready(Some(multipart@)),
        Step::Ready(None) => Step::Ready(None),
        Step::Failed(error) => Step::Failed(error),
    }
}

/// The receive that a poll of a ready stream begins.
pub open spec fn response_begun<A>(adapter: A) -> ResponseView<A> {
    ResponseView { adapter: Some(adapter), partial: Seq::empty(), phase: ReceivePhase::Idle }
}

/// How the stream goes on after one step of its receive: a complete
/// multipart is yielded and the stream holds the adapter again; when the
/// receive fails the stream keeps it as it is, with the adapter and the
/// error in it.
pub open spec fn stream_after<A>(stepped: (ResponseView<A>, Step<(Seq<Frame>, A)>)) -> (
    StreamView<A>,
    Step<Option<Seq<Frame>>>,
) {
    match stepped.1 {
        Step::Call(call) => (StreamView::Pending(stepped.0), Step::Call(call)),
        Step::Pending => (StreamView::Pending(stepped.0), Step::Pending),
        Step::Ready((frames, adapter)) => (StreamView::Ready(adapter), Step::Ready(Some(frames))),
        Step::Failed(error) => (StreamView::Pending(stepped.0), Step::Failed(error)),
    }
}

/// The receive of a stream that was handed an answer while it waited for
/// none: it has failed with `Stream` and holds the adapter.
pub open spec fn stream_refused<A>(adapter: A) -> ResponseView<A> {
    ResponseView {
        adapter: Some(adapter),
        partial: Seq::empty(),
        phase: ReceivePhase::Failed(Error::Stream),
    }
}

/// The stream as a transition function. A poll of a ready stream begins a
/// receive and drives it; handed any other answer a ready stream fails with
/// `Stream`. A receiving stream drives its receive. A stream reports a
/// failure once: it has ended with it, and answers everything that follows
/// with "ended". A stream without its adapter reports `Stream`. The adapter
/// is never let go of.
pub open spec fn stream_next<A>(pre: StreamView<A>, event: Event) -> (
    StreamView<A>,
    Step<Option<Seq<Frame>>>,
) {
    match pre {
        StreamView::Ready(adapter) => match event {
            Event::Poll => stream_after(response_step(response_begun(adapter), event)),
            _ => (StreamView::Pending(stream_refused(adapter)), Step::Failed(Error::Stream)),
        },
        StreamView::Pending(response) => if response.phase is Failed {
            (pre, Step::Ready(None))
        } else {
            stream_after(response_step(response, event))
        },
        _ => (pre, Step::Failed(Error::Stream)),
    }
}

/// What taking the adapter out leaves behind and hands out. A ready stream
/// is nothing but its adapter, so what is left of it is closed.
pub open spec fn stream_taken<A>(pre: StreamView<A>) -> (StreamView<A>, Option<A>) {
    match pre {
        StreamView::Ready(adapter) => (StreamView::Closed, Some(adapter)),
        StreamView::Pending(response) => (
            StreamView::Pending(ResponseView { adapter: None, ..response }),
            response.adapter,
        ),
        _ => (pre, None),
    }
}

/// The stream after it was lent the adapter.
pub open spec fn stream_given<A>(pre: StreamView<A>, adapter: A) -> StreamView<A> {
    match pre {
        StreamView::Pending(response) => StreamView::Pending(
            ResponseView { adapter: Some(adapter), ..response },
        ),
        _ => StreamView::Ready(adapter),
    }
}

/// The stream after a run of answers, the first one first.
pub open spec fn stream_run<A>(pre: StreamView<A>, events: Seq<Event>) -> StreamView<A>
    decreases events.len(),
{
    if events.len() == 0 {
        pre
    } else {
        stream_next(stream_run(pre, events.drop_last()), events.last()).0
    }
}

/// The reply of the stream to answer number `at` of a run.
pub open spec fn stream_reply_at<A>(pre: StreamView<A>, events: Seq<Event>, at: int) -> Step<
    Option<Seq<Frame>>,
> {
    stream_next(stream_run(pre, events.take(at)), events[at]).1
}

/// What one step of a stream can do. The adapter stays where it is. A
/// step that reports a failure leaves the stream failed, unless the stream
/// had no adapter to work with; a failed stream stays failed and answers
/// "ended"; and only a failed stream ever answers "ended". What a
/// well-formed stream yields is one whole message.
pub proof fn lemma_stream_failure<A>(pre: StreamView<A>, event: Event)
    ensures
        !(pre is Polling) ==> stream_next(pre, event).0.adapter() == pre.adapter() && !(
        stream_next(pre, event).0 is Polling),
        pre.adapter() is Some && stream_next(pre, event).1 is Failed ==> stream_next(
            pre,
            event,
        ).0.has_failed(),
        pre.has_failed() ==> stream_next(pre, event) == (
            pre,
            Step::<Option<Seq<Frame>>>::Ready(None),
        ),
        stream_next(pre, event).1 matches Step::Ready(None) ==> pre.has_failed(),
        pre.well_formed() ==> stream_next(pre, event).0.well_formed(),
        pre.well_formed() ==> (stream_next(pre, event).1 matches Step::Ready(Some(frames))
            ==> is_message(frames)),
{
}

/// The shape of every run of a stream that holds its adapter, as every
/// stream made by `new` does. For as long as nothing fails, polls end
/// pending or yield a whole message, and the stream never ends. A failure
/// is reported once and is the end: the stream answers everything that
/// follows with "ended", and no item follows a failure. Through all of it
/// the stream holds the adapter.
pub proof fn lemma_stream_trace<A>(pre: StreamView<A>, events: Seq<Event>, first: int, later: int)
    requires
        pre.adapter() is Some,
        0 <= first < later < events.len(),
        stream_reply_at(pre, events, first) is Failed,
    ensures
        stream_run(pre, events.take(later)).has_failed(),
        stream_run(pre, events.take(later)).adapter() == pre.adapter(),
        stream_reply_at(pre, events, later) == Step::<Option<Seq<Frame>>>::Ready(None),
    decreases later - first,
{
    assert(events.take(later).drop_last() =~= events.take(later - 1));
    assert(events.take(later).last() == events[later - 1]);
    lemma_stream_holds(pre, events.take(later - 1));
    if later - 1 > first {
        lemma_stream_trace(pre, events, first, later - 1);
    }
    lemma_stream_failure(stream_run(pre, events.take(later - 1)), events[later - 1]);
    lemma_stream_failure(stream_run(pre, events.take(later)), events[later]);
}

/// A stream that holds its adapter holds it after every run of answers, and
/// ends only by failing: before its first failure no reply is "ended".
pub proof fn lemma_stream_holds<A>(pre: StreamView<A>, events: Seq<Event>)
    requires
        pre.adapter() is Some,
    ensures
        stream_run(pre, events).adapter() == pre.adapter(),
        !(stream_run(pre, events) is Polling),
        events.len() > 0 && !stream_run(pre, events.drop_last()).has_failed() ==> !(stream_next(
            stream_run(pre, events.drop_last()),
            events.last(),
        ).1 matches Step::Ready(None)),
    decreases events.len(),
{
    if events.len() > 0 {
        lemma_stream_holds(pre, events.drop_last());
        lemma_stream_failure(stream_run(pre, events.drop_last()), events.last());
    }
}

impl<A> MultipartStream<A> {
    /// A stream on the socket behind `adapter`.
    pub fn new(adapter: A) -> (stream: Self)
        ensures
            stream@ == StreamView::Ready(adapter),
            stream@.well_formed(),
    {
        MultipartStream { inner: StreamState::Ready(adapter) }
    }

    /// Takes the adapter out of the stream, or out of the receive it is
    /// running.
    pub fn take_socket(&mut self) -> (adapter: Option<A>)
        ensures
            (final(self)@, adapter) == stream_taken(old(self)@),
    {
        match self.polling() {
            StreamState::Ready(adapter) => {
                self.inner = StreamState::Closed;
                Some(adapter)
            },
            StreamState::Pending(mut response) => {
                let adapter = response.take_socket();
                self.inner = StreamState::Pending(response);
                adapter
            },
            other => {
                self.inner = other;
                None
            },
        }
    }

    /// Lends the adapter to the stream, or to the receive it is running.
    pub fn give_socket(&mut self, adapter: A)
        ensures
            final(self)@ == stream_given(old(self)@, adapter),
    {
        match self.polling() {
            StreamState::Pending(mut response) => {
                response.give_socket(adapter);
                self.inner = StreamState::Pending(response);
            },
            _ => {
                self.inner = StreamState::Ready(adapter);
            },
        }
    }

    /// The adapter, for making the calls that the stream asks for.
    pub fn socket(&self) -> (adapter: Option<&A>)
        ensures
            adapter == match self@ {
                StreamView::Ready(held) => Some(&held),
                StreamView::Pending(response) => match response.adapter {
                    Some(held) => Some(&held),
                    None => None,
                },
                _ => None,
            },
    {
        match &self.inner {
            StreamState::Ready(adapter) => Some(adapter),
            StreamState::Pending(response) => response.socket(),
            _ => None,
        }
    }

    /// Moves the state out to work on it. Every caller puts a state back.
    fn polling(&mut self) -> (state: StreamState<A>)
        ensures
            state == old(self).inner,
            final(self).inner == StreamState::<A>::Polling,
    {
        let mut state = StreamState::Polling;
        std::mem::swap(&mut self.inner, &mut state);
        state
    }

    /// Advances the running receive and settles the stream's state on its
    /// reply.
    fn poll_response(&mut self, response: MultipartResponse<A>, event: Event) -> (step: Step<
        Option<Multipart>,
    >)
        requires
            old(self)@ is Polling,
        ensures
            (final(self)@, stream_reply(step)) == stream_after(response_step(response@, event)),
            response@.well_formed() ==> final(self)@.well_formed(),
            response@.well_formed() ==> (step matches Step::Ready(Some(multipart))
                ==> is_message(multipart@)),
            !(step matches Step::Ready(None)),
    {
        let mut response = response;
        match response.poll(event) {
            Step::Call(call) => {
                self.inner = StreamState::Pending(response);
                Step::Call(call)
            },
            Step::Pending => {
                self.inner = StreamState::Pending(response);
                Step::Pending
            },
            Step::Ready((multipart, adapter)) => {
                self.inner = StreamState::Ready(adapter);
                Step::Ready(Some(multipart))
            },
            Step::Failed(error) => {
                self.inner = StreamState::Pending(response);
                Step::Failed(error)
            },
        }
    }

    /// Advances the stream by one answer. The stream ends only by failing,
    /// it keeps the adapter through every reply, and what a well-formed
    /// stream yields is one whole message.
    pub fn poll_next(&mut self, event: Event) -> (step: Step<Option<Multipart>>)
        ensures
            (final(self)@, stream_reply(step)) == stream_next(old(self)@, event),
            old(self)@.well_formed() ==> final(self)@.well_formed(),
            old(self)@.well_formed() ==> (step matches Step::Ready(Some(multipart))
                ==> is_message(multipart@)),
            step matches Step::Ready(None) ==> old(self)@.has_failed(),
            final(self)@.adapter() == old(self)@.adapter(),
            !(old(self)@ is Polling) ==> !(final(self)@ is Polling),
    {
        match self.polling() {
            StreamState::Ready(adapter) => match event {
                Event::Poll => {
                    let response = MultipartResponse::new(adapter);
                    self.poll_response(response, event)
                },
                _ => {
                    self.inner = StreamState::Pending(
                        MultipartResponse::failed(adapter, Error::Stream),
                    );
                    Step::Failed(Error::Stream)
                },
            },
            StreamState::Pending(response) => if response.has_failed() {
                self.inner = StreamState::Pending(response);
                Step::Ready(None)
            } else {
                self.poll_response(response, event)
            },
            other => {
                self.inner = other;
                Step::Failed(Error::Stream)
            },
        }
    }
}

} // verus!
