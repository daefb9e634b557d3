//! A sink and a stream over the same socket.
//!
//! The sink-stream owns the adapter and lends it to one direction at a time.
//! While a direction is being polled its operation holds the adapter; when
//! that poll ends pending and the other direction has an operation under way
//! too, the adapter goes back to the sink-stream until the next poll.

use crate::adapter::{Event, Step};
use crate::error::Error;
use crate::future::{is_message, MultipartRequest, RequestView};
use crate::message::{Frame, Multipart};
use crate::sink::{
    request_begun, sink_flush, sink_given, sink_taken, MultipartSink, SinkView,
};
use crate::stream::{
    stream_given, stream_next, stream_reply, stream_taken, MultipartStream, StreamView,
};
use vstd::prelude::*;

verus! {

/// The state of a sink-stream as contracts see it.
pub enum SinkStreamView<A> {
    /// Neither direction has an operation under way.
    Ready(A),
    /// The sink holds the adapter. A stream whose receive is under way may
    /// wait beside it, without the adapter.
    Sink(SinkView<A>, Option<StreamView<A>>),
    /// The stream holds the adapter. A sink whose send is under way may wait
    /// beside it, without the adapter.
    Stream(StreamView<A>, Option<SinkView<A>>),
    /// Both directions have an operation under way and neither is being
    /// polled: the sink-stream itself holds the adapter.
    Both(SinkView<A>, StreamView<A>, A),
    /// The state is being worked on. No function leaves a sink-stream so.
    Polling,
}

impl<A> SinkStreamView<A> {
    /// In how many places an adapter is held: by the sink-stream itself, by
    /// the sink's send, by the stream's receive.
    pub open spec fn holders(self) -> nat {
        match self {
            SinkStreamView::Ready(_) => 1,
            SinkStreamView::Sink(sink, None) => sink.holders(),
            SinkStreamView::Sink(sink, Some(stream)) => sink.holders() + stream.holders(),
            SinkStreamView::Stream(stream, None) => stream.holders(),
            SinkStreamView::Stream(stream, Some(sink)) => stream.holders() + sink.holders(),
            SinkStreamView::Both(sink, stream, _) => 1 + sink.holders() + stream.holders(),
            SinkStreamView::Polling => 0,
        }
    }

    /// The adapter, wherever in the sink-stream it is held.
    pub open spec fn adapter(self) -> Option<A> {
        match self {
            SinkStreamView::Ready(adapter) => Some(adapter),
            SinkStreamView::Sink(sink, None) => sink.adapter(),
            SinkStreamView::Sink(sink, Some(stream)) => if sink.adapter() is Some {
                sink.adapter()
            } else {
                stream.adapter()
            },
            SinkStreamView::Stream(stream, None) => stream.adapter(),
            SinkStreamView::Stream(stream, Some(sink)) => if stream.adapter() is Some {
                stream.adapter()
            } else {
                sink.adapter()
            },
            SinkStreamView::Both(_, _, adapter) => Some(adapter),
            SinkStreamView::Polling => None,
        }
    }

    /// The stream inside, if there is one.
    pub open spec fn stream(self) -> Option<StreamView<A>> {
        match self {
            SinkStreamView::Sink(_, stream) => stream,
            SinkStreamView::Stream(stream, _) => Some(stream),
            SinkStreamView::Both(_, stream, _) => Some(stream),
            _ => None,
        }
    }

    /// The sink inside, if there is one.
    pub open spec fn sink(self) -> Option<SinkView<A>> {
        match self {
            SinkStreamView::Sink(sink, _) => Some(sink),
            SinkStreamView::Stream(_, sink) => sink,
            SinkStreamView::Both(sink, _, _) => Some(sink),
            _ => None,
        }
    }

    /// Whether a send has failed: the sink side is then out of use.
    pub open spec fn sink_failed(self) -> bool {
        self.sink() matches Some(sink) && sink.has_failed()
    }

    /// Whether a receive has failed: the stream side has then ended.
    pub open spec fn stream_failed(self) -> bool {
        self.stream() matches Some(stream) && stream.has_failed()
    }

    /// The invariant of a sink-stream: the adapter is held in exactly one
    /// place, the place that the state names, and the stream inside is
    /// well-formed.
    pub open spec fn well_formed(self) -> bool {
        &&& !(self is Polling)
        &&& self.holders() == 1
        &&& self matches SinkStreamView::Sink(sink, _) ==> sink.adapter() is Some
        &&& self matches SinkStreamView::Stream(stream, _) ==> stream.adapter() is Some
        &&& self.stream() matches Some(stream) ==> stream.well_formed()
    }
}

enum SinkStreamState<A> {
    Ready(A),
    Sink(MultipartSink<A>, Option<MultipartStream<A>>),
    Stream(MultipartStream<A>, Option<MultipartSink<A>>),
    Both(MultipartSink<A>, MultipartStream<A>, A),
    Polling,
}

/// Sends and receives multiparts through one socket.
pub struct MultipartSinkStream<A> {
    inner: SinkStreamState<A>,
}

/// The stream that waits beside the sink, as contracts see it.
pub open spec fn parked_stream<A>(stream: Option<MultipartStream<A>>) -> Option<StreamView<A>> {
    match stream {
        Some(stream) => Some(stream@),
        None => None,
    }
}

/// The sink that waits beside the stream, as contracts see it.
pub open spec fn parked_sink<A>(sink: Option<MultipartSink<A>>) -> Option<SinkView<A>> {
    match sink {
        Some(sink) => Some(sink@),
        None => None,
    }
}

impl<A> View for MultipartSinkStream<A> {
    type V = SinkStreamView<A>;

    closed spec fn view(&self) -> SinkStreamView<A> {
        match self.inner {
            SinkStreamState::Ready(adapter) => SinkStreamView::Ready(adapter),
            SinkStreamState::Sink(sink, stream) => SinkStreamView::Sink(
                sink@,
                parked_stream(stream),
            ),
            SinkStreamState::Stream(stream, sink) => SinkStreamView::Stream(
                stream@,
                parked_sink(sink),
            ),
            SinkStreamState::Both(sink, stream, adapter) => SinkStreamView::Both(
                sink@,
                stream@,
                adapter,
            ),
            SinkStreamState::Polling => SinkStreamView::Polling,
        }
    }
}

/// Where the adapter rests when a poll of the sink has ended and the sink
/// has not finished: with the sink while nothing waits beside it, and
/// between the two when a stream does.
pub open spec fn rest_with_sink<A>(sink: SinkView<A>, stream: Option<StreamView<A>>)
    -> SinkStreamView<A> {
    match (stream, sink_taken(sink).1) {
        (Some(stream), Some(adapter)) => SinkStreamView::Both(
            sink_taken(sink).0,
            stream,
            adapter,
        ),
        _ => SinkStreamView::Sink(sink, stream),
    }
}

/// Where the adapter rests when a poll of the stream has ended and the
/// stream has yielded nothing: with the stream while nothing waits beside it,
/// and between the two when a sink does.
pub open spec fn rest_with_stream<A>(stream: StreamView<A>, sink: Option<SinkView<A>>)
    -> SinkStreamView<A> {
    match (sink, stream_taken(stream).1) {
        (Some(sink), Some(adapter)) => SinkStreamView::Both(
            sink,
            stream_taken(stream).0,
            adapter,
        ),
        _ => SinkStreamView::Stream(stream, sink),
    }
}

/// How the sink-stream settles after one step of its sink, with `stream`
/// waiting beside it.
///
/// While the flush goes on the sink keeps the adapter. When the flush is
/// done the adapter leaves the sink: it goes to the waiting stream, or, if
/// none waits, back to the sink-stream, which is ready again. When the flush
/// ends pending or with a failure the sink stays, and the adapter rests as
/// `rest_with_sink` says. A sink that has no adapter to give back is a
/// misuse, reported as `Sink`; it changes nothing.
pub open spec fn sink_stream_after_sink<A>(
    flushed: (SinkView<A>, Step<()>),
    stream: Option<StreamView<A>>,
) -> (SinkStreamView<A>, Step<()>) {
    let taken = sink_taken(flushed.0);
    match flushed.1 {
        Step::Call(call) => (SinkStreamView::Sink(flushed.0, stream), Step::Call(call)),
        Step::Ready(_) => match taken.1 {
            Some(adapter) => (
                match stream {
                    Some(stream) => SinkStreamView::Stream(stream_given(stream, adapter), None),
                    None => SinkStreamView::Ready(adapter),
                },
                Step::Ready(()),
            ),
            None => (SinkStreamView::Sink(flushed.0, stream), Step::Failed(Error::Sink)),
        },
        Step::Pending => (
            rest_with_sink(flushed.0, stream),
            if stream is Some && taken.1 is None {
                Step::Failed(Error::Sink)
            } else {
                Step::Pending
            },
        ),
        Step::Failed(error) => (rest_with_sink(flushed.0, stream), Step::Failed(error)),
    }
}

/// How the sink-stream settles after one step of its stream, with `sink`
/// waiting beside it. The mirror image of `sink_stream_after_sink`: an item
/// sets the adapter free for the waiting sink or for the sink-stream; on
/// every other end of the poll the stream stays, a stream that has ended
/// too, so that it stays ended. A stream that has no adapter to give back
/// is reported as `Stream`.
pub open spec fn sink_stream_after_stream<A>(
    polled: (StreamView<A>, Step<Option<Seq<Frame>>>),
    sink: Option<SinkView<A>>,
) -> (SinkStreamView<A>, Step<Option<Seq<Frame>>>) {
    let taken = stream_taken(polled.0);
    match polled.1 {
        Step::Call(call) => (SinkStreamView::Stream(polled.0, sink), Step::Call(call)),
        Step::Ready(Some(frames)) => match taken.1 {
            Some(adapter) => (
                match sink {
                    Some(sink) => SinkStreamView::Sink(sink_given(sink, adapter), None),
                    None => SinkStreamView::Ready(adapter),
                },
                Step::Ready(Some(frames)),
            ),
            None => (SinkStreamView::Stream(polled.0, sink), Step::Failed(Error::Stream)),
        },
        Step::Ready(None) => (rest_with_stream(polled.0, sink), Step::Ready(None)),
        Step::Pending => (
            rest_with_stream(polled.0, sink),
            if sink is Some && taken.1 is None {
                Step::Failed(Error::Stream)
            } else {
                Step::Pending
            },
        ),
        Step::Failed(error) => (rest_with_stream(polled.0, sink), Step::Failed(error)),
    }
}

/// What `start_send` does. A send can begin in two states. A ready
/// sink-stream begins it, and the sink holds the adapter. Beside a stream
/// that is not being polled it begins too, and the adapter is held between
/// the two. In these states a multipart without frames is refused with
/// `EmptyMultipart`. In every other state a send is under way or has failed,
/// and every multipart is refused with `Sink`. A refusal changes nothing.
pub open spec fn sink_stream_start<A>(pre: SinkStreamView<A>, frames: Seq<Frame>) -> (
    SinkStreamView<A>,
    Result<(), Error>,
) {
    match pre {
        SinkStreamView::Ready(adapter) => if frames.len() == 0 {
            (pre, Err(Error::EmptyMultipart))
        } else {
            (
                SinkStreamView::Sink(SinkView::Pending(request_begun(adapter, frames)), None),
                Ok(()),
            )
        },
        SinkStreamView::Stream(stream, None) => match stream_taken(stream).1 {
            Some(adapter) => if frames.len() == 0 {
                (pre, Err(Error::EmptyMultipart))
            } else {
                (
                    SinkStreamView::Both(
                        SinkView::Pending(
                            RequestView { adapter: None, ..request_begun(adapter, frames) },
                        ),
                        stream_taken(stream).0,
                        adapter,
                    ),
                    Ok(()),
                )
            },
            None => (pre, Err(Error::Sink)),
        },
        _ => (pre, Err(Error::Sink)),
    }
}

/// The flush as a transition function.
///
/// A ready sink-stream, and one with only a stream that is not being
/// polled, answer a poll with "ready" and stay as they are. A sink that
/// holds the adapter is driven. From the state in which the adapter is held
/// between the two, a poll lends it to the sink and drives the sink. A sink
/// whose send has failed reports that error again. An answer that nothing
/// waits for is refused with `Sink`; it changes nothing, but that a ready
/// sink-stream remembers the failure as its sink would. The adapter is
/// never let go of.
pub open spec fn sink_stream_flush<A>(pre: SinkStreamView<A>, event: Event) -> (
    SinkStreamView<A>,
    Step<()>,
) {
    match pre {
        SinkStreamView::Ready(adapter) => match event {
            Event::Poll => (pre, Step::Ready(())),
            _ => sink_stream_after_sink(sink_flush(SinkView::Ready(adapter), event), None),
        },
        SinkStreamView::Sink(sink, stream) => sink_stream_after_sink(
            sink_flush(sink, event),
            stream,
        ),
        SinkStreamView::Stream(_, None) => match event {
            Event::Poll => (pre, Step::Ready(())),
            _ => (pre, Step::Failed(Error::Sink)),
        },
        SinkStreamView::Both(sink, stream, adapter) => match event {
            Event::Poll => sink_stream_after_sink(
                sink_flush(sink_given(sink, adapter), event),
                Some(stream),
            ),
            _ => (pre, Step::Failed(Error::Sink)),
        },
        _ => (pre, Step::Failed(Error::Sink)),
    }
}

/// The stream side as a transition function.
///
/// A poll of a ready sink-stream makes a stream of the adapter and drives
/// it. A poll beside a sink that is not being polled takes the adapter from
/// the sink for a new stream and drives that. From the state in which the
/// adapter is held between the two, a poll lends it to the stream and drives
/// the stream. A stream that holds the adapter is driven. A stream that has
/// failed has ended, and stays ended. An answer that nothing waits for is
/// refused with `Stream`; it changes nothing, but that a ready sink-stream
/// remembers the failure as its stream would. The adapter is never let go
/// of.
pub open spec fn sink_stream_next<A>(pre: SinkStreamView<A>, event: Event) -> (
    SinkStreamView<A>,
    Step<Option<Seq<Frame>>>,
) {
    match pre {
        SinkStreamView::Ready(adapter) => sink_stream_after_stream(
            stream_next(StreamView::Ready(adapter), event),
            None,
        ),
        SinkStreamView::Sink(sink, None) => match (event, sink_taken(sink).1) {
            (Event::Poll, Some(adapter)) => sink_stream_after_stream(
                stream_next(StreamView::Ready(adapter), event),
                Some(sink_taken(sink).0),
            ),
            _ => (pre, Step::Failed(Error::Stream)),
        },
        SinkStreamView::Both(sink, stream, adapter) => match event {
            Event::Poll => sink_stream_after_stream(
                stream_next(stream_given(stream, adapter), event),
                Some(sink),
            ),
            _ => (pre, Step::Failed(Error::Stream)),
        },
        SinkStreamView::Stream(stream, sink) => sink_stream_after_stream(
            stream_next(stream, event),
            sink,
        ),
        _ => (pre, Step::Failed(Error::Stream)),
    }
}

/// Beginning a send keeps the adapter in the one place that holds it, and a
/// multipart that is refused changes nothing.
pub proof fn lemma_start_keeps_owner<A>(pre: SinkStreamView<A>, frames: Seq<Frame>)
    requires
        pre.well_formed(),
    ensures
        sink_stream_start(pre, frames).0.well_formed(),
        sink_stream_start(pre, frames).0.adapter() == pre.adapter(),
        sink_stream_start(pre, frames).1 is Err ==> sink_stream_start(pre, frames).0 == pre,
{
}

/// Every step of a flush, a failing one too, keeps the adapter: it is held
/// in exactly one place afterwards, and it is the same adapter.
pub proof fn lemma_flush_keeps_owner<A>(pre: SinkStreamView<A>, event: Event)
    requires
        pre.well_formed(),
    ensures
        sink_stream_flush(pre, event).0.well_formed(),
        sink_stream_flush(pre, event).0.adapter() == pre.adapter(),
{
}

/// The stream side ends only by failing: it answers "ended" only when a
/// receive has failed before.
pub proof fn lemma_next_ends_by_failing<A>(pre: SinkStreamView<A>, event: Event)
    ensures
        sink_stream_next(pre, event).1 matches Step::Ready(None) ==> pre.stream_failed(),
{
}

/// Every step of the stream side, a failing one too, keeps the adapter: it
/// is held in exactly one place afterwards, and it is the same adapter. What
/// the stream side yields is one whole message.
pub proof fn lemma_next_keeps_owner<A>(pre: SinkStreamView<A>, event: Event)
    requires
        pre.well_formed(),
    ensures
        sink_stream_next(pre, event).0.well_formed(),
        sink_stream_next(pre, event).0.adapter() == pre.adapter(),
        sink_stream_next(pre, event).1 matches Step::Ready(Some(frames)) ==> is_message(frames),
{
}

/// A failure is remembered. When a flush of a sink-stream whose send is
/// under way ends in a failure, the send has failed. From then on, whatever
/// is done with the sink-stream, the send stays failed: every multipart is
/// refused with `Sink` and changes nothing, and every poll of the sink side
/// reports an error. When a receive has failed, the stream side stays ended.
pub proof fn lemma_failure_is_remembered<A>(
    pre: SinkStreamView<A>,
    event: Event,
    frames: Seq<Frame>,
)
    requires
        pre.well_formed(),
    ensures
        pre matches SinkStreamView::Sink(_, _) && sink_stream_flush(pre, event).1 is Failed
            ==> sink_stream_flush(pre, event).0.sink_failed(),
        pre matches SinkStreamView::Stream(_, _) && sink_stream_next(pre, event).1 is Failed
            ==> sink_stream_next(pre, event).0.stream_failed(),
        pre.sink_failed() ==> {
            &&& sink_stream_start(pre, frames) == (pre, Err::<(), Error>(Error::Sink))
            &&& sink_stream_flush(pre, event).1 is Failed
            &&& sink_stream_flush(pre, event).0.sink_failed()
            &&& sink_stream_next(pre, event).0.sink_failed()
        },
        pre.stream_failed() ==> {
            &&& sink_stream_start(pre, frames).0.stream_failed()
            &&& sink_stream_flush(pre, event).0.stream_failed()
            &&& sink_stream_next(pre, event).0.stream_failed()
            &&& !(sink_stream_next(pre, event).1 matches Step::Ready(Some(_)))
        },
{
}

/// One use of a sink-stream: a multipart handed over, or one answer fed to
/// the sink side or to the stream side.
pub enum SinkStreamOp {
    Start(Seq<Frame>),
    Flush(Event),
    Next(Event),
}

/// The sink-stream after one use.
pub open spec fn sink_stream_apply<A>(pre: SinkStreamView<A>, op: SinkStreamOp) -> SinkStreamView<
    A,
> {
    match op {
        SinkStreamOp::Start(frames) => sink_stream_start(pre, frames).0,
        SinkStreamOp::Flush(event) => sink_stream_flush(pre, event).0,
        SinkStreamOp::Next(event) => sink_stream_next(pre, event).0,
    }
}

/// The sink-stream after a sequence of uses, the first one first.
pub open spec fn sink_stream_run<A>(pre: SinkStreamView<A>, ops: Seq<SinkStreamOp>)
    -> SinkStreamView<A>
    decreases ops.len(),
{
    if ops.len() == 0 {
        pre
    } else {
        sink_stream_apply(sink_stream_run(pre, ops.drop_last()), ops.last())
    }
}

/// Whatever is done with a sink-stream, in whatever order and with whatever
/// answers, failures among them, the adapter it was made of is held in
/// exactly one place: by the sink-stream itself, by its send or by its
/// receive. It is never dropped and never held twice, and the state that
/// holds nothing is never seen.
pub proof fn lemma_single_owner<A>(adapter: A, ops: Seq<SinkStreamOp>)
    ensures
        sink_stream_run(SinkStreamView::Ready(adapter), ops).well_formed(),
        !(sink_stream_run(SinkStreamView::Ready(adapter), ops) is Polling),
        sink_stream_run(SinkStreamView::Ready(adapter), ops).holders() == 1,
        sink_stream_run(SinkStreamView::Ready(adapter), ops).adapter() == Some(adapter),
    decreases ops.len(),
{
    if ops.len() > 0 {
        lemma_single_owner(adapter, ops.drop_last());
        let before = sink_stream_run(SinkStreamView::Ready(adapter), ops.drop_last());
        match ops.last() {
            SinkStreamOp::Start(frames) => lemma_start_keeps_owner(before, frames),
            SinkStreamOp::Flush(event) => lemma_flush_keeps_owner(before, event),
            SinkStreamOp::Next(event) => lemma_next_keeps_owner(before, event),
        }
    }
}

impl<A> MultipartSinkStream<A> {
    /// A sink-stream on the socket behind `adapter`.
    pub fn new(adapter: A) -> (sink_stream: Self)
        ensures
            sink_stream@ == SinkStreamView::Ready(adapter),
            sink_stream@.well_formed(),
    {
        MultipartSinkStream { inner: SinkStreamState::Ready(adapter) }
    }

    /// The adapter, for making the calls that the sink-stream asks for.
    pub fn socket(&self) -> (adapter: Option<&A>)
        ensures
            adapter == match self@.adapter() {
                Some(held) => Some(&held),
                None => None,
            },
    {
        match &self.inner {
            SinkStreamState::Ready(adapter) => Some(adapter),
            SinkStreamState::Sink(sink, None) => sink.socket(),
            SinkStreamState::Sink(sink, Some(stream)) => match sink.socket() {
                Some(adapter) => Some(adapter),
                None => stream.socket(),
            },
            SinkStreamState::Stream(stream, None) => stream.socket(),
            SinkStreamState::Stream(stream, Some(sink)) => match stream.socket() {
                Some(adapter) => Some(adapter),
                None => sink.socket(),
            },
            SinkStreamState::Both(_, _, adapter) => Some(adapter),
            SinkStreamState::Polling => None,
        }
    }

    /// The frame that `Call::Send` refers to.
    pub fn front(&self) -> (frame: Option<&Frame>)
        ensures
            frame == match self@ {
                SinkStreamView::Sink(SinkView::Pending(request), _) => if request.remaining.len()
                    > 0 {
                    Some(&request.remaining[0])
                } else {
                    None
                },
                _ => None,
            },
    {
        match &self.inner {
            SinkStreamState::Sink(sink, _) => sink.front(),
            _ => None,
        }
    }

    /// Moves the state out to work on it. Every caller puts a state back.
    fn polling(&mut self) -> (state: SinkStreamState<A>)
        ensures
            state == old(self).inner,
            final(self).inner == SinkStreamState::<A>::Polling,
    {
        let mut state = SinkStreamState::Polling;
        std::mem::swap(&mut self.inner, &mut state);
        state
    }

    /// Puts the state back unchanged and refuses with `error`.
    fn refuse<T>(&mut self, state: SinkStreamState<A>, error: Error) -> (step: Step<T>)
        ensures
            final(self).inner == state,
            step == Step::<T>::Failed(error),
    {
        self.inner = state;
        Step::Failed(error)
    }

    /// Lets the adapter rest after a poll of the sink that did not finish
    /// the send. Tells whether the sink could give the adapter back where a
    /// stream waits for it.
    fn rest_sink(&mut self, sink: MultipartSink<A>, stream: Option<MultipartStream<A>>) -> (fine:
        bool)
        ensures
            final(self)@ == rest_with_sink(sink@, parked_stream(stream)),
            fine == !(stream is Some && sink_taken(sink@).1 is None),
    {
        let mut sink = sink;
        match stream {
            Some(stream) => match sink.take_socket() {
                Some(adapter) => {
                    self.inner = SinkStreamState::Both(sink, stream, adapter);
                    true
                },
                None => {
                    self.inner = SinkStreamState::Sink(sink, Some(stream));
                    false
                },
            },
            None => {
                self.inner = SinkStreamState::Sink(sink, None);
                true
            },
        }
    }

    /// Lets the adapter rest after a poll of the stream that yielded
    /// nothing. Tells whether the stream could give the adapter back where a
    /// sink waits for it.
    fn rest_stream(&mut self, stream: MultipartStream<A>, sink: Option<MultipartSink<A>>) -> (fine:
        bool)
        ensures
            final(self)@ == rest_with_stream(stream@, parked_sink(sink)),
            fine == !(sink is Some && stream_taken(stream@).1 is None),
    {
        let mut stream = stream;
        match sink {
            Some(sink) => match stream.take_socket() {
                Some(adapter) => {
                    self.inner = SinkStreamState::Both(sink, stream, adapter);
                    true
                },
                None => {
                    self.inner = SinkStreamState::Stream(stream, Some(sink));
                    false
                },
            },
            None => {
                self.inner = SinkStreamState::Stream(stream, None);
                true
            },
        }
    }

    /// Advances the sink and settles where the adapter goes.
    fn poll_sink(
        &mut self,
        sink: MultipartSink<A>,
        stream: Option<MultipartStream<A>>,
        event: Event,
    ) -> (step: Step<()>)
        ensures
            (final(self)@, step) == sink_stream_after_sink(
                sink_flush(sink@, event),
                parked_stream(stream),
            ),
    {
        let mut sink = sink;
        match sink.poll_flush(event) {
            Step::Call(call) => {
                self.inner = SinkStreamState::Sink(sink, stream);
                Step::Call(call)
            },
            Step::Ready(_) => match sink.take_socket() {
                Some(adapter) => {
                    match stream {
                        Some(mut stream) => {
                            stream.give_socket(adapter);
                            self.inner = SinkStreamState::Stream(stream, None);
                        },
                        None => {
                            self.inner = SinkStreamState::Ready(adapter);
                        },
                    }
                    Step::Ready(())
                },
                None => {
                    self.inner = SinkStreamState::Sink(sink, stream);
                    Step::Failed(Error::Sink)
                },
            },
            Step::Pending => if self.rest_sink(sink, stream) {
                Step::Pending
            } else {
                Step::Failed(Error::Sink)
            },
            Step::Failed(error) => {
                let _ = self.rest_sink(sink, stream);
                Step::Failed(error)
            },
        }
    }

    /// Advances the stream and settles where the adapter goes.
    fn poll_stream(
        &mut self,
        stream: MultipartStream<A>,
        sink: Option<MultipartSink<A>>,
        event: Event,
    ) -> (step: Step<Option<Multipart>>)
        ensures
            (final(self)@, stream_reply(step)) == sink_stream_after_stream(
                stream_next(stream@, event),
                parked_sink(sink),
            ),
            stream@.well_formed() ==> (step matches Step::Ready(Some(multipart)) ==> is_message(
                multipart@,
            )),
    {
        let mut stream = stream;
        match stream.poll_next(event) {
            Step::Call(call) => {
                self.inner = SinkStreamState::Stream(stream, sink);
                Step::Call(call)
            },
            Step::Ready(Some(multipart)) => match stream.take_socket() {
                Some(adapter) => {
                    match sink {
                        Some(mut sink) => {
                            sink.give_socket(adapter);
                            self.inner = SinkStreamState::Sink(sink, None);
                        },
                        None => {
                            self.inner = SinkStreamState::Ready(adapter);
                        },
                    }
                    Step::Ready(Some(multipart))
                },
                None => {
                    self.inner = SinkStreamState::Stream(stream, sink);
                    Step::Failed(Error::Stream)
                },
            },
            Step::Ready(None) => {
                let _ = self.rest_stream(stream, sink);
                Step::Ready(None)
            },
            Step::Pending => if self.rest_stream(stream, sink) {
                Step::Pending
            } else {
                Step::Failed(Error::Stream)
            },
            Step::Failed(error) => {
                let _ = self.rest_stream(stream, sink);
                Step::Failed(error)
            },
        }
    }

    /// Accepts `multipart` for sending.
    pub fn start_send(&mut self, multipart: Multipart) -> (result: Result<(), Error>)
        ensures
            (final(self)@, result) == sink_stream_start(old(self)@, multipart@),
            result is Err ==> final(self)@ == old(self)@,
            old(self)@.well_formed() ==> final(self)@.well_formed() && final(self)@.adapter()
                == old(self)@.adapter(),
    {
        proof {
            if self@.well_formed() {
                lemma_start_keeps_owner(self@, multipart@);
            }
        }
        match self.polling() {
            SinkStreamState::Ready(adapter) => if multipart.is_empty() {
                self.inner = SinkStreamState::Ready(adapter);
                Err(Error::EmptyMultipart)
            } else {
                let request = MultipartRequest::new(adapter, multipart);
                self.inner = SinkStreamState::Sink(MultipartSink::sending(request), None);
                Ok(())
            },
            SinkStreamState::Stream(mut stream, None) => {
                if stream.socket().is_none() {
                    self.inner = SinkStreamState::Stream(stream, None);
                    return Err(Error::Sink);
                }
                if multipart.is_empty() {
                    self.inner = SinkStreamState::Stream(stream, None);
                    return Err(Error::EmptyMultipart);
                }
                let mut sink = MultipartSink::new(stream.take_socket().unwrap());
                let _ = sink.start_send(multipart);
                let adapter = sink.take_socket().unwrap();
                self.inner = SinkStreamState::Both(sink, stream, adapter);
                Ok(())
            },
            other => {
                self.inner = other;
                Err(Error::Sink)
            },
        }
    }

    /// Advances the query "may `start_send` be called" by one answer.
    pub fn poll_ready(&mut self, event: Event) -> (step: Step<()>)
        ensures
            (final(self)@, step) == sink_stream_flush(old(self)@, event),
            old(self)@.well_formed() ==> final(self)@.well_formed() && final(self)@.adapter()
                == old(self)@.adapter(),
    {
        self.poll_flush(event)
    }

    /// Advances the flush by one answer. Whatever the reply, a failure too,
    /// the adapter is held in exactly one place afterwards.
    pub fn poll_flush(&mut self, event: Event) -> (step: Step<()>)
        ensures
            (final(self)@, step) == sink_stream_flush(old(self)@, event),
            old(self)@.well_formed() ==> final(self)@.well_formed() && final(self)@.adapter()
                == old(self)@.adapter(),
    {
        proof {
            if self@.well_formed() {
                lemma_flush_keeps_owner(self@, event);
            }
        }
        match self.polling() {
            SinkStreamState::Ready(adapter) => match event {
                Event::Poll => {
                    self.inner = SinkStreamState::Ready(adapter);
                    Step::Ready(())
                },
                _ => self.poll_sink(MultipartSink::new(adapter), None, event),
            },
            SinkStreamState::Sink(sink, stream) => self.poll_sink(sink, stream, event),
            SinkStreamState::Stream(stream, None) => match event {
                Event::Poll => {
                    self.inner = SinkStreamState::Stream(stream, None);
                    Step::Ready(())
                },
                _ => self.refuse(SinkStreamState::Stream(stream, None), Error::Sink),
            },
            SinkStreamState::Both(mut sink, stream, adapter) => match event {
                Event::Poll => {
                    sink.give_socket(adapter);
                    self.poll_sink(sink, Some(stream), event)
                },
                _ => self.refuse(SinkStreamState::Both(sink, stream, adapter), Error::Sink),
            },
            other => self.refuse(other, Error::Sink),
        }
    }

    /// Advances the close by one answer. The stream side may still be in
    /// use, so the adapter stays: closing is flushing.
    pub fn poll_close(&mut self, event: Event) -> (step: Step<()>)
        ensures
            (final(self)@, step) == sink_stream_flush(old(self)@, event),
            old(self)@.well_formed() ==> final(self)@.well_formed() && final(self)@.adapter()
                == old(self)@.adapter(),
    {
        self.poll_flush(event)
    }

    /// Advances the stream side by one answer. Whatever the reply, a failure
    /// too, the adapter is held in exactly one place afterwards. The stream
    /// side ends only by failing, and what a well-formed sink-stream yields
    /// is one whole message.
    pub fn poll_next(&mut self, event: Event) -> (step: Step<Option<Multipart>>)
        ensures
            (final(self)@, stream_reply(step)) == sink_stream_next(old(self)@, event),
            old(self)@.well_formed() ==> final(self)@.well_formed() && final(self)@.adapter()
                == old(self)@.adapter(),
            old(self)@.well_formed() ==> (step matches Step::Ready(Some(multipart))
                ==> is_message(multipart@)),
            step matches Step::Ready(None) ==> old(self)@.stream_failed(),
    {
        proof {
            lemma_next_ends_by_failing(self@, event);
            if self@.well_formed() {
                lemma_next_keeps_owner(self@, event);
            }
        }
        match self.polling() {
            SinkStreamState::Ready(adapter) => self.poll_stream(
                MultipartStream::new(adapter),
                None,
                event,
            ),
            SinkStreamState::Sink(mut sink, None) => match event {
                Event::Poll => match sink.take_socket() {
                    Some(adapter) => {
                        let stream = MultipartStream::new(adapter);
                        self.poll_stream(stream, Some(sink), event)
                    },
                    None => self.refuse(SinkStreamState::Sink(sink, None), Error::Stream),
                },
                _ => self.refuse(SinkStreamState::Sink(sink, None), Error::Stream),
            },
            SinkStreamState::Both(sink, mut stream, adapter) => match event {
                Event::Poll => {
                    stream.give_socket(adapter);
                    self.poll_stream(stream, Some(sink), event)
                },
                _ => self.refuse(SinkStreamState::Both(sink, stream, adapter), Error::Stream),
            },
            SinkStreamState::Stream(stream, sink) => self.poll_stream(stream, sink, event),
            other => self.refuse(other, Error::Stream),
        }
    }
}

} // verus!
