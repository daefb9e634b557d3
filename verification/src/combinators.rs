//! Stream combinators that govern termination: a stream that ends on a
//! sentinel multipart, a stream that a second stream can switch off, and a
//! stream that reports the passing of time.
//!
//! A combinator holds the streams it wraps but never polls them: their owner
//! does, and feeds each outcome back. So the combinators work over any
//! stream, whatever drives it.

use crate::error::Error;
use crate::message::Multipart;
use crate::prelude::{ControlHandler, EndHandler};
use std::time::Duration;
use vstd::prelude::*;

verus! {

/// The outcome of one poll of a stream or of a timer.
#[derive(Clone, Debug, PartialEq, Eq)]
pub enum Polled<T> {
    Pending,
    Ready(T),
    Failed(Error),
}

/// What a combinator is told.
#[derive(Clone, Debug, PartialEq, Eq)]
pub enum StreamEvent<I> {
    /// The scheduler polls the combinator: a poll begins.
    Poll,
    /// The outcome of polling the data stream.
    Stream(Polled<Option<I>>),
    /// The outcome of polling the control stream.
    Control(Polled<Option<Multipart>>),
    /// The outcome of polling the timer.
    Timer(Polled<()>),
    /// The timer was armed anew.
    Armed,
}

/// What a combinator replies.
#[derive(Debug, PartialEq, Eq)]
pub enum StreamStep<T> {
    /// Poll the data stream and come back with `StreamEvent::Stream`.
    PollStream,
    /// Poll the control stream and come back with `StreamEvent::Control`.
    PollControl,
    /// Poll the timer and come back with `StreamEvent::Timer`.
    PollTimer,
    /// Arm the timer anew for this duration and come back with
    /// `StreamEvent::Armed`.
    ArmTimer(Duration),
    /// The poll ends with this outcome.
    Done(Polled<Option<T>>),
}

/// Which answer a combinator waits for.
#[derive(Clone, Copy, Debug, PartialEq, Eq, Structural)]
pub enum Awaiting {
    /// No poll is running.
    Nothing,
    Stream,
    Control,
    Timer,
    Arming,
}

/// One of two kinds of item.
#[derive(Clone, Debug, PartialEq, Eq)]
pub enum Either<L, R> {
    Left(L),
    Right(R),
}

/// The item that tells of a timeout.
#[derive(Clone, Copy, Debug, PartialEq, Eq, Structural)]
pub struct Timeout;

/// The state of a combinator as contracts see it, but for the streams and
/// the handler it holds.
pub struct Progress {
    /// Whether the stream has ended: by a stop, by its data stream ending, or
    /// by a failure.
    pub ended: bool,
    pub awaiting: Awaiting,
}

/// A combinator between polls that has not ended.
pub open spec fn at_rest() -> Progress {
    Progress { ended: false, awaiting: Awaiting::Nothing }
}

/// A combinator that has ended.
pub open spec fn at_end() -> Progress {
    Progress { ended: true, awaiting: Awaiting::Nothing }
}

/// A combinator that waits for an answer.
pub open spec fn waiting_for(awaiting: Awaiting) -> Progress {
    Progress { ended: false, awaiting }
}

/// How a poll of the data stream that yielded no item to judge is passed
/// on: pending stays pending, and the end or a failure of the data stream
/// is the end of the combinator too.
pub open spec fn passed_on<T>(polled: Polled<Option<T>>) -> (Progress, StreamStep<T>) {
    (
        if polled is Pending || polled matches Polled::Ready(Some(_)) {
            at_rest()
        } else {
            at_end()
        },
        StreamStep::Done(polled),
    )
}

/// The reply to a misuse: an answer that was not waited for.
pub open spec fn misused<T>() -> (Progress, StreamStep<T>) {
    (at_end(), StreamStep::Done(Polled::Failed(Error::Stream)))
}

/// The reply of an ended combinator to a poll.
pub open spec fn finished<T>() -> (Progress, StreamStep<T>) {
    (at_end(), StreamStep::Done(Polled::Ready(None)))
}

/// The sentinel-driven stop as a transition function; `stop` is the
/// handler's verdict on the item, where there is one.
///
/// A poll asks for the data stream to be polled. An item on which the
/// handler says "stop" ends the stream and is not passed on; every other
/// outcome is passed on as it is. Once ended, every poll answers "ended".
pub open spec fn ending_next(pre: Progress, event: StreamEvent<Multipart>, stop: bool) -> (
    Progress,
    StreamStep<Multipart>,
) {
    match (pre.awaiting, event) {
        (Awaiting::Nothing, StreamEvent::Poll) => if pre.ended {
            finished()
        } else {
            (waiting_for(Awaiting::Stream), StreamStep::PollStream)
        },
        (Awaiting::Stream, StreamEvent::Stream(polled)) => if polled matches Polled::Ready(
            Some(_),
        ) && stop {
            finished()
        } else {
            passed_on(polled)
        },
        _ => misused(),
    }
}

/// A stream that ends when its handler says so of one of its own items.
pub struct EndingStream<E, S> {
    stream: S,
    end_handler: E,
    ended: bool,
    awaiting: Awaiting,
}

impl<E, S> View for EndingStream<E, S> {
    type V = Progress;

    closed spec fn view(&self) -> Progress {
        Progress { ended: self.ended, awaiting: self.awaiting }
    }
}

impl<E: EndHandler, S> EndingStream<E, S> {
    /// Wraps `stream`; `end_handler` judges its items.
    pub fn new(stream: S, end_handler: E) -> (ending: Self)
        ensures
            ending@ == at_rest(),
            ending.stream_view() == stream,
    {
        EndingStream { stream, end_handler, ended: false, awaiting: Awaiting::Nothing }
    }

    /// The data stream.
    pub closed spec fn stream_view(&self) -> S {
        self.stream
    }

    /// The data stream, for polling it.
    pub fn stream(&mut self) -> (stream: &mut S)
        ensures
            *stream == old(self).stream_view(),
            final(self).stream_view() == *final(stream),
            final(self)@ == old(self)@,
    {
        &mut self.stream
    }

    /// Settles a poll of the data stream, given the handler's verdict on the
    /// item it yielded.
    pub fn on_stream(&mut self, polled: Polled<Option<Multipart>>, stop: bool) -> (step:
        StreamStep<Multipart>)
        ensures
            (final(self)@, step) == ending_next(
                Progress { awaiting: Awaiting::Stream, ..old(self)@ },
                StreamEvent::Stream(polled),
                stop,
            ),
            final(self).stream_view() == old(self).stream_view(),
    {
        self.awaiting = Awaiting::Nothing;
        match polled {
            Polled::Ready(Some(item)) => if stop {
                self.ended = true;
                StreamStep::Done(Polled::Ready(None))
            } else {
                self.ended = false;
                StreamStep::Done(Polled::Ready(Some(item)))
            },
            Polled::Pending => {
                self.ended = false;
                StreamStep::Done(Polled::Pending)
            },
            other => {
                self.ended = true;
                StreamStep::Done(other)
            },
        }
    }

    /// Advances the stream by one answer. An item of the data stream is
    /// shown to the handler, whose verdict decides between the two replies
    /// that `ending_next` allows.
    pub fn poll_next(&mut self, event: StreamEvent<Multipart>) -> (step: StreamStep<Multipart>)
        ensures
            (final(self)@, step) == ending_next(old(self)@, event, true) || (final(self)@, step)
                == ending_next(old(self)@, event, false),
            final(self).stream_view() == old(self).stream_view(),
    {
        match event {
            StreamEvent::Poll => match self.awaiting {
                Awaiting::Nothing => if self.ended {
                    StreamStep::Done(Polled::Ready(None))
                } else {
                    self.awaiting = Awaiting::Stream;
                    StreamStep::PollStream
                },
                _ => self.misuse(),
            },
            StreamEvent::Stream(polled) => match self.awaiting {
                Awaiting::Stream => {
                    let stop = match &polled {
                        Polled::Ready(Some(item)) => self.end_handler.should_stop(item),
                        _ => false,
                    };
                    self.on_stream(polled, stop)
                },
                _ => self.misuse(),
            },
            _ => self.misuse(),
        }
    }

    fn misuse(&mut self) -> (step: StreamStep<Multipart>)
        ensures
            (final(self)@, step) == misused::<Multipart>(),
            final(self).stream_view() == old(self).stream_view(),
    {
        self.ended = true;
        self.awaiting = Awaiting::Nothing;
        StreamStep::Done(Polled::Failed(Error::Stream))
    }
}

/// What a poll of the control stream yielded, without the multipart itself,
/// which has gone to the handler.
pub open spec fn yield_of(polled: Polled<Option<Multipart>>) -> Polled<Option<()>> {
    match polled {
        Polled::Pending => Polled::Pending,
        Polled::Ready(Some(_)) => Polled::Ready(Some(())),
        Polled::Ready(None) => Polled::Ready(None),
        Polled::Failed(error) => Polled::Failed(error),
    }
}

/// How a controlled stream goes on after a poll of its control stream, given
/// the handler's verdict on the multipart, where there is one: it ends when
/// the control stream has ended or the verdict is "stop", fails when the
/// control stream fails, and asks for its data stream otherwise.
pub open spec fn controlled_after(yielded: Polled<Option<()>>, stop: bool) -> (
    Progress,
    StreamStep<Multipart>,
) {
    match yielded {
        Polled::Pending => (waiting_for(Awaiting::Stream), StreamStep::PollStream),
        Polled::Ready(Some(_)) => if stop {
            finished()
        } else {
            (waiting_for(Awaiting::Stream), StreamStep::PollStream)
        },
        Polled::Ready(None) => finished(),
        Polled::Failed(error) => (at_end(), StreamStep::Done(Polled::Failed(error))),
    }
}

/// The controller-driven stop as a transition function; `stop` is the
/// handler's verdict on the control multipart, where there is one.
///
/// A poll asks for the control stream first. If the control stream has
/// ended, or yields a multipart on which the handler says "stop", the stream
/// ends. If the control stream fails, so does the stream. Otherwise, and in
/// particular while the control stream is pending, the data stream is asked
/// for and its outcome passed on as it is. Once ended, every poll answers
/// "ended".
pub open spec fn controlled_next(pre: Progress, event: StreamEvent<Multipart>, stop: bool) -> (
    Progress,
    StreamStep<Multipart>,
) {
    match (pre.awaiting, event) {
        (Awaiting::Nothing, StreamEvent::Poll) => if pre.ended {
            finished()
        } else {
            (waiting_for(Awaiting::Control), StreamStep::PollControl)
        },
        (Awaiting::Control, StreamEvent::Control(polled)) => controlled_after(
            yield_of(polled),
            stop,
        ),
        (Awaiting::Stream, StreamEvent::Stream(polled)) => passed_on(polled),
        _ => misused(),
    }
}

/// A stream that a control stream can switch off.
pub struct ControlledStream<H, S, T> {
    stream: T,
    control: S,
    handler: H,
    ended: bool,
    awaiting: Awaiting,
}

impl<H, S, T> View for ControlledStream<H, S, T> {
    type V = Progress;

    closed spec fn view(&self) -> Progress {
        Progress { ended: self.ended, awaiting: self.awaiting }
    }
}

impl<H: ControlHandler, S, T> ControlledStream<H, S, T> {
    /// Wraps `stream`; `handler` judges what `control` yields.
    pub fn new(stream: T, control: S, handler: H) -> (controlled: Self)
        ensures
            controlled@ == at_rest(),
            controlled.stream_view() == stream,
            controlled.control_view() == control,
    {
        ControlledStream { stream, control, handler, ended: false, awaiting: Awaiting::Nothing }
    }

    /// The data stream.
    pub closed spec fn stream_view(&self) -> T {
        self.stream
    }

    /// The control stream.
    pub closed spec fn control_view(&self) -> S {
        self.control
    }

    /// The data stream, for polling it.
    pub fn stream(&mut self) -> (stream: &mut T)
        ensures
            *stream == old(self).stream_view(),
            final(self).stream_view() == *final(stream),
            final(self).control_view() == old(self).control_view(),
            final(self)@ == old(self)@,
    {
        &mut self.stream
    }

    /// The control stream, for polling it.
    pub fn control(&mut self) -> (control: &mut S)
        ensures
            *control == old(self).control_view(),
            final(self).control_view() == *final(control),
            final(self).stream_view() == old(self).stream_view(),
            final(self)@ == old(self)@,
    {
        &mut self.control
    }

    /// Goes on after a poll of the control stream, given the handler's
    /// verdict on the multipart it yielded.
    pub fn on_control(&mut self, yielded: Polled<Option<()>>, stop: bool) -> (step: StreamStep<
        Multipart,
    >)
        ensures
            (final(self)@, step) == controlled_after(yielded, stop),
            final(self).stream_view() == old(self).stream_view(),
            final(self).control_view() == old(self).control_view(),
    {
        let go_on = match yielded {
            Polled::Pending => true,
            Polled::Ready(Some(_)) => !stop,
            Polled::Ready(None) => false,
            Polled::Failed(error) => {
                self.ended = true;
                self.awaiting = Awaiting::Nothing;
                return StreamStep::Done(Polled::Failed(error));
            },
        };
        if go_on {
            self.ended = false;
            self.awaiting = Awaiting::Stream;
            StreamStep::PollStream
        } else {
            self.ended = true;
            self.awaiting = Awaiting::Nothing;
            StreamStep::Done(Polled::Ready(None))
        }
    }

    /// Advances the stream by one answer. A multipart of the control stream
    /// is handed to the handler, whose verdict decides between the two
    /// replies that `controlled_next` allows.
    pub fn poll_next(&mut self, event: StreamEvent<Multipart>) -> (step: StreamStep<Multipart>)
        ensures
            (final(self)@, step) == controlled_next(old(self)@, event, true) || (
                final(self)@,
                step,
            ) == controlled_next(old(self)@, event, false),
            final(self).stream_view() == old(self).stream_view(),
            final(self).control_view() == old(self).control_view(),
    {
        match event {
            StreamEvent::Poll => match self.awaiting {
                Awaiting::Nothing => if self.ended {
                    StreamStep::Done(Polled::Ready(None))
                } else {
                    self.awaiting = Awaiting::Control;
                    StreamStep::PollControl
                },
                _ => self.misuse(),
            },
            StreamEvent::Control(polled) => match self.awaiting {
                Awaiting::Control => match polled {
                    Polled::Ready(Some(multipart)) => {
                        let stop = self.handler.should_stop(multipart);
                        self.on_control(Polled::Ready(Some(())), stop)
                    },
                    Polled::Ready(None) => self.on_control(Polled::Ready(None), false),
                    Polled::Pending => self.on_control(Polled::Pending, false),
                    Polled::Failed(error) => self.on_control(Polled::Failed(error), false),
                },
                _ => self.misuse(),
            },
            StreamEvent::Stream(polled) => match self.awaiting {
                Awaiting::Stream => {
                    self.awaiting = Awaiting::Nothing;
                    self.ended = match &polled {
                        Polled::Pending => false,
                        Polled::Ready(Some(_)) => false,
                        _ => true,
                    };
                    StreamStep::Done(polled)
                },
                _ => self.misuse(),
            },
            _ => self.misuse(),
        }
    }

    fn misuse(&mut self) -> (step: StreamStep<Multipart>)
        ensures
            (final(self)@, step) == misused::<Multipart>(),
            final(self).stream_view() == old(self).stream_view(),
            final(self).control_view() == old(self).control_view(),
    {
        self.ended = true;
        self.awaiting = Awaiting::Nothing;
        StreamStep::Done(Polled::Failed(Error::Stream))
    }
}

/// An item of the data stream as an item of the timed stream.
pub open spec fn timed<I>(polled: Polled<Option<I>>) -> Polled<Option<Either<I, Timeout>>> {
    match polled {
        Polled::Pending => Polled::Pending,
        Polled::Ready(Some(item)) => Polled::Ready(Some(Either::Left(item))),
        Polled::Ready(None) => Polled::Ready(None),
        Polled::Failed(error) => Polled::Failed(error),
    }
}

/// The timeout as a transition function.
///
/// A poll asks for the timer first. If it has fired, the timer is armed
/// anew for the same duration and the poll yields a `Timeout`; the stream
/// goes on. If the timer fails, so does the stream. While the timer is
/// pending, the data stream is asked for and its outcome passed on. The
/// timer is armed only when it has fired, so the duration runs from the last
/// arming, not from the last item. Once ended, every poll answers "ended".
pub open spec fn timeout_next<I>(pre: Progress, duration: Duration, event: StreamEvent<I>) -> (
    Progress,
    StreamStep<Either<I, Timeout>>,
) {
    match (pre.awaiting, event) {
        (Awaiting::Nothing, StreamEvent::Poll) => if pre.ended {
            finished()
        } else {
            (waiting_for(Awaiting::Timer), StreamStep::PollTimer)
        },
        (Awaiting::Timer, StreamEvent::Timer(polled)) => match polled {
            Polled::Ready(_) => (waiting_for(Awaiting::Arming), StreamStep::ArmTimer(duration)),
            Polled::Pending => (waiting_for(Awaiting::Stream), StreamStep::PollStream),
            Polled::Failed(error) => (at_end(), StreamStep::Done(Polled::Failed(error))),
        },
        (Awaiting::Arming, StreamEvent::Armed) => (
            at_rest(),
            StreamStep::Done(Polled::Ready(Some(Either::Right(Timeout)))),
        ),
        (Awaiting::Stream, StreamEvent::Stream(polled)) => passed_on(timed(polled)),
        _ => misused(),
    }
}

/// A stream that yields either an item of the stream it wraps or a
/// `Timeout`, and does not end on a timeout.
pub struct TimeoutStream<S> {
    stream: S,
    duration: Duration,
    ended: bool,
    awaiting: Awaiting,
}

impl<S> View for TimeoutStream<S> {
    type V = Progress;

    closed spec fn view(&self) -> Progress {
        Progress { ended: self.ended, awaiting: self.awaiting }
    }
}

impl<S> TimeoutStream<S> {
    /// Wraps `stream`. The owner arms the timer for `duration` at once.
    pub fn new(stream: S, duration: Duration) -> (timeout: Self)
        ensures
            timeout@ == at_rest(),
            timeout.stream_view() == stream,
            timeout.duration_view() == duration,
    {
        TimeoutStream { stream, duration, ended: false, awaiting: Awaiting::Nothing }
    }

    /// The data stream.
    pub closed spec fn stream_view(&self) -> S {
        self.stream
    }

    /// The time between two timeouts.
    pub closed spec fn duration_view(&self) -> Duration {
        self.duration
    }

    /// The data stream, for polling it.
    pub fn stream(&mut self) -> (stream: &mut S)
        ensures
            *stream == old(self).stream_view(),
            final(self).stream_view() == *final(stream),
            final(self).duration_view() == old(self).duration_view(),
            final(self)@ == old(self)@,
    {
        &mut self.stream
    }

    /// The time between two timeouts.
    pub fn duration(&self) -> (duration: Duration)
        ensures
            duration == self.duration_view(),
    {
        self.duration
    }

    /// Advances the stream by one answer.
    pub fn poll_next<I>(&mut self, event: StreamEvent<I>) -> (step: StreamStep<
        Either<I, Timeout>,
    >)
        ensures
            (final(self)@, step) == timeout_next(old(self)@, old(self).duration_view(), event),
            final(self).stream_view() == old(self).stream_view(),
            final(self).duration_view() == old(self).duration_view(),
    {
        match event {
            StreamEvent::Poll => match self.awaiting {
                Awaiting::Nothing => if self.ended {
                    StreamStep::Done(Polled::Ready(None))
                } else {
                    self.awaiting = Awaiting::Timer;
                    StreamStep::PollTimer
                },
                _ => self.misuse(),
            },
            StreamEvent::Timer(polled) => match self.awaiting {
                Awaiting::Timer => match polled {
                    Polled::Ready(_) => {
                        self.ended = false;
                        self.awaiting = Awaiting::Arming;
                        StreamStep::ArmTimer(self.duration)
                    },
                    Polled::Pending => {
                        self.ended = false;
                        self.awaiting = Awaiting::Stream;
                        StreamStep::PollStream
                    },
                    Polled::Failed(error) => {
                        self.ended = true;
                        self.awaiting = Awaiting::Nothing;
                        StreamStep::Done(Polled::Failed(error))
                    },
                },
                _ => self.misuse(),
            },
            StreamEvent::Armed => match self.awaiting {
                Awaiting::Arming => {
                    self.ended = false;
                    self.awaiting = Awaiting::Nothing;
                    StreamStep::Done(Polled::Ready(Some(Either::Right(Timeout))))
                },
                _ => self.misuse(),
            },
            StreamEvent::Stream(polled) => match self.awaiting {
                Awaiting::Stream => {
                    self.awaiting = Awaiting::Nothing;
                    match polled {
                        Polled::Pending => {
                            self.ended = false;
                            StreamStep::Done(Polled::Pending)
                        },
                        Polled::Ready(Some(item)) => {
                            self.ended = false;
                            StreamStep::Done(Polled::Ready(Some(Either::Left(item))))
                        },
                        Polled::Ready(None) => {
                            self.ended = true;
                            StreamStep::Done(Polled::Ready(None))
                        },
                        Polled::Failed(error) => {
                            self.ended = true;
                            StreamStep::Done(Polled::Failed(error))
                        },
                    }
                },
                _ => self.misuse(),
            },
            _ => self.misuse(),
        }
    }

    fn misuse<T>(&mut self) -> (step: StreamStep<T>)
        ensures
            (final(self)@, step) == misused::<T>(),
            final(self).stream_view() == old(self).stream_view(),
            final(self).duration_view() == old(self).duration_view(),
    {
        self.ended = true;
        self.awaiting = Awaiting::Nothing;
        StreamStep::Done(Polled::Failed(Error::Stream))
    }
}

/// Whether a reply ends the stream: it reports the end or a failure.
pub open spec fn is_final<T>(step: StreamStep<T>) -> bool {
    step matches StreamStep::Done(polled) && (polled is Failed || polled == Polled::<
        Option<T>,
    >::Ready(None))
}

/// The end of a sentinel-stopped stream is final: a reply that reports the
/// end or a failure leaves the stream ended, and an ended stream answers
/// every poll with "ended" without asking for its data stream.
pub proof fn lemma_ending_ends(pre: Progress, event: StreamEvent<Multipart>, stop: bool)
    ensures
        is_final(ending_next(pre, event, stop).1) ==> ending_next(pre, event, stop).0
            == at_end(),
        ending_next(at_end(), StreamEvent::Poll, stop) == finished::<Multipart>(),
{
}

/// The end of a controlled stream is final, in the same sense.
pub proof fn lemma_controlled_ends(pre: Progress, event: StreamEvent<Multipart>, stop: bool)
    ensures
        is_final(controlled_next(pre, event, stop).1) ==> controlled_next(pre, event, stop).0
            == at_end(),
        controlled_next(at_end(), StreamEvent::Poll, stop) == finished::<Multipart>(),
{
}

/// The end of a timed stream is final, in the same sense; and a timeout is
/// not an end: after it the stream is as it was before the poll.
pub proof fn lemma_timeout_ends<I>(pre: Progress, duration: Duration, event: StreamEvent<I>)
    ensures
        is_final(timeout_next(pre, duration, event).1) ==> timeout_next(pre, duration, event).0
            == at_end(),
        timeout_next::<I>(at_end(), duration, StreamEvent::Poll) == finished::<
            Either<I, Timeout>,
        >(),
        timeout_next(pre, duration, event).1 == StreamStep::Done(
            Polled::Ready(Some(Either::<I, Timeout>::Right(Timeout))),
        ) ==> timeout_next(pre, duration, event).0 == at_rest(),
{
}

} // verus!
