//! The traits that users of the library implement.

use crate::combinators::{
    at_rest, ControlledStream, EndingStream, TimeoutStream,
};
use crate::future::{MultipartRequest, MultipartResponse};
use crate::message::Multipart;
use crate::sink::{request_begun, MultipartSink, SinkView};
use crate::sink_stream::{MultipartSinkStream, SinkStreamView};
use crate::socket::Socket;
use crate::stream::{response_begun, MultipartStream, StreamView};
use std::time::Duration;
use vstd::prelude::*;

verus! {

/// Decides from a multipart of the control stream whether the controlled
/// stream stops.
pub trait ControlHandler {
    fn should_stop(&mut self, multipart: Multipart) -> bool;
}

/// Decides from a multipart of the stream itself whether the stream stops
/// with it.
pub trait EndHandler {
    fn should_stop(&mut self, multipart: &Multipart) -> bool;
}

/// A role marker around a socket.
pub trait AsSocket: Sized {
    /// The adapter behind the socket.
    type Adapter;

    /// The adapter that the role wraps.
    spec fn adapter(&self) -> Self::Adapter;

    /// Gives up the role for the socket.
    fn socket(self) -> (socket: Socket<Self::Adapter>)
        ensures
            socket@ == self.adapter(),
    ;

    /// Puts the role on a socket.
    fn from_socket(socket: Socket<Self::Adapter>) -> (role: Self)
        ensures
            role.adapter() == socket@,
    ;
}

/// A role that can receive.
pub trait StreamSocket: AsSocket {
    /// Receives one multipart.
    fn recv(self) -> (response: MultipartResponse<Self::Adapter>)
        ensures
            response@ == response_begun(self.adapter()),
            response@.well_formed(),
    {
        self.socket().recv()
    }

    /// Receives multiparts, one after the other.
    fn stream(self) -> (stream: MultipartStream<Self::Adapter>)
        ensures
            stream@ == StreamView::Ready(self.adapter()),
            stream@.well_formed(),
    {
        self.socket().stream()
    }
}

/// A role that can send.
pub trait SinkSocket: AsSocket {
    /// Sends one multipart.
    fn send(self, multipart: Multipart) -> (request: MultipartRequest<Self::Adapter>)
        ensures
            request@ == request_begun(self.adapter(), multipart@),
    {
        self.socket().send(multipart)
    }

    /// Sends multiparts, one after the other.
    fn sink(self) -> (sink: MultipartSink<Self::Adapter>)
        ensures
            sink@ == SinkView::Ready(self.adapter()),
    {
        self.socket().sink()
    }
}

/// A role that can send and receive over the one socket.
pub trait SinkStreamSocket: AsSocket {
    fn sink_stream(self) -> (sink_stream: MultipartSinkStream<Self::Adapter>)
        ensures
            sink_stream@ == SinkStreamView::Ready(self.adapter()),
            sink_stream@.well_formed(),
    ;
}

impl<T: StreamSocket + SinkSocket> SinkStreamSocket for T {
    fn sink_stream(self) -> (sink_stream: MultipartSinkStream<Self::Adapter>) {
        self.socket().sink_stream()
    }
}

/// Ends a stream on a sentinel multipart.
pub trait WithEndHandler: Sized {
    fn with_end_handler<E: EndHandler>(self, end_handler: E) -> (ending: EndingStream<E, Self>)
        ensures
            ending@ == at_rest(),
            ending.stream_view() == self,
    ;
}

impl<T> WithEndHandler for T {
    fn with_end_handler<E: EndHandler>(self, end_handler: E) -> (ending: EndingStream<E, Self>) {
        EndingStream::new(self, end_handler)
    }
}

/// Lets a second stream switch a stream off.
pub trait Controllable: Sized {
    fn controlled<H: ControlHandler, S>(self, control_stream: S, handler: H) -> (controlled:
        ControlledStream<H, S, Self>)
        ensures
            controlled@ == at_rest(),
            controlled.stream_view() == self,
            controlled.control_view() == control_stream,
    ;
}

impl<T> Controllable for T {
    fn controlled<H: ControlHandler, S>(self, control_stream: S, handler: H) -> (controlled:
        ControlledStream<H, S, Self>) {
        ControlledStream::new(self, control_stream, handler)
    }
}

/// Lets a stream report the passing of time.
pub trait WithTimeout: Sized {
    fn timeout(self, duration: Duration) -> (timeout: TimeoutStream<Self>)
        ensures
            timeout@ == at_rest(),
            timeout.stream_view() == self,
            timeout.duration_view() == duration,
    ;
}

impl<T> WithTimeout for T {
    fn timeout(self, duration: Duration) -> (timeout: TimeoutStream<Self>) {
        TimeoutStream::new(self, duration)
    }
}

} // verus!
