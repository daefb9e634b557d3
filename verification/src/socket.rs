//! The socket handle: an adapter that no operation is using yet.

use crate::config::SocketBuilder;
use crate::future::{MultipartRequest, MultipartResponse};
use crate::message::Multipart;
use crate::sink::{request_begun, MultipartSink, SinkView};
use crate::sink_stream::{MultipartSinkStream, SinkStreamView};
use crate::stream::{response_begun, MultipartStream, StreamView};
use std::sync::Arc;
use vstd::prelude::*;

verus! {

/// A configured socket, free for one operation to take.
pub struct Socket<A> {
    inner: A,
}

impl<A> View for Socket<A> {
    type V = A;

    closed spec fn view(&self) -> A {
        self.inner
    }
}

impl<A> Socket<A> {
    /// The handle on a socket behind `adapter`: the socket itself together
    /// with its registration with the scheduler.
    pub fn from_sock_and_file(adapter: A) -> (socket: Self)
        ensures
            socket@ == adapter,
    {
        Socket { inner: adapter }
    }

    /// Begins the description of a socket to be made from `ctx`.
    pub fn builder(ctx: Arc<zmq::Context>) -> (builder: SocketBuilder<'static>)
        ensures
            builder.ctx_view() == ctx,
            builder.identity_view() is None,
    {
        SocketBuilder::new(ctx)
    }

    /// Gives up the handle for the adapter.
    pub fn inner(self) -> (adapter: A)
        ensures
            adapter == self@,
    {
        self.inner
    }

    /// A sink on this socket.
    pub fn sink(self) -> (sink: MultipartSink<A>)
        ensures
            sink@ == SinkView::Ready(self@),
    {
        MultipartSink::new(self.inner)
    }

    /// A stream on this socket.
    pub fn stream(self) -> (stream: MultipartStream<A>)
        ensures
            stream@ == StreamView::Ready(self@),
            stream@.well_formed(),
    {
        MultipartStream::new(self.inner)
    }

    /// A sink and a stream on this socket.
    pub fn sink_stream(self) -> (sink_stream: MultipartSinkStream<A>)
        ensures
            sink_stream@ == SinkStreamView::Ready(self@),
            sink_stream@.well_formed(),
    {
        MultipartSinkStream::new(self.inner)
    }

    /// A send of `multipart` on this socket.
    pub fn send(self, multipart: Multipart) -> (request: MultipartRequest<A>)
        ensures
            request@ == request_begun(self@, multipart@),
    {
        MultipartRequest::new(self.inner, multipart)
    }

    /// A receive on this socket.
    pub fn recv(self) -> (response: MultipartResponse<A>)
        ensures
            response@ == response_begun(self@),
            response@.well_formed(),
    {
        MultipartResponse::new(self.inner)
    }
}

} // verus!
