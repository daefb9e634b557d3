//! The role markers: one wrapper per messaging pattern, each offering the
//! operations that its pattern allows. A role that only receives has no sink,
//! a role that only sends has no stream.

use crate::combinators::{at_rest, ControlledStream};
use crate::config::SocketKind;
use crate::prelude::{AsSocket, ControlHandler, SinkSocket, StreamSocket};
use crate::sink::{MultipartSink, SinkView};
use crate::socket::Socket;
use crate::stream::{MultipartStream, StreamView};
use vstd::prelude::*;

verus! {

/// A socket together with the socket that controls it.
pub struct ControlledSocket<A, C> {
    socket: Socket<A>,
    control: Socket<C>,
}

impl<A, C> ControlledSocket<A, C> {
    /// Pairs `socket` with the socket that controls it.
    pub fn new(socket: Socket<A>, control: Socket<C>) -> (controlled: Self)
        ensures
            controlled.adapter() == socket@,
            controlled.control() == control@,
    {
        ControlledSocket { socket, control }
    }

    /// The adapter of the controlled socket.
    pub closed spec fn adapter(&self) -> A {
        self.socket@
    }

    /// The adapter of the controlling socket.
    pub closed spec fn control(&self) -> C {
        self.control@
    }

    /// A stream of the controlled socket that the controlling socket can
    /// switch off: `handler` judges what the controlling socket receives.
    pub fn stream<H: ControlHandler>(self, handler: H) -> (stream: ControlledStream<
        H,
        MultipartStream<C>,
        MultipartStream<A>,
    >)
        ensures
            stream@ == at_rest(),
            stream.stream_view()@ == StreamView::Ready(self.adapter()),
            stream.control_view()@ == StreamView::Ready(self.control()),
    {
        ControlledStream::new(self.socket.stream(), self.control.stream(), handler)
    }

    /// A sink on the controlled socket. The controlling socket is let go.
    pub fn sink(self) -> (sink: MultipartSink<A>)
        ensures
            sink@ == SinkView::Ready(self.adapter()),
    {
        self.socket.sink()
    }
}

/// A role marker around a controlled socket.
pub trait AsControlledSocket: Sized {
    /// The adapter behind the controlled socket.
    type Adapter;

    /// The adapter behind the controlling socket.
    type Control;

    /// The adapter of the controlled socket.
    spec fn adapter(&self) -> Self::Adapter;

    /// The adapter of the controlling socket.
    spec fn control(&self) -> Self::Control;

    /// Gives up the role for the two sockets.
    fn socket(self) -> (controlled: ControlledSocket<Self::Adapter, Self::Control>)
        ensures
            controlled.adapter() == self.adapter(),
            controlled.control() == self.control(),
    ;
}

/// A controlled role that can receive.
pub trait ControlledStreamSocket: AsControlledSocket {
    /// Receives multiparts until the controlling socket says stop.
    fn stream<H: ControlHandler>(self, handler: H) -> (stream: ControlledStream<
        H,
        MultipartStream<Self::Control>,
        MultipartStream<Self::Adapter>,
    >)
        ensures
            stream@ == at_rest(),
            stream.stream_view()@ == StreamView::Ready(self.adapter()),
            stream.control_view()@ == StreamView::Ready(self.control()),
    {
        self.socket().stream(handler)
    }
}

/// A controlled role that can send.
pub trait ControlledSinkSocket: AsControlledSocket {
    /// Sends multiparts, one after the other.
    fn sink(self) -> (sink: MultipartSink<Self::Adapter>)
        ensures
            sink@ == SinkView::Ready(self.adapter()),
    {
        self.socket().sink()
    }
}

/// An asynchronous requester: sends and receives in any order.
pub struct Dealer<A> {
    inner: Socket<A>,
}

impl<A> AsSocket for Dealer<A> {
    type Adapter = A;

    closed spec fn adapter(&self) -> A {
        self.inner@
    }

    fn socket(self) -> (socket: Socket<A>) {
        self.inner
    }

    fn from_socket(socket: Socket<A>) -> (role: Self) {
        Dealer { inner: socket }
    }
}

impl<A> Dealer<A> {
    /// The pattern of this role.
    pub fn kind() -> (kind: SocketKind)
        ensures
            kind == SocketKind::Dealer,
    {
        SocketKind::Dealer
    }
}

impl<A> StreamSocket for Dealer<A> {
}

impl<A> SinkSocket for Dealer<A> {
}

/// One end of an exclusive pair: sends and receives.
pub struct Pair<A> {
    inner: Socket<A>,
}

impl<A> AsSocket for Pair<A> {
    type Adapter = A;

    closed spec fn adapter(&self) -> A {
        self.inner@
    }

    fn socket(self) -> (socket: Socket<A>) {
        self.inner
    }

    fn from_socket(socket: Socket<A>) -> (role: Self) {
        Pair { inner: socket }
    }
}

impl<A> Pair<A> {
    /// The pattern of this role.
    pub fn kind() -> (kind: SocketKind)
        ensures
            kind == SocketKind::Pair,
    {
        SocketKind::Pair
    }

    /// Puts the socket under the control of `control`.
    pub fn controlled<S: StreamSocket>(self, control: S) -> (controlled: PairControlled<
        A,
        S::Adapter,
    >)
        ensures
            AsControlledSocket::adapter(&controlled) == AsSocket::adapter(&self),
            AsControlledSocket::control(&controlled) == control.adapter(),
    {
        PairControlled { inner: ControlledSocket::new(self.inner, control.socket()) }
    }
}

impl<A> StreamSocket for Pair<A> {
}

impl<A> SinkSocket for Pair<A> {
}

/// A `Pair` under the control of a second socket.
pub struct PairControlled<A, C> {
    inner: ControlledSocket<A, C>,
}

impl<A, C> AsControlledSocket for PairControlled<A, C> {
    type Adapter = A;

    type Control = C;

    closed spec fn adapter(&self) -> A {
        self.inner.adapter()
    }

    closed spec fn control(&self) -> C {
        self.inner.control()
    }

    fn socket(self) -> (controlled: ControlledSocket<A, C>) {
        self.inner
    }
}

impl<A, C> ControlledStreamSocket for PairControlled<A, C> {
}

impl<A, C> ControlledSinkSocket for PairControlled<A, C> {
}

/// A publisher: only sends.
pub struct Pub<A> {
    inner: Socket<A>,
}

impl<A> AsSocket for Pub<A> {
    type Adapter = A;

    closed spec fn adapter(&self) -> A {
        self.inner@
    }

    fn socket(self) -> (socket: Socket<A>) {
        self.inner
    }

    fn from_socket(socket: Socket<A>) -> (role: Self) {
        Pub { inner: socket }
    }
}

impl<A> Pub<A> {
    /// The pattern of this role.
    pub fn kind() -> (kind: SocketKind)
        ensures
            kind == SocketKind::Pub,
    {
        SocketKind::Pub
    }
}

impl<A> SinkSocket for Pub<A> {
}

/// The receiving end of a pipeline: only receives.
pub struct Pull<A> {
    inner: Socket<A>,
}

impl<A> AsSocket for Pull<A> {
    type Adapter = A;

    closed spec fn adapter(&self) -> A {
        self.inner@
    }

    fn socket(self) -> (socket: Socket<A>) {
        self.inner
    }

    fn from_socket(socket: Socket<A>) -> (role: Self) {
        Pull { inner: socket }
    }
}

impl<A> Pull<A> {
    /// The pattern of this role.
    pub fn kind() -> (kind: SocketKind)
        ensures
            kind == SocketKind::Pull,
    {
        SocketKind::Pull
    }

    /// Puts the socket under the control of `control`.
    pub fn controlled<S: StreamSocket>(self, control: S) -> (controlled: PullControlled<
        A,
        S::Adapter,
    >)
        ensures
            AsControlledSocket::adapter(&controlled) == AsSocket::adapter(&self),
            AsControlledSocket::control(&controlled) == control.adapter(),
    {
        PullControlled { inner: ControlledSocket::new(self.inner, control.socket()) }
    }
}

impl<A> StreamSocket for Pull<A> {
}

/// A `Pull` under the control of a second socket.
pub struct PullControlled<A, C> {
    inner: ControlledSocket<A, C>,
}

impl<A, C> AsControlledSocket for PullControlled<A, C> {
    type Adapter = A;

    type Control = C;

    closed spec fn adapter(&self) -> A {
        self.inner.adapter()
    }

    closed spec fn control(&self) -> C {
        self.inner.control()
    }

    fn socket(self) -> (controlled: ControlledSocket<A, C>) {
        self.inner
    }
}

impl<A, C> ControlledStreamSocket for PullControlled<A, C> {
}

/// The sending end of a pipeline: only sends.
pub struct Push<A> {
    inner: Socket<A>,
}

impl<A> AsSocket for Push<A> {
    type Adapter = A;

    closed spec fn adapter(&self) -> A {
        self.inner@
    }

    fn socket(self) -> (socket: Socket<A>) {
        self.inner
    }

    fn from_socket(socket: Socket<A>) -> (role: Self) {
        Push { inner: socket }
    }
}

impl<A> Push<A> {
    /// The pattern of this role.
    pub fn kind() -> (kind: SocketKind)
        ensures
            kind == SocketKind::Push,
    {
        SocketKind::Push
    }
}

impl<A> SinkSocket for Push<A> {
}

/// A replier: receives a request, then sends the reply.
pub struct Rep<A> {
    inner: Socket<A>,
}

impl<A> AsSocket for Rep<A> {
    type Adapter = A;

    closed spec fn adapter(&self) -> A {
        self.inner@
    }

    fn socket(self) -> (socket: Socket<A>) {
        self.inner
    }

    fn from_socket(socket: Socket<A>) -> (role: Self) {
        Rep { inner: socket }
    }
}

impl<A> Rep<A> {
    /// The pattern of this role.
    pub fn kind() -> (kind: SocketKind)
        ensures
            kind == SocketKind::Rep,
    {
        SocketKind::Rep
    }

    /// Puts the socket under the control of `control`.
    pub fn controlled<S: StreamSocket>(self, control: S) -> (controlled: RepControlled<
        A,
        S::Adapter,
    >)
        ensures
            AsControlledSocket::adapter(&controlled) == AsSocket::adapter(&self),
            AsControlledSocket::control(&controlled) == control.adapter(),
    {
        RepControlled { inner: ControlledSocket::new(self.inner, control.socket()) }
    }
}

impl<A> StreamSocket for Rep<A> {
}

impl<A> SinkSocket for Rep<A> {
}

/// A `Rep` under the control of a second socket.
pub struct RepControlled<A, C> {
    inner: ControlledSocket<A, C>,
}

impl<A, C> AsControlledSocket for RepControlled<A, C> {
    type Adapter = A;

    type Control = C;

    closed spec fn adapter(&self) -> A {
        self.inner.adapter()
    }

    closed spec fn control(&self) -> C {
        self.inner.control()
    }

    fn socket(self) -> (controlled: ControlledSocket<A, C>) {
        self.inner
    }
}

impl<A, C> ControlledStreamSocket for RepControlled<A, C> {
}

impl<A, C> ControlledSinkSocket for RepControlled<A, C> {
}

/// A requester: sends a request, then receives the reply.
pub struct Req<A> {
    inner: Socket<A>,
}

impl<A> AsSocket for Req<A> {
    type Adapter = A;

    closed spec fn adapter(&self) -> A {
        self.inner@
    }

    fn socket(self) -> (socket: Socket<A>) {
        self.inner
    }

    fn from_socket(socket: Socket<A>) -> (role: Self) {
        Req { inner: socket }
    }
}

impl<A> Req<A> {
    /// The pattern of this role.
    pub fn kind() -> (kind: SocketKind)
        ensures
            kind == SocketKind::Req,
    {
        SocketKind::Req
    }
}

impl<A> StreamSocket for Req<A> {
}

impl<A> SinkSocket for Req<A> {
}

/// An asynchronous replier: sends and receives in any order.
pub struct Router<A> {
    inner: Socket<A>,
}

impl<A> AsSocket for Router<A> {
    type Adapter = A;

    closed spec fn adapter(&self) -> A {
        self.inner@
    }

    fn socket(self) -> (socket: Socket<A>) {
        self.inner
    }

    fn from_socket(socket: Socket<A>) -> (role: Self) {
        Router { inner: socket }
    }
}

impl<A> Router<A> {
    /// The pattern of this role.
    pub fn kind() -> (kind: SocketKind)
        ensures
            kind == SocketKind::Router,
    {
        SocketKind::Router
    }

    /// Puts the socket under the control of `control`.
    pub fn controlled<S: StreamSocket>(self, control: S) -> (controlled: RouterControlled<
        A,
        S::Adapter,
    >)
        ensures
            AsControlledSocket::adapter(&controlled) == AsSocket::adapter(&self),
            AsControlledSocket::control(&controlled) == control.adapter(),
    {
        RouterControlled { inner: ControlledSocket::new(self.inner, control.socket()) }
    }
}

impl<A> StreamSocket for Router<A> {
}

impl<A> SinkSocket for Router<A> {
}

/// A `Router` under the control of a second socket.
pub struct RouterControlled<A, C> {
    inner: ControlledSocket<A, C>,
}

impl<A, C> AsControlledSocket for RouterControlled<A, C> {
    type Adapter = A;

    type Control = C;

    closed spec fn adapter(&self) -> A {
        self.inner.adapter()
    }

    closed spec fn control(&self) -> C {
        self.inner.control()
    }

    fn socket(self) -> (controlled: ControlledSocket<A, C>) {
        self.inner
    }
}

impl<A, C> ControlledStreamSocket for RouterControlled<A, C> {
}

impl<A, C> ControlledSinkSocket for RouterControlled<A, C> {
}

/// A subscriber: only receives.
pub struct Sub<A> {
    inner: Socket<A>,
}

impl<A> AsSocket for Sub<A> {
    type Adapter = A;

    closed spec fn adapter(&self) -> A {
        self.inner@
    }

    fn socket(self) -> (socket: Socket<A>) {
        self.inner
    }

    fn from_socket(socket: Socket<A>) -> (role: Self) {
        Sub { inner: socket }
    }
}

impl<A> Sub<A> {
    /// The pattern of this role.
    pub fn kind() -> (kind: SocketKind)
        ensures
            kind == SocketKind::Sub,
    {
        SocketKind::Sub
    }

    /// Puts the socket under the control of `control`.
    pub fn controlled<S: StreamSocket>(self, control: S) -> (controlled: SubControlled<
        A,
        S::Adapter,
    >)
        ensures
            AsControlledSocket::adapter(&controlled) == AsSocket::adapter(&self),
            AsControlledSocket::control(&controlled) == control.adapter(),
    {
        SubControlled { inner: ControlledSocket::new(self.inner, control.socket()) }
    }
}

impl<A> StreamSocket for Sub<A> {
}

/// A `Sub` under the control of a second socket.
pub struct SubControlled<A, C> {
    inner: ControlledSocket<A, C>,
}

impl<A, C> AsControlledSocket for SubControlled<A, C> {
    type Adapter = A;

    type Control = C;

    closed spec fn adapter(&self) -> A {
        self.inner.adapter()
    }

    closed spec fn control(&self) -> C {
        self.inner.control()
    }

    fn socket(self) -> (controlled: ControlledSocket<A, C>) {
        self.inner
    }
}

impl<A, C> ControlledStreamSocket for SubControlled<A, C> {
}

/// A publisher that also receives subscriptions.
pub struct Xpub<A> {
    inner: Socket<A>,
}

impl<A> AsSocket for Xpub<A> {
    type Adapter = A;

    closed spec fn adapter(&self) -> A {
        self.inner@
    }

    fn socket(self) -> (socket: Socket<A>) {
        self.inner
    }

    fn from_socket(socket: Socket<A>) -> (role: Self) {
        Xpub { inner: socket }
    }
}

impl<A> Xpub<A> {
    /// The pattern of this role.
    pub fn kind() -> (kind: SocketKind)
        ensures
            kind == SocketKind::Xpub,
    {
        SocketKind::Xpub
    }

    /// Puts the socket under the control of `control`.
    pub fn controlled<S: StreamSocket>(self, control: S) -> (controlled: XpubControlled<
        A,
        S::Adapter,
    >)
        ensures
            AsControlledSocket::adapter(&controlled) == AsSocket::adapter(&self),
            AsControlledSocket::control(&controlled) == control.adapter(),
    {
        XpubControlled { inner: ControlledSocket::new(self.inner, control.socket()) }
    }
}

impl<A> StreamSocket for Xpub<A> {
}

impl<A> SinkSocket for Xpub<A> {
}

/// A `Xpub` under the control of a second socket.
pub struct XpubControlled<A, C> {
    inner: ControlledSocket<A, C>,
}

impl<A, C> AsControlledSocket for XpubControlled<A, C> {
    type Adapter = A;

    type Control = C;

    closed spec fn adapter(&self) -> A {
        self.inner.adapter()
    }

    closed spec fn control(&self) -> C {
        self.inner.control()
    }

    fn socket(self) -> (controlled: ControlledSocket<A, C>) {
        self.inner
    }
}

impl<A, C> ControlledStreamSocket for XpubControlled<A, C> {
}

impl<A, C> ControlledSinkSocket for XpubControlled<A, C> {
}

/// A subscriber that also sends subscriptions.
pub struct Xsub<A> {
    inner: Socket<A>,
}

impl<A> AsSocket for Xsub<A> {
    type Adapter = A;

    closed spec fn adapter(&self) -> A {
        self.inner@
    }

    fn socket(self) -> (socket: Socket<A>) {
        self.inner
    }

    fn from_socket(socket: Socket<A>) -> (role: Self) {
        Xsub { inner: socket }
    }
}

impl<A> Xsub<A> {
    /// The pattern of this role.
    pub fn kind() -> (kind: SocketKind)
        ensures
            kind == SocketKind::Xsub,
    {
        SocketKind::Xsub
    }

    /// Puts the socket under the control of `control`.
    pub fn control<S: StreamSocket>(self, control: S) -> (controlled: XsubControlled<
        A,
        S::Adapter,
    >)
        ensures
            AsControlledSocket::adapter(&controlled) == AsSocket::adapter(&self),
            AsControlledSocket::control(&controlled) == control.adapter(),
    {
        XsubControlled { inner: ControlledSocket::new(self.inner, control.socket()) }
    }
}

impl<A> StreamSocket for Xsub<A> {
}

impl<A> SinkSocket for Xsub<A> {
}

/// A `Xsub` under the control of a second socket.
pub struct XsubControlled<A, C> {
    inner: ControlledSocket<A, C>,
}

impl<A, C> AsControlledSocket for XsubControlled<A, C> {
    type Adapter = A;

    type Control = C;

    closed spec fn adapter(&self) -> A {
        self.inner.adapter()
    }

    closed spec fn control(&self) -> C {
        self.inner.control()
    }

    fn socket(self) -> (controlled: ControlledSocket<A, C>) {
        self.inner
    }
}

impl<A, C> ControlledStreamSocket for XsubControlled<A, C> {
}

impl<A, C> ControlledSinkSocket for XsubControlled<A, C> {
}

} // verus!
