//! Describing a socket before it exists: its role, its addresses, its
//! identity and its subscription. A description is built up step by step and
//! ends in a `Setup`, the ordered list of operations that bring the socket
//! about. Carrying them out is the owner's part.

use std::sync::Arc;
use vstd::prelude::*;

verus! {

/// The message queue's context, from which sockets are made. The library
/// only carries it from the builder to the setup.
#[verifier::external_type_specification]
#[verifier::external_body]
pub struct ExContext(zmq::Context);

/// The messaging pattern that a socket takes part in.
#[derive(Clone, Copy, Debug, PartialEq, Eq, Structural)]
pub enum SocketKind {
    Pair,
    Pub,
    Sub,
    Req,
    Rep,
    Dealer,
    Router,
    Pull,
    Push,
    Xpub,
    Xsub,
}

/// One operation on a socket that is being set up.
#[derive(Clone, Copy, Debug)]
pub enum SetupStep<'a> {
    /// Set the socket's identity.
    Identity(&'a [u8]),
    /// Bind the socket to an address.
    Bind(&'a str),
    /// Connect the socket to an address.
    Connect(&'a str),
    /// Subscribe to the messages that begin with a prefix.
    Subscribe(&'a [u8]),
}

/// Everything needed to bring a socket about: make a socket of `kind` from
/// `ctx`, carry out `steps` in order, stopping at the first that fails, and
/// register the socket's notification descriptor with the scheduler.
pub struct Setup<'a> {
    pub ctx: Arc<zmq::Context>,
    pub kind: SocketKind,
    pub steps: Vec<SetupStep<'a>>,
}

/// The step that sets an identity, if there is one to set.
pub open spec fn identity_steps<'a>(identity: Option<&'a [u8]>) -> Seq<SetupStep<'a>> {
    match identity {
        Some(identity) => seq![SetupStep::Identity(identity)],
        None => Seq::empty(),
    }
}

/// One bind per address, in order.
pub open spec fn bind_steps<'a>(addrs: Seq<&'a str>) -> Seq<SetupStep<'a>> {
    Seq::new(addrs.len(), |i: int| SetupStep::Bind(addrs[i]))
}

/// One connect per address, in order.
pub open spec fn connect_steps<'a>(addrs: Seq<&'a str>) -> Seq<SetupStep<'a>> {
    Seq::new(addrs.len(), |i: int| SetupStep::Connect(addrs[i]))
}

/// The order of a setup: identity first, then every bind, then every
/// connect.
pub open spec fn setup_steps<'a>(
    identity: Option<&'a [u8]>,
    bind: Seq<&'a str>,
    connect: Seq<&'a str>,
) -> Seq<SetupStep<'a>> {
    identity_steps(identity) + bind_steps(bind) + connect_steps(connect)
}

fn bind_all<'a>(steps: &mut Vec<SetupStep<'a>>, binds: &Vec<&'a str>)
    ensures
        final(steps)@ == old(steps)@ + bind_steps(binds@),
{
    let mut i: usize = 0;
    while i < binds.len()
        invariant
            i <= binds.len(),
            steps@ == old(steps)@ + bind_steps(binds@.take(i as int)),
        decreases binds.len() - i,
    {
        steps.push(SetupStep::Bind(binds[i]));
        i = i + 1;
        assert(steps@ =~= old(steps)@ + bind_steps(binds@.take(i as int)));
    }
    assert(binds@.take(i as int) =~= binds@);
}

fn connect_all<'a>(steps: &mut Vec<SetupStep<'a>>, connects: &Vec<&'a str>)
    ensures
        final(steps)@ == old(steps)@ + connect_steps(connects@),
{
    let mut i: usize = 0;
    while i < connects.len()
        invariant
            i <= connects.len(),
            steps@ == old(steps)@ + connect_steps(connects@.take(i as int)),
        decreases connects.len() - i,
    {
        steps.push(SetupStep::Connect(connects[i]));
        i = i + 1;
        assert(steps@ =~= old(steps)@ + connect_steps(connects@.take(i as int)));
    }
    assert(connects@.take(i as int) =~= connects@);
}

fn begin_steps<'a>(identity: Option<&'a [u8]>) -> (steps: Vec<SetupStep<'a>>)
    ensures
        steps@ == identity_steps(identity),
{
    let mut steps = Vec::new();
    if let Some(identity) = identity {
        steps.push(SetupStep::Identity(identity));
    }
    assert(steps@ =~= identity_steps(identity));
    steps
}

/// The start of a description: a context and, at will, an identity.
pub struct SocketBuilder<'a> {
    ctx: Arc<zmq::Context>,
    identity: Option<&'a [u8]>,
}

impl<'a> SocketBuilder<'a> {
    /// A description of a socket to be made from `ctx`.
    pub fn new(ctx: Arc<zmq::Context>) -> (builder: Self)
        ensures
            builder.ctx_view() == ctx,
            builder.identity_view() is None,
    {
        SocketBuilder { ctx, identity: None }
    }

    pub closed spec fn ctx_view(&self) -> Arc<zmq::Context> {
        self.ctx
    }

    pub closed spec fn identity_view(&self) -> Option<&'a [u8]> {
        self.identity
    }

    /// Gives the socket an identity.
    pub fn identity(self, identity: &'a [u8]) -> (builder: Self)
        ensures
            builder.ctx_view() == self.ctx_view(),
            builder.identity_view() == Some(identity),
    {
        SocketBuilder { ctx: self.ctx, identity: Some(identity) }
    }

    /// Binds the socket to `addr`.
    pub fn bind(self, addr: &'a str) -> (config: SockConfig<'a>)
        ensures
            config.ctx == self.ctx_view(),
            config.bind@ == seq![addr],
            config.connect@ == Seq::<&'a str>::empty(),
            config.identity == self.identity_view(),
    {
        let mut bind = Vec::new();
        bind.push(addr);
        SockConfig { ctx: self.ctx, bind, connect: Vec::new(), identity: self.identity }
    }

    /// Connects the socket to `addr`.
    pub fn connect(self, addr: &'a str) -> (config: SockConfig<'a>)
        ensures
            config.ctx == self.ctx_view(),
            config.bind@ == Seq::<&'a str>::empty(),
            config.connect@ == seq![addr],
            config.identity == self.identity_view(),
    {
        let mut connect = Vec::new();
        connect.push(addr);
        SockConfig { ctx: self.ctx, bind: Vec::new(), connect, identity: self.identity }
    }

    /// Describes one end of a pair: it binds to `addr` if `bind` is set, and
    /// connects to it otherwise.
    pub fn pair(self, addr: &'a str, bind: bool) -> (config: PairConfig<'a>)
        ensures
            config.ctx_view() == self.ctx_view(),
            config.addr_view() == addr,
            config.bind_view() == bind,
            config.identity_view() == self.identity_view(),
    {
        PairConfig { ctx: self.ctx, addr, bind, identity: self.identity }
    }
}

/// A description with at least one address.
pub struct SockConfig<'a> {
    pub ctx: Arc<zmq::Context>,
    pub bind: Vec<&'a str>,
    pub connect: Vec<&'a str>,
    pub identity: Option<&'a [u8]>,
}

impl<'a> SockConfig<'a> {
    /// Binds the socket to one more address.
    pub fn bind(self, addr: &'a str) -> (config: Self)
        ensures
            config.ctx == self.ctx,
            config.bind@ == self.bind@.push(addr),
            config.connect@ == self.connect@,
            config.identity == self.identity,
    {
        let mut config = self;
        config.bind.push(addr);
        config
    }

    /// Connects the socket to one more address.
    pub fn connect(self, addr: &'a str) -> (config: Self)
        ensures
            config.ctx == self.ctx,
            config.bind@ == self.bind@,
            config.connect@ == self.connect@.push(addr),
            config.identity == self.identity,
    {
        let mut config = self;
        config.connect.push(addr);
        config
    }

    /// The setup of a socket of `kind`: identity, binds, connects.
    pub fn build(self, kind: SocketKind) -> (setup: Setup<'a>)
        ensures
            setup.ctx == self.ctx,
            setup.kind == kind,
            setup.steps@ == setup_steps(self.identity, self.bind@, self.connect@),
    {
        let mut steps = begin_steps(self.identity);
        bind_all(&mut steps, &self.bind);
        connect_all(&mut steps, &self.connect);
        Setup { ctx: self.ctx, kind, steps }
    }

    /// Subscribes the socket to the messages that begin with `pattern`.
    pub fn filter(self, pattern: &'a [u8]) -> (config: SubConfig<'a>)
        ensures
            config.ctx == self.ctx,
            config.bind == self.bind,
            config.connect == self.connect,
            config.identity == self.identity,
            config.filter == pattern,
    {
        SubConfig {
            ctx: self.ctx,
            bind: self.bind,
            connect: self.connect,
            identity: self.identity,
            filter: pattern,
        }
    }
}

/// A description of a subscriber.
pub struct SubConfig<'a> {
    pub ctx: Arc<zmq::Context>,
    pub bind: Vec<&'a str>,
    pub connect: Vec<&'a str>,
    pub filter: &'a [u8],
    pub identity: Option<&'a [u8]>,
}

impl<'a> SubConfig<'a> {
    /// The setup of a subscriber, whatever kind is asked for: identity,
    /// binds, connects, and the subscription last.
    pub fn build(self, _kind: SocketKind) -> (setup: Setup<'a>)
        ensures
            setup.ctx == self.ctx,
            setup.kind == SocketKind::Sub,
            setup.steps@ == setup_steps(self.identity, self.bind@, self.connect@).push(
                SetupStep::Subscribe(self.filter),
            ),
    {
        let mut steps = begin_steps(self.identity);
        bind_all(&mut steps, &self.bind);
        connect_all(&mut steps, &self.connect);
        steps.push(SetupStep::Subscribe(self.filter));
        Setup { ctx: self.ctx, kind: SocketKind::Sub, steps }
    }
}

/// A description of one end of a pair.
pub struct PairConfig<'a> {
    ctx: Arc<zmq::Context>,
    addr: &'a str,
    bind: bool,
    identity: Option<&'a [u8]>,
}

impl<'a> PairConfig<'a> {
    pub closed spec fn ctx_view(&self) -> Arc<zmq::Context> {
        self.ctx
    }

    pub closed spec fn addr_view(&self) -> &'a str {
        self.addr
    }

    pub closed spec fn bind_view(&self) -> bool {
        self.bind
    }

    pub closed spec fn identity_view(&self) -> Option<&'a [u8]> {
        self.identity
    }

    /// The setup of one end of a pair, whatever kind is asked for: identity,
    /// then the one bind or the one connect.
    pub fn build(self, _kind: SocketKind) -> (setup: Setup<'a>)
        ensures
            setup.ctx == self.ctx_view(),
            setup.kind == SocketKind::Pair,
            setup.steps@ == identity_steps(self.identity_view()).push(
                if self.bind_view() {
                    SetupStep::Bind(self.addr_view())
                } else {
                    SetupStep::Connect(self.addr_view())
                },
            ),
    {
        let mut steps = begin_steps(self.identity);
        if self.bind {
            steps.push(SetupStep::Bind(self.addr));
        } else {
            steps.push(SetupStep::Connect(self.addr));
        }
        Setup { ctx: self.ctx, kind: SocketKind::Pair, steps }
    }
}

} // verus!
