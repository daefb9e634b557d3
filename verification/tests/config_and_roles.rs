use std::collections::VecDeque;
use std::sync::Arc;
use tokio_zmq::config::{SetupStep, SocketBuilder, SocketKind};
use tokio_zmq::prelude::{AsSocket, SinkSocket, SinkStreamSocket, StreamSocket};
use tokio_zmq::roles::{AsControlledSocket, ControlledSinkSocket, ControlledSocket};
use tokio_zmq::service::{Envelope, Singleton};
use tokio_zmq::{
    Dealer, Frame, Multipart, Pair, Pub, Pull, Push, Rep, Req, Router, Socket, Sub, Xpub, Xsub,
};

fn frame(text: &str) -> Frame {
    Frame::new(text.as_bytes().to_vec())
}

fn steps_of(steps: &[SetupStep<'_>]) -> Vec<String> {
    steps
        .iter()
        .map(|step| match step {
            SetupStep::Identity(identity) => format!("identity {:?}", identity),
            SetupStep::Bind(addr) => format!("bind {}", addr),
            SetupStep::Connect(addr) => format!("connect {}", addr),
            SetupStep::Subscribe(pattern) => format!("subscribe {:?}", pattern),
        })
        .collect()
}

#[test]
fn setup_orders_identity_binds_connects() {
    let ctx = Arc::new(zmq::Context::new());
    let setup = SocketBuilder::new(Arc::clone(&ctx))
        .identity(b"me")
        .connect("tcp://localhost:5561")
        .bind("tcp://*:5560")
        .connect("tcp://localhost:5562")
        .bind("tcp://*:5563")
        .build(SocketKind::Dealer);
    assert_eq!(setup.kind, SocketKind::Dealer);
    assert!(Arc::ptr_eq(&setup.ctx, &ctx));
    assert_eq!(
        steps_of(&setup.steps),
        vec![
            "identity [109, 101]",
            "bind tcp://*:5560",
            "bind tcp://*:5563",
            "connect tcp://localhost:5561",
            "connect tcp://localhost:5562",
        ]
    );
}

#[test]
fn setup_without_identity_has_no_identity_step() {
    let ctx = Arc::new(zmq::Context::new());
    let setup = Socket::<()>::builder(ctx).bind("inproc://a").build(SocketKind::Rep);
    assert_eq!(setup.kind, SocketKind::Rep);
    assert_eq!(steps_of(&setup.steps), vec!["bind inproc://a"]);
}

#[test]
fn subscriber_setup_subscribes_last_and_is_always_sub() {
    let ctx = Arc::new(zmq::Context::new());
    let setup = SocketBuilder::new(ctx)
        .connect("tcp://localhost:5568")
        .filter(b"topic")
        .build(SocketKind::Push);
    assert_eq!(setup.kind, SocketKind::Sub);
    assert_eq!(
        steps_of(&setup.steps),
        vec!["connect tcp://localhost:5568", "subscribe [116, 111, 112, 105, 99]"]
    );
}

#[test]
fn pair_setup_binds_or_connects_once() {
    let ctx = Arc::new(zmq::Context::new());
    let bound = SocketBuilder::new(Arc::clone(&ctx))
        .identity(b"x")
        .pair("inproc://pair", true)
        .build(SocketKind::Rep);
    assert_eq!(bound.kind, SocketKind::Pair);
    assert_eq!(steps_of(&bound.steps), vec!["identity [120]", "bind inproc://pair"]);
    let connected = SocketBuilder::new(ctx).pair("inproc://pair", false).build(SocketKind::Pair);
    assert_eq!(steps_of(&connected.steps), vec!["connect inproc://pair"]);
}

#[test]
fn config_fields_are_filled_step_by_step() {
    let ctx = Arc::new(zmq::Context::new());
    let config = SocketBuilder::new(ctx).identity(b"id").bind("a").connect("b").bind("c");
    assert_eq!(config.bind, vec!["a", "c"]);
    assert_eq!(config.connect, vec!["b"]);
    assert_eq!(config.identity, Some(&b"id"[..]));
    let sub = config.filter(b"f");
    assert_eq!(sub.bind, vec!["a", "c"]);
    assert_eq!(sub.connect, vec!["b"]);
    assert_eq!(sub.filter, b"f");
    assert_eq!(sub.identity, Some(&b"id"[..]));
}

#[test]
fn roles_know_their_kind() {
    assert_eq!(Dealer::<()>::kind(), SocketKind::Dealer);
    assert_eq!(Pair::<()>::kind(), SocketKind::Pair);
    assert_eq!(Pub::<()>::kind(), SocketKind::Pub);
    assert_eq!(Pull::<()>::kind(), SocketKind::Pull);
    assert_eq!(Push::<()>::kind(), SocketKind::Push);
    assert_eq!(Rep::<()>::kind(), SocketKind::Rep);
    assert_eq!(Req::<()>::kind(), SocketKind::Req);
    assert_eq!(Router::<()>::kind(), SocketKind::Router);
    assert_eq!(Sub::<()>::kind(), SocketKind::Sub);
    assert_eq!(Xpub::<()>::kind(), SocketKind::Xpub);
    assert_eq!(Xsub::<()>::kind(), SocketKind::Xsub);
}

#[test]
fn roles_hand_their_adapter_to_the_operation() {
    let socket = Socket::from_sock_and_file(11u8);
    assert_eq!(socket.inner(), 11);
    let rep = Rep::from_socket(Socket::from_sock_and_file(12u8));
    assert_eq!(rep.socket().inner(), 12);
    let sink = Push::from_socket(Socket::from_sock_and_file(13u8)).sink();
    assert_eq!(sink.socket(), Some(&13));
    let stream = Pull::from_socket(Socket::from_sock_and_file(14u8)).stream();
    assert_eq!(stream.socket(), Some(&14));
    let both = Dealer::from_socket(Socket::from_sock_and_file(15u8)).sink_stream();
    assert_eq!(both.socket(), Some(&15));
    let mut hello = Multipart::new();
    hello.push_back(frame("hello"));
    let request = Req::from_socket(Socket::from_sock_and_file(16u8)).send(hello);
    assert_eq!(request.socket(), Some(&16));
    assert_eq!(request.front(), Some(&frame("hello")));
    let response = Router::from_socket(Socket::from_sock_and_file(17u8)).recv();
    assert_eq!(response.socket(), Some(&17));
}

#[test]
fn controlled_roles_keep_the_controlled_socket_for_sending() {
    let control = Sub::from_socket(Socket::from_sock_and_file(1u8));
    let pair = Pair::from_socket(Socket::from_sock_and_file(2u8)).controlled(control);
    assert_eq!(pair.sink().socket(), Some(&2));
    let control = Pull::from_socket(Socket::from_sock_and_file(3u8));
    let xsub = Xsub::from_socket(Socket::from_sock_and_file(4u8)).control(control);
    let both: ControlledSocket<u8, u8> = xsub.socket();
    assert_eq!(both.sink().socket(), Some(&4));
    let control = Sub::from_socket(Socket::from_sock_and_file(5u8));
    let xpub = Xpub::from_socket(Socket::from_sock_and_file(6u8)).controlled(control);
    assert_eq!(xpub.sink().socket(), Some(&6));
    let control = Sub::from_socket(Socket::from_sock_and_file(7u8));
    let router = Router::from_socket(Socket::from_sock_and_file(8u8)).controlled(control);
    assert_eq!(router.sink().socket(), Some(&8));
    let control = Sub::from_socket(Socket::from_sock_and_file(9u8));
    let rep = Rep::from_socket(Socket::from_sock_and_file(10u8)).controlled(control);
    assert_eq!(rep.sink().socket(), Some(&10));
}

#[test]
fn envelope_yields_key_then_address_then_contents() {
    let mut contents = VecDeque::new();
    contents.push_back(frame("c1"));
    contents.push_back(frame("c2"));
    let mut envelope = Envelope::new_with_addr_and_contents(frame("key"), frame("addr"), contents);
    envelope.push_back(frame("c3"));
    envelope.start_send(frame("c4"));
    envelope.poll_complete();
    for text in ["key", "addr", "c1", "c2", "c3", "c4"] {
        assert_eq!(envelope.poll(), Some(frame(text)));
    }
    assert_eq!(envelope.poll(), None);
    assert_eq!(envelope.poll(), None);
}

#[test]
fn envelope_without_address_or_contents() {
    let mut envelope = Envelope::new(frame("key"));
    assert_eq!(envelope.poll(), Some(frame("key")));
    assert_eq!(envelope.poll(), None);
    let mut envelope = Envelope::new_with_addr(frame("key"), frame("addr"));
    assert_eq!(envelope.poll(), Some(frame("key")));
    assert_eq!(envelope.poll(), Some(frame("addr")));
    assert_eq!(envelope.poll(), None);
    let mut contents = VecDeque::new();
    contents.push_back(frame("only"));
    let mut envelope = Envelope::new_with_contents(frame("key"), contents);
    assert_eq!(envelope.poll(), Some(frame("key")));
    assert_eq!(envelope.poll(), Some(frame("only")));
    assert_eq!(envelope.poll(), None);
}

#[test]
fn singleton_yields_its_frame_once() {
    let mut singleton = Singleton::from(frame("one"));
    assert_eq!(singleton.poll(), Some(frame("one")));
    assert_eq!(singleton.poll(), None);
    let mut singleton = Singleton::new(frame("two"));
    assert_eq!(singleton.poll(), Some(frame("two")));
    assert_eq!(singleton.poll(), None);
}
