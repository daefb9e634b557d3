//! The state machines on real sockets over the in-process transport. The
//! tests make the calls the machines ask for; there is no scheduler, so the
//! scheduler's answer is always "pending" and the event mask decides.

use std::time::{Duration, Instant};
use tokio_zmq::adapter::{Call, Event, Readiness, Step};
use tokio_zmq::combinators::{ControlledStream, EndingStream, Polled, StreamEvent, StreamStep};
use tokio_zmq::error::Error;
use tokio_zmq::future::{MultipartRequest, MultipartResponse};
use tokio_zmq::prelude::{AsSocket, ControlHandler, EndHandler, SinkSocket, StreamSocket};
use tokio_zmq::roles::AsControlledSocket;
use tokio_zmq::roles::ControlledStreamSocket;
use tokio_zmq::sink::MultipartSink;
use tokio_zmq::sink_stream::MultipartSinkStream;
use tokio_zmq::stream::MultipartStream;
use tokio_zmq::{Dealer, Frame, Multipart, Pair, Pub, Pull, Push, Rep, Req, Router, Socket, Sub};

fn frame(text: &str) -> Frame {
    Frame::new(text.as_bytes().to_vec())
}

fn multipart(texts: &[&str]) -> Multipart {
    let mut multipart = Multipart::new();
    for text in texts {
        multipart.push_back(frame(text));
    }
    multipart
}

fn texts(multipart: &Multipart) -> Vec<Vec<u8>> {
    let mut all = Vec::new();
    let mut index = 0;
    while let Some(frame) = multipart.get(index) {
        all.push(frame.as_bytes().clone());
        index += 1;
    }
    all
}

fn socket(ctx: &zmq::Context, kind: zmq::SocketType) -> zmq::Socket {
    let sock = ctx.socket(kind).unwrap();
    sock.set_linger(0).unwrap();
    sock
}

fn failed(error: zmq::Error) -> Event {
    Event::Failed(Error::Zmq(error.to_raw()))
}

fn answer(sock: &zmq::Socket, front: Option<&Frame>, call: Call) -> Event {
    match call {
        Call::PollReady(_) => Event::Scheduler(Readiness::Pending),
        Call::GetEvents => match sock.get_events() {
            Ok(events) => Event::Events(events.bits()),
            Err(error) => failed(error),
        },
        Call::ClearReady(_) => Event::Cleared,
        Call::Wake => Event::Woken,
        Call::Send(flags) => {
            let bytes = front.expect("a frame to send").as_bytes().as_slice();
            match sock.send(bytes, flags) {
                Ok(()) => Event::Sent,
                Err(zmq::Error::EAGAIN) => Event::WouldBlock,
                Err(error) => failed(error),
            }
        }
        Call::Receive(flags) => {
            let mut message = zmq::Message::new();
            match sock.recv(&mut message, flags) {
                Ok(()) => Event::Received(Frame::received(message.to_vec(), message.get_more())),
                Err(zmq::Error::EAGAIN) => Event::WouldBlock,
                Err(error) => failed(error),
            }
        }
    }
}

fn poll_request(request: &mut MultipartRequest<zmq::Socket>) -> Step<zmq::Socket> {
    let mut event = Event::Poll;
    loop {
        match request.poll(event) {
            Step::Call(call) => {
                event = answer(request.socket().expect("adapter"), request.front(), call);
            }
            done => return done,
        }
    }
}

fn poll_response(response: &mut MultipartResponse<zmq::Socket>) -> Step<(Multipart, zmq::Socket)> {
    let mut event = Event::Poll;
    loop {
        match response.poll(event) {
            Step::Call(call) => {
                event = answer(response.socket().expect("adapter"), None, call);
            }
            done => return done,
        }
    }
}

fn poll_flush(sink: &mut MultipartSink<zmq::Socket>) -> Step<()> {
    let mut event = Event::Poll;
    loop {
        match sink.poll_flush(event) {
            Step::Call(call) => {
                event = answer(sink.socket().expect("adapter"), sink.front(), call);
            }
            done => return done,
        }
    }
}

fn poll_next(stream: &mut MultipartStream<zmq::Socket>) -> Step<Option<Multipart>> {
    let mut event = Event::Poll;
    loop {
        match stream.poll_next(event) {
            Step::Call(call) => {
                event = answer(stream.socket().expect("adapter"), None, call);
            }
            done => return done,
        }
    }
}

fn poll_flush_both(both: &mut MultipartSinkStream<zmq::Socket>) -> Step<()> {
    let mut event = Event::Poll;
    loop {
        match both.poll_flush(event) {
            Step::Call(call) => {
                event = answer(both.socket().expect("adapter"), both.front(), call);
            }
            done => return done,
        }
    }
}

fn poll_next_both(both: &mut MultipartSinkStream<zmq::Socket>) -> Step<Option<Multipart>> {
    let mut event = Event::Poll;
    loop {
        match both.poll_next(event) {
            Step::Call(call) => {
                event = answer(both.socket().expect("adapter"), None, call);
            }
            done => return done,
        }
    }
}

/// Polls until the poll does not end pending, for five seconds at most.
fn until_done<T>(mut poll: impl FnMut() -> Step<T>) -> Step<T> {
    let start = Instant::now();
    loop {
        match poll() {
            Step::Pending => {
                assert!(start.elapsed() < Duration::from_secs(5), "still pending");
                wait(Duration::from_millis(1));
            }
            done => return done,
        }
    }
}

fn send(sock: zmq::Socket, multipart: Multipart) -> zmq::Socket {
    let mut request = MultipartRequest::new(sock, multipart);
    match until_done(|| poll_request(&mut request)) {
        Step::Ready(sock) => sock,
        other => panic!("send did not complete: {:?}", other.map_debug()),
    }
}

fn receive(sock: zmq::Socket) -> (Multipart, zmq::Socket) {
    let mut response = MultipartResponse::new(sock);
    match until_done(|| poll_response(&mut response)) {
        Step::Ready(done) => done,
        other => panic!("receive did not complete: {:?}", other.map_debug()),
    }
}

trait MapDebug {
    fn map_debug(&self) -> String;
}

impl<T> MapDebug for Step<T> {
    fn map_debug(&self) -> String {
        match self {
            Step::Call(call) => format!("Call({:?})", call),
            Step::Pending => format!("Pending"),
            Step::Ready(_) => format!("Ready"),
            Step::Failed(error) => format!("Failed({:?})", error),
        }
    }
}

fn next(stream: &mut MultipartStream<zmq::Socket>) -> Multipart {
    match until_done(|| poll_next(stream)) {
        Step::Ready(Some(multipart)) => multipart,
        other => panic!("stream did not yield: {:?}", other.map_debug()),
    }
}

fn flush(sink: &mut MultipartSink<zmq::Socket>) {
    match until_done(|| poll_flush(sink)) {
        Step::Ready(()) => {}
        other => panic!("sink did not flush: {:?}", other.map_debug()),
    }
}

/// Lets time pass without giving up the thread.
fn wait(duration: Duration) {
    let start = Instant::now();
    while start.elapsed() < duration {
        std::hint::spin_loop();
    }
}

/// Lets a subscription reach the publisher.
fn settle() {
    wait(Duration::from_millis(100));
}

#[test]
fn pair_round_trip_is_equal_frame_for_frame() {
    let ctx = zmq::Context::new();
    let left = socket(&ctx, zmq::PAIR);
    left.bind("inproc://round-trip").unwrap();
    let right = socket(&ctx, zmq::PAIR);
    right.connect("inproc://round-trip").unwrap();

    let mut sent = Multipart::new();
    sent.push_back(Frame::new(vec![0, 1, 2, 255]));
    sent.push_back(Frame::new(Vec::new()));
    sent.push_back(Frame::new(b"the end".to_vec()));
    let left = Pair::from_socket(Socket::from_sock_and_file(left));
    let right = Pair::from_socket(Socket::from_sock_and_file(right));

    let mut request = left.send(sent.clone());
    let _left = match until_done(|| poll_request(&mut request)) {
        Step::Ready(sock) => sock,
        other => panic!("send did not complete: {}", other.map_debug()),
    };
    let mut response = right.recv();
    let (got, _right) = match until_done(|| poll_response(&mut response)) {
        Step::Ready(done) => done,
        other => panic!("receive did not complete: {}", other.map_debug()),
    };
    assert_eq!(texts(&got), texts(&sent));
    assert_eq!(got.len(), 3);
    assert!(got.get(0).unwrap().get_more());
    assert!(got.get(1).unwrap().get_more());
    assert!(!got.get(2).unwrap().get_more());
}

#[test]
fn pub_sub_echo() {
    let ctx = zmq::Context::new();
    let publisher = socket(&ctx, zmq::PUB);
    publisher.bind("inproc://echo").unwrap();
    let subscriber = socket(&ctx, zmq::SUB);
    subscriber.connect("inproc://echo").unwrap();
    subscriber.set_subscribe(b"").unwrap();
    settle();

    let mut sink = Pub::from_socket(Socket::from_sock_and_file(publisher)).sink();
    let mut stream = Sub::from_socket(Socket::from_sock_and_file(subscriber)).stream();

    assert_eq!(sink.start_send(multipart(&["hello"])), Ok(()));
    flush(&mut sink);
    assert_eq!(sink.start_send(multipart(&["world"])), Ok(()));
    flush(&mut sink);

    assert_eq!(texts(&next(&mut stream)), vec![b"hello".to_vec()]);
    assert_eq!(texts(&next(&mut stream)), vec![b"world".to_vec()]);
    // Exactly two: nothing further is queued.
    assert!(matches!(poll_next(&mut stream), Step::Pending));
}

#[test]
fn req_rep_round_trip_twice() {
    let ctx = zmq::Context::new();
    let rep = socket(&ctx, zmq::REP);
    rep.bind("inproc://req-rep").unwrap();
    let req = socket(&ctx, zmq::REQ);
    req.connect("inproc://req-rep").unwrap();

    let mut req = Req::from_socket(Socket::from_sock_and_file(req));
    let mut rep = Rep::from_socket(Socket::from_sock_and_file(rep));
    for _ in 0..2 {
        let mut request = req.send(multipart(&["ping"]));
        let sock = match until_done(|| poll_request(&mut request)) {
            Step::Ready(sock) => sock,
            other => panic!("request not sent: {}", other.map_debug()),
        };
        req = Req::from_socket(Socket::from_sock_and_file(sock));

        let mut response = rep.recv();
        let (got, sock) = match until_done(|| poll_response(&mut response)) {
            Step::Ready(done) => done,
            other => panic!("request not received: {}", other.map_debug()),
        };
        assert_eq!(texts(&got), vec![b"ping".to_vec()]);
        let sock = send(sock, multipart(&["pong"]));
        rep = Rep::from_socket(Socket::from_sock_and_file(sock));

        let (got, sock) = receive(req.socket().inner());
        assert_eq!(texts(&got), vec![b"pong".to_vec()]);
        req = Req::from_socket(Socket::from_sock_and_file(sock));
    }
}

#[test]
fn router_sees_the_routing_id_before_the_dealers_frames() {
    let ctx = zmq::Context::new();
    let router = socket(&ctx, zmq::ROUTER);
    router.bind("inproc://router-dealer").unwrap();
    let dealer = socket(&ctx, zmq::DEALER);
    dealer.set_identity(b"dealer-1").unwrap();
    dealer.connect("inproc://router-dealer").unwrap();

    let mut sink = Dealer::from_socket(Socket::from_sock_and_file(dealer)).sink();
    let mut stream = Router::from_socket(Socket::from_sock_and_file(router)).stream();
    assert_eq!(sink.start_send(multipart(&["id", "", "payload"])), Ok(()));
    flush(&mut sink);

    let got = next(&mut stream);
    assert_eq!(got.len(), 4);
    assert_eq!(
        texts(&got),
        vec![b"dealer-1".to_vec(), b"id".to_vec(), b"".to_vec(), b"payload".to_vec()]
    );
    assert!(got.get(0).unwrap().get_more());
    assert!(got.get(1).unwrap().get_more());
    assert!(got.get(2).unwrap().get_more());
    assert!(!got.get(3).unwrap().get_more());
}

struct StopOnStop;

impl ControlHandler for StopOnStop {
    fn should_stop(&mut self, multipart: Multipart) -> bool {
        match multipart.get(0) {
            Some(frame) => frame.as_bytes().as_slice() == b"STOP",
            None => false,
        }
    }
}

fn polled(step: Step<Option<Multipart>>) -> Polled<Option<Multipart>> {
    match step {
        Step::Pending => Polled::Pending,
        Step::Ready(item) => Polled::Ready(item),
        Step::Failed(error) => Polled::Failed(error),
        Step::Call(call) => panic!("a poll ended with a call: {:?}", call),
    }
}

fn poll_controlled(
    stream: &mut ControlledStream<
        StopOnStop,
        MultipartStream<zmq::Socket>,
        MultipartStream<zmq::Socket>,
    >,
) -> Polled<Option<Multipart>> {
    let mut event = StreamEvent::Poll;
    loop {
        match stream.poll_next(event) {
            StreamStep::PollControl => {
                event = StreamEvent::Control(polled(poll_next(stream.control())));
            }
            StreamStep::PollStream => {
                event = StreamEvent::Stream(polled(poll_next(stream.stream())));
            }
            StreamStep::Done(outcome) => return outcome,
            other => panic!("no timer here: {:?}", other),
        }
    }
}

#[test]
fn controller_stops_a_pull_stream_with_messages_still_queued() {
    let ctx = zmq::Context::new();
    let pull = socket(&ctx, zmq::PULL);
    pull.bind("inproc://work").unwrap();
    let push = socket(&ctx, zmq::PUSH);
    push.connect("inproc://work").unwrap();
    let control = socket(&ctx, zmq::SUB);
    control.bind("inproc://control").unwrap();
    control.set_subscribe(b"").unwrap();
    let commander = socket(&ctx, zmq::PUB);
    commander.connect("inproc://control").unwrap();
    settle();

    let control = Sub::from_socket(Socket::from_sock_and_file(control));
    let controlled = Pull::from_socket(Socket::from_sock_and_file(pull)).controlled(control);
    let mut stream = controlled.stream(StopOnStop);

    let mut work = Push::from_socket(Socket::from_sock_and_file(push)).sink();
    for text in ["one", "two", "three", "four"] {
        assert_eq!(work.start_send(multipart(&[text])), Ok(()));
        flush(&mut work);
    }
    // While the controller is silent the work comes through.
    let start = Instant::now();
    let mut seen = Vec::new();
    while seen.len() < 2 {
        match poll_controlled(&mut stream) {
            Polled::Ready(Some(item)) => seen.push(texts(&item)),
            Polled::Pending => {
                assert!(start.elapsed() < Duration::from_secs(5));
                wait(Duration::from_millis(1));
            }
            other => panic!("unexpected {:?}", other),
        }
    }
    assert_eq!(seen, vec![vec![b"one".to_vec()], vec![b"two".to_vec()]]);

    let mut orders = Pub::from_socket(Socket::from_sock_and_file(commander)).sink();
    assert_eq!(orders.start_send(multipart(&["STOP"])), Ok(()));
    flush(&mut orders);
    settle();

    // "three" and "four" are still queued, and the stream ends all the same.
    assert_eq!(poll_controlled(&mut stream), Polled::Ready(None));
    assert_eq!(poll_controlled(&mut stream), Polled::Ready(None));
}

struct EndOnEnd;

impl EndHandler for EndOnEnd {
    fn should_stop(&mut self, multipart: &Multipart) -> bool {
        multipart.len() == 1 && multipart.get(0).unwrap().as_bytes().as_slice() == b"END"
    }
}

fn poll_ending(
    stream: &mut EndingStream<EndOnEnd, MultipartStream<zmq::Socket>>,
) -> Polled<Option<Multipart>> {
    let mut event = StreamEvent::Poll;
    loop {
        match stream.poll_next(event) {
            StreamStep::PollStream => {
                event = StreamEvent::Stream(polled(poll_next(stream.stream())));
            }
            StreamStep::Done(outcome) => return outcome,
            other => panic!("only the data stream is here: {:?}", other),
        }
    }
}

#[test]
fn sentinel_stops_a_sub_stream_exactly_on_end() {
    let ctx = zmq::Context::new();
    let publisher = socket(&ctx, zmq::PUB);
    publisher.bind("inproc://news").unwrap();
    let subscriber = socket(&ctx, zmq::SUB);
    subscriber.connect("inproc://news").unwrap();
    subscriber.set_subscribe(b"").unwrap();
    settle();

    let mut sink = Pub::from_socket(Socket::from_sock_and_file(publisher)).sink();
    for text in ["first", "second", "END", "after"] {
        assert_eq!(sink.start_send(multipart(&[text])), Ok(()));
        flush(&mut sink);
    }

    let stream = Sub::from_socket(Socket::from_sock_and_file(subscriber)).stream();
    let mut stream = EndingStream::new(stream, EndOnEnd);
    let start = Instant::now();
    let mut seen = Vec::new();
    loop {
        match poll_ending(&mut stream) {
            Polled::Ready(Some(item)) => seen.push(texts(&item)),
            Polled::Ready(None) => break,
            Polled::Pending => {
                assert!(start.elapsed() < Duration::from_secs(5));
                wait(Duration::from_millis(1));
            }
            other => panic!("unexpected {:?}", other),
        }
    }
    assert_eq!(seen, vec![vec![b"first".to_vec()], vec![b"second".to_vec()]]);
    assert_eq!(poll_ending(&mut stream), Polled::Ready(None));
}

#[test]
fn sink_stream_on_a_pair_sends_and_receives_over_one_socket() {
    let ctx = zmq::Context::new();
    let left = socket(&ctx, zmq::PAIR);
    left.bind("inproc://both").unwrap();
    let right = socket(&ctx, zmq::PAIR);
    right.connect("inproc://both").unwrap();

    let mut left = Socket::from_sock_and_file(left).sink_stream();
    let mut right = Socket::from_sock_and_file(right).sink_stream();

    // Nothing to read yet on the left; a send is begun beside the waiting
    // stream.
    assert!(matches!(poll_next_both(&mut left), Step::Pending));
    assert_eq!(left.start_send(multipart(&["to", "right"])), Ok(()));
    assert!(matches!(until_done(|| poll_flush_both(&mut left)), Step::Ready(())));

    let got = match until_done(|| poll_next_both(&mut right)) {
        Step::Ready(Some(got)) => got,
        other => panic!("right did not receive: {}", other.map_debug()),
    };
    assert_eq!(texts(&got), vec![b"to".to_vec(), b"right".to_vec()]);

    assert_eq!(right.start_send(multipart(&["to left"])), Ok(()));
    assert!(matches!(until_done(|| poll_flush_both(&mut right)), Step::Ready(())));
    let got = match until_done(|| poll_next_both(&mut left)) {
        Step::Ready(Some(got)) => got,
        other => panic!("left did not receive: {}", other.map_debug()),
    };
    assert_eq!(texts(&got), vec![b"to left".to_vec()]);
    assert!(left.socket().is_some());
    assert!(right.socket().is_some());
}

#[test]
fn a_socket_that_cannot_send_reports_the_message_queues_error() {
    let ctx = zmq::Context::new();
    let rep = socket(&ctx, zmq::REP);
    rep.bind("inproc://out-of-turn").unwrap();
    // A replier must receive before it sends: its event mask never signals
    // "writable", so the send stays pending and nothing is lost.
    let mut request = Rep::from_socket(Socket::from_sock_and_file(rep)).send(multipart(&["early"]));
    assert!(matches!(poll_request(&mut request), Step::Pending));
    assert_eq!(request.front(), Some(&frame("early")));
    assert!(request.socket().is_some());
}

#[test]
fn controlled_role_keeps_both_adapters() {
    let ctx = zmq::Context::new();
    let pull = socket(&ctx, zmq::PULL);
    let control = socket(&ctx, zmq::SUB);
    let control = Sub::from_socket(Socket::from_sock_and_file(control));
    let controlled = Pull::from_socket(Socket::from_sock_and_file(pull)).controlled(control);
    let mut stream = controlled.socket().stream(StopOnStop);
    assert!(stream.stream().socket().is_some());
    assert!(stream.control().socket().is_some());
}
