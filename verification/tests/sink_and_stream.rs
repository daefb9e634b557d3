use tokio_zmq::adapter::{Call, Event, Readiness, Step};
use tokio_zmq::error::Error;
use tokio_zmq::flags::Direction;
use tokio_zmq::sink::MultipartSink;
use tokio_zmq::stream::MultipartStream;
use tokio_zmq::{Frame, Multipart};

fn frame(text: &str) -> Frame {
    Frame::new(text.as_bytes().to_vec())
}

fn arrived(text: &str, more: bool) -> Frame {
    Frame::received(text.as_bytes().to_vec(), more)
}

fn multipart(texts: &[&str]) -> Multipart {
    let mut multipart = Multipart::new();
    for text in texts {
        multipart.push_back(frame(text));
    }
    multipart
}

fn open_flush(sink: &mut MultipartSink<u32>) -> Step<()> {
    assert_eq!(sink.poll_flush(Event::Poll), Step::Call(Call::PollReady(Direction::Send)));
    assert_eq!(sink.poll_flush(Event::Scheduler(Readiness::Ready)), Step::Call(Call::GetEvents));
    sink.poll_flush(Event::Events(2))
}

fn open_next(stream: &mut MultipartStream<u32>) -> Step<Option<Multipart>> {
    assert_eq!(stream.poll_next(Event::Poll), Step::Call(Call::PollReady(Direction::Receive)));
    assert_eq!(stream.poll_next(Event::Scheduler(Readiness::Ready)), Step::Call(Call::GetEvents));
    stream.poll_next(Event::Events(1))
}

#[test]
fn poll_ready_on_a_ready_sink_changes_nothing() {
    let mut sink = MultipartSink::new(1u32);
    for _ in 0..5 {
        assert_eq!(sink.poll_ready(Event::Poll), Step::Ready(()));
        assert_eq!(sink.socket(), Some(&1));
    }
    assert_eq!(sink.start_send(multipart(&["a"])), Ok(()));
}

#[test]
fn sink_sends_two_multiparts_one_after_the_other() {
    let mut sink = MultipartSink::new(1u32);
    assert_eq!(sink.start_send(multipart(&["hello"])), Ok(()));
    assert_eq!(sink.front(), Some(&frame("hello")));
    assert_eq!(open_flush(&mut sink), Step::Call(Call::Send(1)));
    assert_eq!(sink.poll_flush(Event::Sent), Step::Ready(()));
    assert_eq!(sink.front(), None);
    assert_eq!(sink.poll_ready(Event::Poll), Step::Ready(()));
    assert_eq!(sink.start_send(multipart(&["world", "!"])), Ok(()));
    assert_eq!(open_flush(&mut sink), Step::Call(Call::Send(3)));
    assert_eq!(sink.poll_flush(Event::Sent), Step::Call(Call::Send(1)));
    assert_eq!(sink.poll_flush(Event::Sent), Step::Ready(()));
    assert_eq!(sink.socket(), Some(&1));
}

#[test]
fn start_send_on_a_busy_sink_fails_with_sink() {
    let mut sink = MultipartSink::new(1u32);
    assert_eq!(sink.start_send(multipart(&["a", "b"])), Ok(()));
    assert_eq!(open_flush(&mut sink), Step::Call(Call::Send(3)));
    assert_eq!(sink.poll_flush(Event::Sent), Step::Call(Call::Send(1)));
    assert_eq!(sink.poll_flush(Event::WouldBlock), Step::Call(Call::ClearReady(Direction::Send)));
    assert_eq!(sink.poll_flush(Event::Cleared), Step::Pending);
    assert_eq!(sink.start_send(multipart(&["c"])), Err(Error::Sink));
    // Nothing has changed: the send in flight keeps the adapter and the
    // frame it has not sent, and goes on.
    assert_eq!(sink.socket(), Some(&1));
    assert_eq!(sink.front(), Some(&frame("b")));
    assert_eq!(open_flush(&mut sink), Step::Call(Call::Send(1)));
    assert_eq!(sink.poll_flush(Event::Sent), Step::Ready(()));
    assert_eq!(sink.start_send(multipart(&["c"])), Ok(()));
    assert_eq!(sink.front(), Some(&frame("c")));
}

#[test]
fn start_send_of_an_empty_multipart_is_refused_and_harmless() {
    let mut sink = MultipartSink::new(1u32);
    assert_eq!(sink.start_send(Multipart::new()), Err(Error::EmptyMultipart));
    assert_eq!(sink.socket(), Some(&1));
    assert_eq!(sink.start_send(multipart(&["a"])), Ok(()));
}

#[test]
fn a_failing_sink_surfaces_the_error_and_rejects_further_sends() {
    let mut sink = MultipartSink::new(1u32);
    assert_eq!(sink.start_send(multipart(&["a"])), Ok(()));
    assert_eq!(open_flush(&mut sink), Step::Call(Call::Send(1)));
    assert_eq!(sink.poll_flush(Event::Failed(Error::Zmq(88))), Step::Failed(Error::Zmq(88)));
    // The failure is remembered, and the adapter is kept.
    assert_eq!(sink.socket(), Some(&1));
    assert_eq!(sink.start_send(multipart(&["b"])), Err(Error::Sink));
    assert_eq!(sink.poll_flush(Event::Poll), Step::Failed(Error::Zmq(88)));
    assert_eq!(sink.poll_ready(Event::Poll), Step::Failed(Error::Zmq(88)));
    assert_eq!(sink.poll_close(Event::Poll), Step::Failed(Error::Zmq(88)));
    assert_eq!(sink.start_send(multipart(&["c"])), Err(Error::Sink));
    assert_eq!(sink.socket(), Some(&1));
    assert_eq!(sink.take_socket(), Some(1));
}

#[test]
fn sink_pending_keeps_the_send_for_the_next_poll() {
    let mut sink = MultipartSink::new(1u32);
    assert_eq!(sink.start_send(multipart(&["a", "b"])), Ok(()));
    assert_eq!(open_flush(&mut sink), Step::Call(Call::Send(3)));
    assert_eq!(sink.poll_flush(Event::WouldBlock), Step::Call(Call::ClearReady(Direction::Send)));
    assert_eq!(sink.poll_flush(Event::Cleared), Step::Pending);
    assert_eq!(open_flush(&mut sink), Step::Call(Call::Send(3)));
    assert_eq!(sink.poll_flush(Event::Sent), Step::Call(Call::Send(1)));
    assert_eq!(sink.poll_flush(Event::Sent), Step::Ready(()));
}

#[test]
fn poll_close_flushes_and_then_drops_the_adapter() {
    let mut sink = MultipartSink::new(1u32);
    assert_eq!(sink.start_send(multipart(&["bye"])), Ok(()));
    assert_eq!(sink.poll_close(Event::Poll), Step::Call(Call::PollReady(Direction::Send)));
    assert_eq!(sink.poll_close(Event::Scheduler(Readiness::Ready)), Step::Call(Call::GetEvents));
    assert_eq!(sink.poll_close(Event::Events(2)), Step::Call(Call::Send(1)));
    assert_eq!(sink.socket(), Some(&1));
    assert_eq!(sink.poll_close(Event::Sent), Step::Ready(()));
    assert_eq!(sink.socket(), None);
    assert_eq!(sink.start_send(multipart(&["late"])), Err(Error::Sink));
}

#[test]
fn sink_take_and_give_socket() {
    let mut sink = MultipartSink::new(1u32);
    assert_eq!(sink.take_socket(), Some(1));
    assert_eq!(sink.take_socket(), None);
    sink.give_socket(2);
    assert_eq!(sink.start_send(multipart(&["a"])), Ok(()));
    assert_eq!(sink.take_socket(), Some(2));
    assert_eq!(sink.poll_flush(Event::Poll), Step::Failed(Error::Reused));
}

#[test]
fn sink_ready_refuses_an_answer_it_did_not_ask_for() {
    let mut sink = MultipartSink::new(1u32);
    assert_eq!(sink.poll_flush(Event::Sent), Step::Failed(Error::Sink));
    assert_eq!(sink.socket(), Some(&1));
    assert_eq!(sink.start_send(multipart(&["a"])), Err(Error::Sink));
    assert_eq!(sink.poll_flush(Event::Poll), Step::Failed(Error::Sink));
    assert_eq!(sink.socket(), Some(&1));
}

#[test]
fn stream_yields_multiparts_in_order_of_arrival() {
    let mut stream = MultipartStream::new(2u32);
    assert_eq!(open_next(&mut stream), Step::Call(Call::Receive(1)));
    let step = stream.poll_next(Event::Received(arrived("hello", false)));
    let mut hello = Multipart::new();
    hello.push_back(arrived("hello", false));
    assert_eq!(step, Step::Ready(Some(hello)));
    assert_eq!(stream.socket(), Some(&2));

    assert_eq!(open_next(&mut stream), Step::Call(Call::Receive(1)));
    assert_eq!(stream.poll_next(Event::Received(arrived("wor", true))), Step::Call(Call::Receive(1)));
    let step = stream.poll_next(Event::Received(arrived("ld", false)));
    let mut world = Multipart::new();
    world.push_back(arrived("wor", true));
    world.push_back(arrived("ld", false));
    assert_eq!(step, Step::Ready(Some(world)));
}

#[test]
fn stream_pending_then_ready() {
    let mut stream = MultipartStream::new(2u32);
    assert_eq!(open_next(&mut stream), Step::Call(Call::Receive(1)));
    assert_eq!(stream.poll_next(Event::WouldBlock), Step::Pending);
    assert_eq!(stream.socket(), Some(&2));
    assert_eq!(open_next(&mut stream), Step::Call(Call::Receive(1)));
    assert!(matches!(
        stream.poll_next(Event::Received(arrived("x", false))),
        Step::Ready(Some(_))
    ));
}

#[test]
fn a_failing_stream_yields_nothing_further() {
    let mut stream = MultipartStream::new(2u32);
    assert_eq!(open_next(&mut stream), Step::Call(Call::Receive(1)));
    assert_eq!(stream.poll_next(Event::Failed(Error::Zmq(156384765))), Step::Failed(Error::Zmq(156384765)));
    // The error is reported once; the stream has ended with it, and keeps
    // the adapter.
    assert_eq!(stream.socket(), Some(&2));
    assert_eq!(stream.poll_next(Event::Poll), Step::Ready(None));
    assert_eq!(stream.poll_next(Event::Received(arrived("x", false))), Step::Ready(None));
    assert_eq!(stream.poll_next(Event::Poll), Step::Ready(None));
    assert_eq!(stream.socket(), Some(&2));
    assert_eq!(stream.take_socket(), Some(2));
}

#[test]
fn stream_ready_refuses_an_answer_it_did_not_ask_for() {
    let mut stream = MultipartStream::new(2u32);
    assert_eq!(stream.poll_next(Event::Events(1)), Step::Failed(Error::Stream));
    assert_eq!(stream.socket(), Some(&2));
    assert_eq!(stream.poll_next(Event::Poll), Step::Ready(None));
}

#[test]
fn stream_take_and_give_socket() {
    let mut stream = MultipartStream::new(2u32);
    assert_eq!(stream.take_socket(), Some(2));
    assert_eq!(stream.take_socket(), None);
    stream.give_socket(3);
    assert_eq!(stream.socket(), Some(&3));
    assert_eq!(open_next(&mut stream), Step::Call(Call::Receive(1)));
    assert_eq!(stream.take_socket(), Some(3));
}

#[test]
fn a_sink_that_is_not_ready_refuses_an_empty_multipart_with_sink() {
    // Sending.
    let mut sink = MultipartSink::new(1u32);
    assert_eq!(sink.start_send(multipart(&["a", "b"])), Ok(()));
    assert_eq!(sink.start_send(Multipart::new()), Err(Error::Sink));
    assert_eq!(open_flush(&mut sink), Step::Call(Call::Send(3)));
    assert_eq!(sink.start_send(Multipart::new()), Err(Error::Sink));
    // The send in flight is as it was.
    assert_eq!(sink.socket(), Some(&1));
    assert_eq!(sink.front(), Some(&frame("a")));
    assert_eq!(sink.poll_flush(Event::Sent), Step::Call(Call::Send(1)));
    // Failed.
    assert_eq!(sink.poll_flush(Event::Failed(Error::Zmq(9))), Step::Failed(Error::Zmq(9)));
    assert_eq!(sink.start_send(Multipart::new()), Err(Error::Sink));
    assert_eq!(sink.socket(), Some(&1));
    // Closed.
    let mut sink = MultipartSink::new(1u32);
    assert_eq!(sink.poll_close(Event::Poll), Step::Ready(()));
    assert_eq!(sink.start_send(Multipart::new()), Err(Error::Sink));
    assert_eq!(sink.start_send(multipart(&["a"])), Err(Error::Sink));
}
