//! What crosses the socket: the frames and flags that a send puts on the
//! wire over a whole run of answers, and what a receive makes of them.

use crate::adapter::{Event, Step};
use crate::flags::{flags_of, lemma_flags_of, more_follows, place_of};
use crate::future::{
    is_message, request_step, response_step, RequestView, ResponseView, SendPhase,
};
use crate::message::Frame;
use crate::sink::{sink_flush, sink_start, SinkView};
use vstd::prelude::*;

verus! {

/// A multipart as the socket is meant to see it: every frame in order, each
/// with the flags of its place.
pub open spec fn framed(frames: Seq<Frame>) -> Seq<(Frame, i32)> {
    Seq::new(frames.len(), |i: int| (frames[i], flags_of(place_of((frames.len() - i) as nat))))
}

/// In a framed multipart every frame but the last carries "more follows",
/// and the last does not.
pub proof fn lemma_framed_flags(frames: Seq<Frame>, i: int)
    requires
        0 <= i < frames.len(),
    ensures
        framed(frames).len() == frames.len(),
        framed(frames)[i].0 == frames[i],
        more_follows(framed(frames)[i].1) <==> i < frames.len() - 1,
{
    lemma_flags_of(place_of((frames.len() - i) as nat));
}

/// What the socket accepts in one step of a send: the front frame with the
/// flags of its place, when the answer to its send is `Sent`; else nothing.
pub open spec fn request_accepted<A>(pre: RequestView<A>, event: Event) -> Seq<(Frame, i32)> {
    if pre.adapter is Some && pre.phase == SendPhase::Sending && event is Sent
        && pre.remaining.len() > 0 {
        seq![(pre.remaining[0], flags_of(place_of(pre.remaining.len())))]
    } else {
        Seq::empty()
    }
}

/// The send after a run of answers, the first one first.
pub open spec fn request_run<A>(pre: RequestView<A>, events: Seq<Event>) -> RequestView<A>
    decreases events.len(),
{
    if events.len() == 0 {
        pre
    } else {
        request_step(request_run(pre, events.drop_last()), events.last()).0
    }
}

/// The reply of the send to the last answer of a run.
pub open spec fn request_last<A>(pre: RequestView<A>, events: Seq<Event>) -> Step<A> {
    request_step(request_run(pre, events.drop_last()), events.last()).1
}

/// Everything the socket accepts from a send over a run of answers.
pub open spec fn request_wire<A>(pre: RequestView<A>, events: Seq<Event>) -> Seq<(Frame, i32)>
    decreases events.len(),
{
    if events.len() == 0 {
        Seq::empty()
    } else {
        request_wire(pre, events.drop_last()) + request_accepted(
            request_run(pre, events.drop_last()),
            events.last(),
        )
    }
}

proof fn lemma_framed_front(frames: Seq<Frame>)
    requires
        frames.len() > 0,
    ensures
        framed(frames) == seq![(frames[0], flags_of(place_of(frames.len())))] + framed(
            frames.drop_first(),
        ),
{
    assert(framed(frames) =~= seq![(frames[0], flags_of(place_of(frames.len())))] + framed(
        frames.drop_first(),
    ));
}

proof fn lemma_request_progress<A>(pre: RequestView<A>, events: Seq<Event>)
    ensures
        request_run(pre, events).adapter is Some ==> pre.adapter is Some && request_wire(
            pre,
            events,
        ) + framed(request_run(pre, events).remaining) == framed(pre.remaining),
    decreases events.len(),
{
    if events.len() == 0 {
        assert(Seq::<(Frame, i32)>::empty() + framed(pre.remaining) =~= framed(pre.remaining));
    } else {
        lemma_request_progress(pre, events.drop_last());
        let before = request_run(pre, events.drop_last());
        let sent = request_wire(pre, events.drop_last());
        if request_run(pre, events).adapter is Some {
            let accepted = request_accepted(before, events.last());
            if accepted.len() > 0 {
                lemma_framed_front(before.remaining);
                assert((sent + accepted) + framed(before.remaining.drop_first()) =~= sent + (
                accepted + framed(before.remaining.drop_first())));
            } else {
                assert(sent + accepted =~= sent);
            }
        }
    }
}

/// A send that completes has put on the wire exactly the frames it was
/// given, in order, with "more follows" on every frame but the last: whatever
/// the answers were on the way, however often the socket would have blocked,
/// and over however many polls.
pub proof fn lemma_request_wire<A>(pre: RequestView<A>, events: Seq<Event>)
    requires
        events.len() > 0,
        request_last(pre, events) is Ready,
    ensures
        request_wire(pre, events) == framed(pre.remaining),
        request_last(pre, events) == Step::Ready(pre.adapter->0),
        pre.adapter is Some,
{
    lemma_request_progress(pre, events.drop_last());
    let before = request_run(pre, events.drop_last());
    let sent = request_wire(pre, events.drop_last());
    let accepted = request_accepted(before, events.last());
    lemma_request_owner(pre, events.drop_last());
    if before.remaining.len() > 0 {
        lemma_framed_front(before.remaining);
        assert(before.remaining.drop_first() =~= Seq::<Frame>::empty());
        assert(accepted + framed(before.remaining.drop_first()) =~= accepted);
    } else {
        assert(framed(before.remaining) =~= accepted);
    }
}

/// While a send holds an adapter, it is the one it began with.
pub proof fn lemma_request_owner<A>(pre: RequestView<A>, events: Seq<Event>)
    ensures
        request_run(pre, events).adapter is Some ==> request_run(pre, events).adapter
            == pre.adapter,
    decreases events.len(),
{
    if events.len() > 0 {
        lemma_request_owner(pre, events.drop_last());
    }
}

/// What the socket accepts in one step of a sink: what its send puts out.
pub open spec fn sink_accepted<A>(pre: SinkView<A>, event: Event) -> Seq<(Frame, i32)> {
    match pre {
        SinkView::Pending(request) => request_accepted(request, event),
        _ => Seq::empty(),
    }
}

/// The sink after a run of answers to its flush, the first one first.
pub open spec fn sink_run<A>(pre: SinkView<A>, events: Seq<Event>) -> SinkView<A>
    decreases events.len(),
{
    if events.len() == 0 {
        pre
    } else {
        sink_flush(sink_run(pre, events.drop_last()), events.last()).0
    }
}

/// The reply of the sink to the last answer of a run.
pub open spec fn sink_last<A>(pre: SinkView<A>, events: Seq<Event>) -> Step<()> {
    sink_flush(sink_run(pre, events.drop_last()), events.last()).1
}

/// Everything the socket accepts from a sink over a run of answers.
pub open spec fn sink_wire<A>(pre: SinkView<A>, events: Seq<Event>) -> Seq<(Frame, i32)>
    decreases events.len(),
{
    if events.len() == 0 {
        Seq::empty()
    } else {
        sink_wire(pre, events.drop_last()) + sink_accepted(
            sink_run(pre, events.drop_last()),
            events.last(),
        )
    }
}

proof fn lemma_sink_progress<A>(begun: RequestView<A>, events: Seq<Event>)
    ensures
        match sink_run(SinkView::Pending(begun), events) {
            SinkView::Pending(request) => request.adapter is Some ==> request.adapter
                == begun.adapter && sink_wire(SinkView::Pending(begun), events) + framed(
                request.remaining,
            ) == framed(begun.remaining),
            SinkView::Ready(adapter) => sink_wire(SinkView::Pending(begun), events) == framed(
                begun.remaining,
            ) && begun.adapter == Some(adapter),
            _ => true,
        },
    decreases events.len(),
{
    let pre = SinkView::Pending(begun);
    if events.len() == 0 {
        assert(Seq::<(Frame, i32)>::empty() + framed(begun.remaining) =~= framed(
            begun.remaining,
        ));
    } else {
        lemma_sink_progress(begun, events.drop_last());
        let before = sink_run(pre, events.drop_last());
        let sent = sink_wire(pre, events.drop_last());
        let accepted = sink_accepted(before, events.last());
        match before {
            SinkView::Pending(request) => {
                if request.adapter is Some {
                    if accepted.len() > 0 {
                        lemma_framed_front(request.remaining);
                        assert((sent + accepted) + framed(request.remaining.drop_first()) =~= sent
                            + (accepted + framed(request.remaining.drop_first())));
                        if request.remaining.len() == 1 {
                            assert(request.remaining.drop_first() =~= Seq::<Frame>::empty());
                            assert(accepted + framed(request.remaining.drop_first())
                                =~= accepted);
                        }
                    } else {
                        assert(sent + accepted =~= sent);
                        if request.phase == SendPhase::Sending && events.last() is Sent {
                            assert(framed(request.remaining) =~= accepted);
                        }
                    }
                }
            },
            _ => {
                assert(sent + accepted =~= sent);
            },
        }
    }
}

/// A multipart handed to a ready sink whose flush then completes has gone
/// onto the wire whole: exactly its frames, in order, with "more follows" on
/// every frame but the last. The sink is ready again and holds the adapter
/// it had.
pub proof fn lemma_sink_wire<A>(adapter: A, frames: Seq<Frame>, events: Seq<Event>)
    requires
        frames.len() > 0,
        events.len() > 0,
        sink_last(sink_start(SinkView::Ready(adapter), frames).0, events) is Ready,
    ensures
        sink_start(SinkView::Ready(adapter), frames).1 is Ok,
        sink_wire(sink_start(SinkView::Ready(adapter), frames).0, events) == framed(frames),
        sink_run(sink_start(SinkView::Ready(adapter), frames).0, events) == SinkView::Ready(
            adapter,
        ),
{
    let begun = RequestView { adapter: Some(adapter), remaining: frames, phase: SendPhase::Idle };
    let pre = SinkView::Pending(begun);
    lemma_sink_progress(begun, events.drop_last());
    lemma_sink_progress(begun, events);
}

/// What a receive takes from the socket in one step: the frame that answers
/// its request for one; else nothing.
pub open spec fn response_taken<A>(pre: ResponseView<A>, event: Event) -> Seq<Frame> {
    if pre.adapter is Some && pre.phase is Receiving && event is Received {
        seq![event->Received_0]
    } else {
        Seq::empty()
    }
}

/// The receive after a run of answers, the first one first.
pub open spec fn response_run<A>(pre: ResponseView<A>, events: Seq<Event>) -> ResponseView<A>
    decreases events.len(),
{
    if events.len() == 0 {
        pre
    } else {
        response_step(response_run(pre, events.drop_last()), events.last()).0
    }
}

/// The reply of the receive to the last answer of a run.
pub open spec fn response_last<A>(pre: ResponseView<A>, events: Seq<Event>) -> Step<
    (Seq<Frame>, A),
> {
    response_step(response_run(pre, events.drop_last()), events.last()).1
}

/// Every frame a receive takes from the socket over a run of answers.
pub open spec fn response_read<A>(pre: ResponseView<A>, events: Seq<Event>) -> Seq<Frame>
    decreases events.len(),
{
    if events.len() == 0 {
        Seq::empty()
    } else {
        response_read(pre, events.drop_last()) + response_taken(
            response_run(pre, events.drop_last()),
            events.last(),
        )
    }
}

proof fn lemma_response_progress<A>(pre: ResponseView<A>, events: Seq<Event>)
    ensures
        response_run(pre, events).adapter is Some ==> response_run(pre, events).adapter
            == pre.adapter,
        response_run(pre, events).adapter is Some && !(response_run(pre, events).phase is Failed)
            ==> response_run(pre, events).partial == pre.partial + response_read(pre, events),
    decreases events.len(),
{
    if events.len() == 0 {
        assert(pre.partial + Seq::<Frame>::empty() =~= pre.partial);
    } else {
        lemma_response_progress(pre, events.drop_last());
        let before = response_run(pre, events.drop_last());
        let read = response_read(pre, events.drop_last());
        let taken = response_taken(before, events.last());
        if response_run(pre, events).adapter is Some && !(response_run(pre, events).phase
            is Failed) {
            if taken.len() > 0 {
                assert(before.partial.push(events.last()->Received_0) =~= pre.partial + (read
                    + taken));
            } else {
                assert(read + taken =~= read);
            }
        }
    }
}

/// A receive that completes yields exactly the frames it took from the
/// socket, in the order it took them, behind those it already held; nothing
/// is lost, repeated or reordered, over however many polls.
pub proof fn lemma_response_wire<A>(pre: ResponseView<A>, events: Seq<Event>)
    requires
        events.len() > 0,
        response_last(pre, events) is Ready,
    ensures
        pre.adapter is Some,
        response_last(pre, events) == Step::Ready(
            (pre.partial + response_read(pre, events), pre.adapter->0),
        ),
{
    lemma_response_progress(pre, events.drop_last());
    let before = response_run(pre, events.drop_last());
    let read = response_read(pre, events.drop_last());
    let taken = response_taken(before, events.last());
    assert(before.partial.push(events.last()->Received_0) =~= pre.partial + (read + taken));
}

/// What the other end reads when the wire carries `sent` unharmed and in
/// order: the same bytes, each frame announcing a successor exactly when it
/// was sent with "more follows".
pub open spec fn delivered(sent: Seq<(Frame, i32)>) -> Seq<Frame> {
    Seq::new(sent.len(), |i: int| Frame { data: sent[i].0.data, more: more_follows(sent[i].1) })
}

/// A multipart that one socket sends whole arrives at the other as one whole
/// message.
pub proof fn lemma_delivered_message(frames: Seq<Frame>)
    requires
        frames.len() > 0,
    ensures
        is_message(delivered(framed(frames))),
        delivered(framed(frames)).len() == frames.len(),
        forall|i: int|
            0 <= i < frames.len() ==> (#[trigger] delivered(framed(frames))[i]).data
                == frames[i].data,
{
    let arrived = delivered(framed(frames));
    assert forall|i: int| 0 <= i < frames.len() implies (#[trigger] arrived[i]).data
        == frames[i].data && (arrived[i].more <==> i < frames.len() - 1) by {
        lemma_framed_flags(frames, i);
    }
    assert forall|i: int| 0 <= i < arrived.drop_last().len() implies (
    #[trigger] arrived.drop_last()[i]).more by {
        assert(arrived.drop_last()[i] == arrived[i]);
    }
}

/// Round trip. A send that completes on one socket and a fresh receive that
/// completes on the other, joined by a wire that carries every accepted frame
/// unharmed and in order, yield at the receiving end a multipart equal to the
/// one sent, frame for frame.
pub proof fn lemma_round_trip<A, B>(
    sender: RequestView<A>,
    sent: Seq<Event>,
    receiver: ResponseView<B>,
    got: Seq<Event>,
)
    requires
        sent.len() > 0,
        request_last(sender, sent) is Ready,
        got.len() > 0,
        response_last(receiver, got) is Ready,
        receiver.partial.len() == 0,
        response_read(receiver, got) == delivered(request_wire(sender, sent)),
    ensures
        response_last(receiver, got) matches Step::Ready((frames, adapter)) && Some(adapter)
            == receiver.adapter && frames.len() == sender.remaining.len() && is_message(frames)
            && forall|i: int|
            0 <= i < frames.len() ==> (#[trigger] frames[i]).data == sender.remaining[i].data,
{
    lemma_request_wire(sender, sent);
    lemma_response_wire(receiver, got);
    assert(receiver.partial + response_read(receiver, got) =~= response_read(receiver, got));
    if sender.remaining.len() == 0 {
        let before = response_run(receiver, got.drop_last());
        lemma_response_progress(receiver, got.drop_last());
        assert(framed(sender.remaining) =~= Seq::<(Frame, i32)>::empty());
        assert(delivered(framed(sender.remaining)).len() == 0);
        assert(response_taken(before, got.last()).len() == 1);
        assert(response_read(receiver, got).len() >= 1);
    } else {
        lemma_delivered_message(sender.remaining);
    }
}

} // verus!
