//! Replies as streams of frames: a reply with an envelope, and a reply of a
//! single frame. Both yield their frames one per poll and are always ready;
//! their owner wakes the task after each poll.

use crate::message::Frame;
use std::collections::VecDeque;
use vstd::prelude::*;

verus! {

/// A reply under a key and, at will, an address: the key goes out first,
/// then the address, then the contents in the order they were put in.
pub struct Envelope {
    key: Option<Frame>,
    addr: Option<Frame>,
    contents: VecDeque<Frame>,
}

/// The frame of an option, as a sequence of one or none.
pub open spec fn optional(frame: Option<Frame>) -> Seq<Frame> {
    match frame {
        Some(frame) => seq![frame],
        None => Seq::empty(),
    }
}

impl View for Envelope {
    type V = Seq<Frame>;

    /// The frames still to yield, the next one first.
    closed spec fn view(&self) -> Seq<Frame> {
        optional(self.key) + optional(self.addr) + self.contents@
    }
}

impl Envelope {
    /// An envelope with a key and nothing else.
    pub fn new(key: Frame) -> (envelope: Self)
        ensures
            envelope@ == seq![key],
    {
        let envelope = Envelope { key: Some(key), addr: None, contents: VecDeque::new() };
        assert(envelope@ =~= seq![key]);
        envelope
    }

    /// An envelope with a key and an address.
    pub fn new_with_addr(key: Frame, addr: Frame) -> (envelope: Self)
        ensures
            envelope@ == seq![key, addr],
    {
        let envelope = Envelope { key: Some(key), addr: Some(addr), contents: VecDeque::new() };
        assert(envelope@ =~= seq![key, addr]);
        envelope
    }

    /// An envelope with a key and contents.
    pub fn new_with_contents(key: Frame, contents: VecDeque<Frame>) -> (envelope: Self)
        ensures
            envelope@ == seq![key] + contents@,
    {
        let envelope = Envelope { key: Some(key), addr: None, contents };
        assert(envelope@ =~= seq![key] + contents@);
        envelope
    }

    /// An envelope with a key, an address and contents.
    pub fn new_with_addr_and_contents(key: Frame, addr: Frame, contents: VecDeque<Frame>) -> (envelope:
        Self)
        ensures
            envelope@ == seq![key, addr] + contents@,
    {
        let envelope = Envelope { key: Some(key), addr: Some(addr), contents };
        assert(envelope@ =~= seq![key, addr] + contents@);
        envelope
    }

    /// Puts `frame` behind the contents.
    pub fn push_back(&mut self, frame: Frame)
        ensures
            final(self)@ == old(self)@.push(frame),
    {
        self.contents.push_back(frame);
        assert(self@ =~= old(self)@.push(frame));
    }

    /// Yields the next frame, or nothing when all have gone out.
    pub fn poll(&mut self) -> (frame: Option<Frame>)
        ensures
            old(self)@.len() == 0 ==> frame is None && final(self)@ == old(self)@,
            old(self)@.len() > 0 ==> frame == Some(old(self)@[0]) && final(self)@ == old(
                self,
            )@.drop_first(),
    {
        match self.key.take() {
            Some(frame) => {
                assert(self@ =~= old(self)@.drop_first());
                return Some(frame);
            },
            None => (),
        }
        match self.addr.take() {
            Some(frame) => {
                assert(self@ =~= old(self)@.drop_first());
                return Some(frame);
            },
            None => (),
        }
        let frame = self.contents.pop_front();
        assert(optional(None) + optional(None) + self.contents@ =~= self.contents@);
        assert(old(self)@ =~= old(self).contents@);
        frame
    }

    /// Accepts `frame` as one more frame of the contents. An envelope is
    /// always ready for more.
    pub fn start_send(&mut self, frame: Frame)
        ensures
            final(self)@ == old(self)@.push(frame),
    {
        self.push_back(frame)
    }

    /// Nothing is ever left to flush.
    pub fn poll_complete(&mut self)
        ensures
            final(self)@ == old(self)@,
    {
    }
}

/// A reply of one frame.
pub struct Singleton {
    inner: Option<Frame>,
}

impl View for Singleton {
    type V = Option<Frame>;

    closed spec fn view(&self) -> Option<Frame> {
        self.inner
    }
}

impl Singleton {
    /// The reply that consists of `frame`.
    pub fn new(frame: Frame) -> (singleton: Self)
        ensures
            singleton@ == Some(frame),
    {
        Singleton { inner: Some(frame) }
    }

    /// Yields the frame the first time, and nothing from then on.
    pub fn poll(&mut self) -> (frame: Option<Frame>)
        ensures
            frame == old(self)@,
            final(self)@ is None,
    {
        self.inner.take()
    }
}

impl From<Frame> for Singleton {
    fn from(frame: Frame) -> (singleton: Singleton)
        ensures
            singleton@ == Some(frame),
    {
        Singleton::new(frame)
    }
}

impl vstd::std_specs::convert::FromSpecImpl<Frame> for Singleton {
    open spec fn obeys_from_spec() -> bool {
        false
    }

    open spec fn from_spec(frame: Frame) -> Singleton {
        arbitrary()
    }
}

} // verus!
