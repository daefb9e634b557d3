//! Frames and multiparts: the values that travel through a socket.

use std::collections::vec_deque::Iter;
use std::collections::VecDeque;
use vstd::prelude::*;
use vstd::std_specs::iter::IteratorSpec;

verus! {

/// One frame of a message: an owned byte buffer together with the "more
/// frames follow" bit that the message queue reports for a received frame.
#[derive(Clone, Debug, PartialEq, Eq)]
pub struct Frame {
    pub data: Vec<u8>,
    pub more: bool,
}

impl Frame {
    /// A frame to send. Its "more" bit is clear; the position of the frame in
    /// its multipart decides the flag it is sent with.
    pub fn new(data: Vec<u8>) -> (frame: Frame)
        ensures
            frame.data == data,
            !frame.more,
    {
        Frame { data, more: false }
    }

    /// A frame as it came from the socket, with the "more" bit read from it.
    pub fn received(data: Vec<u8>, more: bool) -> (frame: Frame)
        ensures
            frame.data == data,
            frame.more == more,
    {
        Frame { data, more }
    }

    /// Whether more frames of the same message follow this one.
    pub fn get_more(&self) -> (more: bool)
        ensures
            more == self.more,
    {
        self.more
    }

    /// The bytes of the frame.
    pub fn as_bytes(&self) -> (bytes: &Vec<u8>)
        ensures
            *bytes == self.data,
    {
        &self.data
    }

    /// Gives up the frame for its bytes.
    pub fn into_bytes(self) -> (bytes: Vec<u8>)
        ensures
            bytes == self.data,
    {
        self.data
    }
}

/// An ordered sequence of frames, the unit of atomic transfer. The type
/// accepts the empty sequence as a builder seed; the send path refuses it.
#[derive(Clone, Debug, PartialEq, Eq)]
pub struct Multipart {
    inner: VecDeque<Frame>,
}

impl View for Multipart {
    type V = Seq<Frame>;

    closed spec fn view(&self) -> Seq<Frame> {
        self.inner@
    }
}

impl Multipart {
    /// The empty multipart.
    pub fn new() -> (multipart: Multipart)
        ensures
            multipart@ == Seq::<Frame>::empty(),
    {
        Multipart { inner: VecDeque::new() }
    }

    /// The frames as a double-ended queue, front first.
    pub fn into_inner(self) -> (frames: VecDeque<Frame>)
        ensures
            frames@ == self@,
    {
        self.inner
    }

    /// The frame at `index`, if there is one.
    pub fn get(&self, index: usize) -> (frame: Option<&Frame>)
        ensures
            index < self@.len() ==> frame == Some(&self@[index as int]),
            index >= self@.len() ==> frame is None,
    {
        if index < self.inner.len() {
            Some(&self.inner[index])
        } else {
            None
        }
    }

    /// Removes and returns the first frame.
    pub fn pop_front(&mut self) -> (frame: Option<Frame>)
        ensures
            old(self)@.len() == 0 ==> frame is None && final(self)@ == old(self)@,
            old(self)@.len() > 0 ==> frame == Some(old(self)@[0]) && final(self)@ == old(
                self,
            )@.drop_first(),
    {
        self.inner.pop_front()
    }

    /// Removes and returns the last frame.
    pub fn pop_back(&mut self) -> (frame: Option<Frame>)
        ensures
            old(self)@.len() == 0 ==> frame is None && final(self)@ == old(self)@,
            old(self)@.len() > 0 ==> frame == Some(old(self)@.last()) && final(self)@ == old(
                self,
            )@.drop_last(),
    {
        self.inner.pop_back()
    }

    /// Puts `frame` before all others.
    pub fn push_front(&mut self, frame: Frame)
        ensures
            final(self)@ == seq![frame] + old(self)@,
    {
        self.inner.push_front(frame)
    }

    /// Puts `frame` after all others.
    pub fn push_back(&mut self, frame: Frame)
        ensures
            final(self)@ == old(self)@.push(frame),
    {
        self.inner.push_back(frame)
    }

    /// Whether the multipart holds no frame.
    pub fn is_empty(&self) -> (empty: bool)
        ensures
            empty == (self@.len() == 0),
    {
        self.inner.len() == 0
    }

    /// The frames in order, front first.
    pub fn iter(&self) -> (iter: Iter<'_, Frame>)
        ensures
            IteratorSpec::remaining(&iter) == self@.as_ref(),
    {
        broadcast use vstd::std_specs::vecdeque::axiom_spec_iter;

        self.inner.iter()
    }

    /// The number of frames.
    pub fn len(&self) -> (len: usize)
        ensures
            len == self@.len(),
    {
        self.inner.len()
    }
}

impl Default for Multipart {
    fn default() -> (multipart: Multipart)
        ensures
            multipart@ == Seq::<Frame>::empty(),
    {
        Multipart::new()
    }
}

impl From<Frame> for Multipart {
    /// A single frame is a multipart of one.
    fn from(frame: Frame) -> (multipart: Multipart)
        ensures
            multipart@ == seq![frame],
    {
        let mut multipart = Multipart::new();
        multipart.push_back(frame);
        assert(multipart@ =~= seq![frame]);
        multipart
    }
}

impl vstd::std_specs::convert::FromSpecImpl<Frame> for Multipart {
    open spec fn obeys_from_spec() -> bool {
        false
    }

    open spec fn from_spec(frame: Frame) -> Multipart {
        arbitrary()
    }
}

impl From<Vec<Frame>> for Multipart {
    /// The frames of the vector, first to last.
    fn from(frames: Vec<Frame>) -> (multipart: Multipart)
        ensures
            multipart@ == frames@,
    {
        let ghost given = frames@;
        let mut frames = frames;
        let mut multipart = Multipart::new();
        assert(frames@ + multipart@ =~= given);
        while frames.len() > 0
            invariant
                frames@ + multipart@ == given,
            decreases frames.len(),
        {
            let ghost before = frames@;
            match frames.pop() {
                Some(frame) => {
                    multipart.push_front(frame);
                    assert(frames@ + multipart@ =~= before + multipart@.drop_first());
                },
                None => {},
            };
        }
        assert(frames@ + multipart@ =~= multipart@);
        multipart
    }
}

impl vstd::std_specs::convert::FromSpecImpl<Vec<Frame>> for Multipart {
    open spec fn obeys_from_spec() -> bool {
        false
    }

    open spec fn from_spec(frames: Vec<Frame>) -> Multipart {
        arbitrary()
    }
}

} // verus!
