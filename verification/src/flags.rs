//! Flag bits of the message queue: the send flags that place a frame inside
//! its multipart, and the event mask that reports what a socket can do.

use vstd::prelude::*;

verus! {

/// The send flag "do not block".
pub const DONTWAIT: i32 = 1;

/// The send flag "more frames of this message follow".
pub const SNDMORE: i32 = 2;

/// The event mask bit "a frame can be read".
pub const POLLIN: i16 = 1;

/// The event mask bit "a frame can be written".
pub const POLLOUT: i16 = 2;

/// Where a frame stands in its multipart. The last frame is sent without the
/// "more frames follow" flag, every other frame with it.
#[derive(Clone, Copy, Debug, PartialEq, Eq, Structural)]
pub enum MsgPlace {
    Nth,
    Last,
}

/// The direction of a transfer through the socket.
#[derive(Clone, Copy, Debug, PartialEq, Eq, Structural)]
pub enum Direction {
    Send,
    Receive,
}

/// Reads `zmq::DONTWAIT`. The contract claims that the wrapped library
/// exports the value 1 under that name.
#[verifier::external_body]
fn dontwait() -> (flag: i32)
    ensures
        flag == DONTWAIT,
{
    zmq::DONTWAIT
}

/// Reads `zmq::SNDMORE`. The contract claims that the wrapped library exports
/// the value 2 under that name.
#[verifier::external_body]
fn sndmore() -> (flag: i32)
    ensures
        flag == SNDMORE,
{
    zmq::SNDMORE
}

/// Reads the bits of `zmq::POLLIN`. The contract claims that they are the
/// single bit 1.
#[verifier::external_body]
fn pollin() -> (bit: i16)
    ensures
        bit == POLLIN,
{
    zmq::POLLIN.bits()
}

/// Reads the bits of `zmq::POLLOUT`. The contract claims that they are the
/// single bit 2.
#[verifier::external_body]
fn pollout() -> (bit: i16)
    ensures
        bit == POLLOUT,
{
    zmq::POLLOUT.bits()
}

/// The place of the front frame of a multipart of `len` frames.
pub open spec fn place_of(len: nat) -> MsgPlace {
    if len > 1 {
        MsgPlace::Nth
    } else {
        MsgPlace::Last
    }
}

/// The flags a frame at `place` is sent with: always non-blocking, and with
/// "more follows" unless it is the last.
pub open spec fn flags_of(place: MsgPlace) -> i32 {
    match place {
        MsgPlace::Nth => DONTWAIT | SNDMORE,
        MsgPlace::Last => DONTWAIT,
    }
}

/// Whether `flags` tell the message queue that more frames follow.
pub open spec fn more_follows(flags: i32) -> bool {
    flags & SNDMORE != 0
}

/// Whether `mask` reports the socket ready for `direction`.
pub open spec fn signalled(direction: Direction, mask: i16) -> bool {
    match direction {
        Direction::Send => mask & POLLOUT != 0,
        Direction::Receive => mask & POLLIN != 0,
    }
}

/// Every frame is sent non-blocking, and "more follows" is set on exactly the
/// frames that are not last.
pub proof fn lemma_flags_of(place: MsgPlace)
    ensures
        flags_of(place) & DONTWAIT != 0,
        more_follows(flags_of(place)) <==> place == MsgPlace::Nth,
        flags_of(MsgPlace::Nth) == 3,
        flags_of(MsgPlace::Last) == 1,
{
    assert((1i32 | 2i32) == 3i32) by (bit_vector);
    assert(3i32 & 1i32 != 0) by (bit_vector);
    assert(3i32 & 2i32 != 0) by (bit_vector);
    assert(1i32 & 1i32 != 0) by (bit_vector);
    assert(1i32 & 2i32 == 0) by (bit_vector);
}

/// The place of the front frame when `len` frames are left to send.
pub fn front_place(len: usize) -> (place: MsgPlace)
    ensures
        place == place_of(len as nat),
{
    if len > 1 {
        MsgPlace::Nth
    } else {
        MsgPlace::Last
    }
}

/// The flags to send a frame at `place` with.
pub fn send_flags(place: MsgPlace) -> (flags: i32)
    ensures
        flags == flags_of(place),
{
    match place {
        MsgPlace::Nth => dontwait() | sndmore(),
        MsgPlace::Last => dontwait(),
    }
}

/// The flags to receive a frame with: non-blocking.
pub fn receive_flags() -> (flags: i32)
    ensures
        flags == DONTWAIT,
{
    dontwait()
}

/// Whether the event mask reports the socket ready for `direction`.
pub fn is_signalled(direction: Direction, mask: i16) -> (ready: bool)
    ensures
        ready == signalled(direction, mask),
{
    match direction {
        Direction::Send => mask & pollout() != 0,
        Direction::Receive => mask & pollin() != 0,
    }
}

} // verus!
