//! The error kinds of the library.

use vstd::prelude::*;
use vstd::string::*;

verus! {

/// Why a timer could not be armed.
#[derive(Clone, Copy, Debug, PartialEq, Eq, Structural)]
pub enum TimerFault {
    /// The timer driver has shut down.
    Shutdown,
    /// The timer driver holds as many timers as it can.
    AtCapacity,
    /// The timer was configured with a duration it cannot represent.
    Invalid,
}

/// Everything that can go wrong between the scheduler and the socket.
#[derive(Clone, Copy, Debug, PartialEq, Eq, Structural)]
pub enum Error {
    /// The message queue failed; holds its error number unchanged.
    Zmq(i32),
    /// Registering or clearing readiness with the scheduler failed; holds the
    /// operating system's error number.
    Io(i32),
    /// A timer could not be armed.
    Timer(TimerFault),
    /// An operation was driven after it had given up its socket, or was
    /// handed an answer it had not asked for.
    Reused,
    /// A sink was used against its state machine.
    Sink,
    /// A stream was used against its state machine.
    Stream,
    /// A multipart without frames was handed to a send.
    EmptyMultipart,
}

impl Error {
    /// A short fixed description of the error kind.
    pub fn description(&self) -> (text: &'static str)
        ensures
            text@ == Error::description_of(*self),
    {
        match self {
            Error::Zmq(_) => "Error interacting with ZeroMQ",
            Error::Io(_) => "Error building socket",
            Error::Timer(_) => "Error creating timed stream",
            Error::Reused => "Operation polled after giving up its socket",
            Error::Sink => "Sink used out of order",
            Error::Stream => "Stream used out of order",
            Error::EmptyMultipart => "Multipart without frames",
        }
    }

    /// The text of `description` for each kind.
    pub open spec fn description_of(error: Error) -> Seq<char> {
        match error {
            Error::Zmq(_) => "Error interacting with ZeroMQ"@,
            Error::Io(_) => "Error building socket"@,
            Error::Timer(_) => "Error creating timed stream"@,
            Error::Reused => "Operation polled after giving up its socket"@,
            Error::Sink => "Sink used out of order"@,
            Error::Stream => "Stream used out of order"@,
            Error::EmptyMultipart => "Multipart without frames"@,
        }
    }

    /// Whether the error came from outside the library: from the message
    /// queue, the scheduler or a timer.
    pub open spec fn is_outside(self) -> bool {
        self is Zmq || self is Io || self is Timer
    }
}

} // verus!
