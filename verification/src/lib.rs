//! Readiness adapter between a multi-frame message queue socket and a
//! cooperative task scheduler, written as verified state machines.


pub mod adapter;
pub mod combinators;
pub mod config;
pub mod error;
pub mod flags;
pub mod future;
pub mod message;
pub mod prelude;
pub mod roles;
pub mod service;
pub mod sink;
pub mod sink_stream;
pub mod socket;
pub mod stream;
pub mod wire;

pub use self::error::Error;
pub use self::message::{Frame, Multipart};
pub use self::roles::{Dealer, Pair, Pub, Pull, Push, Rep, Req, Router, Sub, Xpub, Xsub};
pub use self::socket::Socket;

