//! The decisions behind cancellable synchronous network I/O.
//!
//! A TCP stream, a TCP listener or a UDP socket is polled together with a stop registration, so
//! that a [`Canceller`] can cut short whatever operation is waiting on it. This library decides:
//! how a socket is set up ([`setup`]), which address it is connected or bound to ([`search`]),
//! what a waiting operation does after each poll ([`operation`]), how a cancelled operation is
//! told from a failed one ([`error`]), and what a socket shares with its duplicates
//! ([`shared`]). What its calls promise together is stated in [`laws`]. It does no network I/O of
//! its own: polls, reads and writes are made by whoever runs it.
pub mod canceller;
pub mod error;
pub mod laws;
pub mod operation;
pub mod readiness;
pub mod search;
pub mod setup;
pub mod shared;
pub mod tcp;
pub mod udp;

pub use canceller::Canceller;
pub use error::is_cancelled;
pub use tcp::{Incoming, TcpListener, TcpStream};
pub use udp::UdpSocket;
