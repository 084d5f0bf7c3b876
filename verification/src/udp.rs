//! UDP sockets: their options, and what their methods do.
//!
//! As with [TCP](crate::tcp), the values here decide and own no socket.
use crate::operation::{Need, Operation};
use crate::readiness::ready_set;
use crate::search::{AddressSearch, SearchStep};
use crate::setup::{Origin, RegistrationPlan, Setup};
use std::io;
use std::time::Duration;
use vstd::prelude::*;

verus! {

/// The options of a UDP socket, shared by its duplicates.
#[derive(Clone, Copy, Debug)]
pub struct UdpSocketOptions {
    /// How long a receive waits at most; `None` and zero set no limit.
    pub read_timeout: Option<Duration>,
    /// How long a send waits at most; `None` and zero set no limit.
    pub write_timeout: Option<Duration>,
    /// Whether receives and sends give up rather than wait.
    pub nonblocking: bool,
}

/// An UDP socket bound to an address.
///
/// The [recv_from](UdpSocket::recv_from),
/// [send_to](UdpSocket::send_to),
/// [recv](UdpSocket::recv), and
/// [send](UdpSocket::send) can be interrupted using the
/// [`Canceller`](crate::canceller::Canceller) object created with the socket.
#[derive(Clone, Copy, Debug)]
pub struct UdpSocket {
    /// Its options.
    pub options: UdpSocketOptions,
}

impl UdpSocket {
    /// The setup of a socket that is bound.
    pub open spec fn binding() -> Setup {
        Setup::starting(Origin::Opened, true, false)
    }

    /// The setup of a duplicate of a socket.
    pub open spec fn duplicating() -> Setup {
        Setup::starting(Origin::Opened, true, true)
    }

    /// The operation that either way of receiving runs.
    pub open spec fn receiving(self) -> Operation {
        Operation {
            need: Need::Readable,
            nonblocking: self.options.nonblocking,
            timeout: self.options.read_timeout,
        }
    }

    /// The operation that either way of sending runs.
    pub open spec fn sending(self) -> Operation {
        Operation {
            need: Need::Writable,
            nonblocking: self.options.nonblocking,
            timeout: self.options.write_timeout,
        }
    }

    /// A new socket: without timeouts, in blocking mode.
    pub fn new() -> (socket: UdpSocket)
        ensures
            socket.options == (UdpSocketOptions {
                read_timeout: None,
                write_timeout: None,
                nonblocking: false,
            }),
    {
        UdpSocket {
            options: UdpSocketOptions {
                read_timeout: None,
                write_timeout: None,
                nonblocking: false,
            },
        }
    }

    /// Sets up a socket that is bound to one address.
    pub fn simple_bind() -> (setup: Setup)
        ensures
            setup == UdpSocket::binding(),
            setup.well_formed(),
    {
        Setup::new(Origin::Opened, true, false)
    }

    /// Creates an UDP socket from the given address, together with an
    /// object that can be used to cancel send/recv operations: each address is tried in turn
    /// with [`UdpSocket::simple_bind`].
    pub fn bind<A, T>(addresses: Result<Vec<A>, io::Error>) -> (step: SearchStep<A, T>)
        ensures
            step.starts(addresses),
            step matches SearchStep::Try(search) ==> search.well_formed(),
    {
        AddressSearch::start(addresses)
    }

    /// Receives a single datagram message from the socket.
    ///
    /// This method can be cancelled by the associated canceller.
    pub fn recv_from(&self) -> (op: Operation)
        ensures
            op == self.receiving(),
    {
        Operation {
            need: Need::Readable,
            nonblocking: self.options.nonblocking,
            timeout: self.options.read_timeout,
        }
    }

    /// Sends a single datagram message to the given address.
    ///
    /// This method can be cancelled by the associated canceller.
    pub fn send_to(&self) -> (op: Operation)
        ensures
            op == self.sending(),
    {
        Operation {
            need: Need::Writable,
            nonblocking: self.options.nonblocking,
            timeout: self.options.write_timeout,
        }
    }

    /// Creates a new independently owned handle to the underlying socket.
    pub fn try_clone() -> (setup: Setup)
        ensures
            setup == UdpSocket::duplicating(),
            setup.well_formed(),
    {
        Setup::new(Origin::Opened, true, true)
    }

    /// Sets the read timeout to the timeout specified: a receive that has waited so long in
    /// blocking mode times out. A timeout of zero sets no limit.
    pub fn set_read_timeout(&mut self, duration: Option<Duration>) -> (r: Result<(), io::Error>)
        ensures
            r is Ok,
            final(self).options == (UdpSocketOptions {
                read_timeout: duration,
                ..old(self).options
            }),
    {
        self.options.read_timeout = duration;
        Ok(())
    }

    /// Sets the write timeout to the timeout specified: a send that has waited so long in
    /// blocking mode times out. A timeout of zero sets no limit.
    pub fn set_write_timeout(&mut self, duration: Option<Duration>) -> (r: Result<(), io::Error>)
        ensures
            r is Ok,
            final(self).options == (UdpSocketOptions {
                write_timeout: duration,
                ..old(self).options
            }),
    {
        self.options.write_timeout = duration;
        Ok(())
    }

    /// Returns the read timeout of this socket.
    pub fn read_timeout(&self) -> (r: Result<Option<Duration>, io::Error>)
        ensures
            r == Ok::<Option<Duration>, io::Error>(self.options.read_timeout),
    {
        Ok(self.options.read_timeout)
    }

    /// Returns the write timeout of this socket.
    pub fn write_timeout(&self) -> (r: Result<Option<Duration>, io::Error>)
        ensures
            r == Ok::<Option<Duration>, io::Error>(self.options.write_timeout),
    {
        Ok(self.options.write_timeout)
    }

    /// Connects this socket to a remote address: each address is tried in turn.
    pub fn connect<A, T>(addresses: Result<Vec<A>, io::Error>) -> (step: SearchStep<A, T>)
        ensures
            step.starts(addresses),
            step matches SearchStep::Try(search) ==> search.well_formed(),
    {
        AddressSearch::start(addresses)
    }

    /// Moves this socket into or out of non blocking mode.
    pub fn set_nonblocking(&mut self, nonblocking: bool) -> (r: Result<(), io::Error>)
        ensures
            r is Ok,
            final(self).options == (UdpSocketOptions { nonblocking, ..old(self).options }),
    {
        self.options.nonblocking = nonblocking;
        Ok(())
    }

    /// Receives a single datagram from the connected remote address.
    ///
    /// This method can be cancelled by the associated canceller.
    pub fn recv(&self) -> (op: Operation)
        ensures
            op == self.receiving(),
    {
        self.recv_from()
    }

    /// Sends a single datagram to the connected remote address.
    ///
    /// This method can be cancelled by the associated canceller.
    pub fn send(&self) -> (op: Operation)
        ensures
            op == self.sending(),
    {
        self.send_to()
    }
}

/// A socket is registered for whatever its receives and sends wait for, however it was set up:
/// bound or duplicated.
pub proof fn socket_is_registered_for_its_operations(socket: UdpSocket, plan: RegistrationPlan)
    requires
        plan.for_socket(UdpSocket::binding().writable),
    ensures
        plan.for_socket(UdpSocket::duplicating().writable),
        socket.receiving().met_by(ready_set(plan.interest)),
        socket.sending().met_by(ready_set(plan.interest)),
{
}

} // verus!
