//! TCP streams and listeners: their options, and what their methods do.
//!
//! The values here decide; they own no socket. A method that waits gives the [`Operation`] to be
//! run on the socket, one that creates a socket the [`Setup`] to be gone through, and one that
//! is given several addresses the [`AddressSearch`] among them.
use crate::operation::{Need, Operation};
use crate::readiness::{Direction, ready_set};
use crate::search::{AddressSearch, SearchStep};
use crate::setup::{Origin, RegistrationPlan, Setup, Task, setup_succeeds_with_every_task};
use std::io;
use std::time::Duration;
use vstd::prelude::*;

verus! {

/// The options of a TCP stream, shared by its duplicates.
#[derive(Clone, Copy, Debug)]
pub struct TcpStreamOptions {
    /// How long a read waits at most; `None` and zero set no limit.
    pub read_timeout: Option<Duration>,
    /// How long a write waits at most; `None` and zero set no limit.
    pub write_timeout: Option<Duration>,
    /// Whether reads and writes give up rather than wait.
    pub nonblocking: bool,
}

/// A TCP stream between a local and a remote socket.
///
/// The [read](TcpStream::read) and [write](TcpStream::write) methods can be interrupted
/// using the [`Canceller`](crate::canceller::Canceller) object created with the
/// stream.
#[derive(Clone, Copy, Debug)]
pub struct TcpStream {
    /// Its options.
    pub options: TcpStreamOptions,
}

/// The options of a TCP listener, shared by its duplicates.
#[derive(Clone, Copy, Debug)]
pub struct TcpListenerOptions {
    /// How long an accept waits at most.
    pub timeout: Option<Duration>,
    /// Whether accepting gives up rather than wait.
    pub nonblocking: bool,
}

/// A TCP socket server, listening for connections.
///
/// The [accept](TcpListener::accept) and the [incoming](TcpListener::incoming) methods can be
/// interrupted using the [`Canceller`](crate::canceller::Canceller) object
/// created with the socket.
#[derive(Clone, Copy, Debug)]
pub struct TcpListener {
    /// Its options.
    pub options: TcpListenerOptions,
}

/// An iterator that infinitely [accept](TcpListener::accept)s
/// connections on a TcpListener.
///
/// It is created by the [incoming](TcpListener::incoming) method.
#[derive(Clone, Copy, Debug)]
pub struct Incoming<'a> {
    /// The listener whose connections it accepts.
    pub listener: &'a TcpListener,
}

impl TcpStream {
    /// The setup of a stream that is connected.
    pub open spec fn connecting() -> Setup {
        Setup::starting(Origin::Connected, true, false)
    }

    /// The setup of a duplicate of a stream.
    pub open spec fn duplicating() -> Setup {
        Setup::starting(Origin::Opened, true, true)
    }

    /// The operation that a read runs.
    pub open spec fn reading(self) -> Operation {
        Operation {
            need: Need::Readable,
            nonblocking: self.options.nonblocking,
            timeout: self.options.read_timeout,
        }
    }

    /// The operation that a write runs.
    pub open spec fn writing(self) -> Operation {
        Operation {
            need: Need::Writable,
            nonblocking: self.options.nonblocking,
            timeout: self.options.write_timeout,
        }
    }

    /// The operation that a flush runs: it waits without limit, whatever the options.
    pub open spec fn flushing() -> Operation {
        Operation { need: Need::Writable, nonblocking: false, timeout: None }
    }

    /// A new stream: without timeouts, in blocking mode.
    pub fn new() -> (stream: TcpStream)
        ensures
            stream.options == (TcpStreamOptions {
                read_timeout: None,
                write_timeout: None,
                nonblocking: false,
            }),
    {
        TcpStream {
            options: TcpStreamOptions {
                read_timeout: None,
                write_timeout: None,
                nonblocking: false,
            },
        }
    }

    /// Sets up a stream that is connected to one address.
    pub fn simple_connect() -> (setup: Setup)
        ensures
            setup == TcpStream::connecting(),
            setup.well_formed(),
    {
        Setup::new(Origin::Connected, true, false)
    }

    /// Creates a new TCP stream with an object used to cancel read/write
    /// operations, and connects it to a remote address: each address is tried in turn with
    /// [`TcpStream::simple_connect`].
    pub fn connect<A, T>(addresses: Result<Vec<A>, io::Error>) -> (step: SearchStep<A, T>)
        ensures
            step.starts(addresses),
            step matches SearchStep::Try(search) ==> search.well_formed(),
    {
        AddressSearch::start(addresses)
    }

    /// Creates a new independently owned handle to the underlying socket.
    /// The cancellers associated with the original
    /// object and its clone are also independent.
    pub fn try_clone() -> (setup: Setup)
        ensures
            setup == TcpStream::duplicating(),
            setup.well_formed(),
    {
        Setup::new(Origin::Opened, true, true)
    }

    /// Sets the read timeout: a read that has waited so long in blocking mode times out. A
    /// timeout of zero sets no limit.
    pub fn set_read_timeout(&mut self, duration: Option<Duration>) -> (r: Result<(), io::Error>)
        ensures
            r is Ok,
            final(self).options == (TcpStreamOptions {
                read_timeout: duration,
                ..old(self).options
            }),
    {
        self.options.read_timeout = duration;
        Ok(())
    }

    /// Sets the write timeout: a write that has waited so long in blocking mode times out. A
    /// timeout of zero sets no limit.
    pub fn set_write_timeout(&mut self, duration: Option<Duration>) -> (r: Result<(), io::Error>)
        ensures
            r is Ok,
            final(self).options == (TcpStreamOptions {
                write_timeout: duration,
                ..old(self).options
            }),
    {
        self.options.write_timeout = duration;
        Ok(())
    }

    /// Gets the read timeout.
    pub fn read_timeout(&self) -> (r: Result<Option<Duration>, io::Error>)
        ensures
            r == Ok::<Option<Duration>, io::Error>(self.options.read_timeout),
    {
        Ok(self.options.read_timeout)
    }

    /// Gets the write timeout.
    pub fn write_timeout(&self) -> (r: Result<Option<Duration>, io::Error>)
        ensures
            r == Ok::<Option<Duration>, io::Error>(self.options.write_timeout),
    {
        Ok(self.options.write_timeout)
    }

    /// Moves this TCP stream into or out of nonblocking mode.
    pub fn set_nonblocking(&mut self, nonblocking: bool) -> (r: Result<(), io::Error>)
        ensures
            r is Ok,
            final(self).options == (TcpStreamOptions { nonblocking, ..old(self).options }),
    {
        self.options.nonblocking = nonblocking;
        Ok(())
    }

    /// Reads data from the socket. This operation can be cancelled
    /// by the associated canceller.
    pub fn read(&self) -> (op: Operation)
        ensures
            op == self.reading(),
    {
        Operation {
            need: Need::Readable,
            nonblocking: self.options.nonblocking,
            timeout: self.options.read_timeout,
        }
    }

    /// Writes data to the socket. This operation can be cancelled
    /// by the associated canceller.
    pub fn write(&self) -> (op: Operation)
        ensures
            op == self.writing(),
    {
        Operation {
            need: Need::Writable,
            nonblocking: self.options.nonblocking,
            timeout: self.options.write_timeout,
        }
    }

    /// Flushes the socket, once it can be written to. This operation can be cancelled
    /// by the associated canceller.
    pub fn flush() -> (op: Operation)
        ensures
            op == TcpStream::flushing(),
    {
        Operation { need: Need::Writable, nonblocking: false, timeout: None }
    }
}

impl TcpListener {
    /// The setup of a listener that is bound.
    pub open spec fn binding() -> Setup {
        Setup::starting(Origin::Opened, false, false)
    }

    /// The setup of a duplicate of a listener.
    pub open spec fn duplicating() -> Setup {
        Setup::starting(Origin::Opened, false, true)
    }

    /// The setup of a stream that is accepted.
    pub open spec fn establishing() -> Setup {
        Setup::starting(Origin::Accepted, true, false)
    }

    /// The operation that an accept runs: any event of the listener will do.
    pub open spec fn accepting(self) -> Operation {
        Operation {
            need: Need::Any,
            nonblocking: self.options.nonblocking,
            timeout: self.options.timeout,
        }
    }

    /// A new listener: without timeout, in blocking mode.
    pub fn new() -> (listener: TcpListener)
        ensures
            listener.options == (TcpListenerOptions { timeout: None, nonblocking: false }),
    {
        TcpListener { options: TcpListenerOptions { timeout: None, nonblocking: false } }
    }

    /// Sets up a listener that is bound to one address.
    pub fn simple_bind() -> (setup: Setup)
        ensures
            setup == TcpListener::binding(),
            setup.well_formed(),
    {
        Setup::new(Origin::Opened, false, false)
    }

    /// Creates a new [`TcpListener`] which will be
    /// bound to the specified address, together with an object that allows
    /// cancelling [accept](TcpListener::accept) operations: each address is tried in turn with
    /// [`TcpListener::simple_bind`].
    pub fn bind<A, T>(addresses: Result<Vec<A>, io::Error>) -> (step: SearchStep<A, T>)
        ensures
            step.starts(addresses),
            step matches SearchStep::Try(search) ==> search.well_formed(),
    {
        AddressSearch::start(addresses)
    }

    /// Creates a new independently owned handle to the underlying socket.
    pub fn try_clone() -> (setup: Setup)
        ensures
            setup == TcpListener::duplicating(),
            setup.well_formed(),
    {
        Setup::new(Origin::Opened, false, true)
    }

    /// Accepts a new incoming connection from this listener.
    ///
    /// This method can be cancelled by the associated canceller. The connection that it
    /// performs on is set up with [`TcpListener::establish`].
    pub fn accept(&self) -> (op: Operation)
        ensures
            op == self.accepting(),
    {
        Operation {
            need: Need::Any,
            nonblocking: self.options.nonblocking,
            timeout: self.options.timeout,
        }
    }

    /// Sets up the stream of a connection that this listener accepts.
    pub fn establish() -> (setup: Setup)
        ensures
            setup == TcpListener::establishing(),
            setup.well_formed(),
    {
        Setup::new(Origin::Accepted, true, false)
    }

    /// Returns an iterator over the connections being received by this listener.
    ///
    /// The iteration can be cancelled by the associated canceller. If the iteration is
    /// cancelled, the [next](Incoming::next) method gives an operation that ends in an
    /// error that can be identified with [`crate::error::is_cancelled`].
    pub fn incoming(&self) -> (incoming: Incoming)
        ensures
            *incoming.listener == *self,
    {
        Incoming { listener: self }
    }

    /// Moves this TCP connection into or out of non blocking mode.
    pub fn set_nonblocking(&mut self, nonblocking: bool) -> (r: Result<(), io::Error>)
        ensures
            r is Ok,
            final(self).options == (TcpListenerOptions { nonblocking, ..old(self).options }),
    {
        self.options.nonblocking = nonblocking;
        Ok(())
    }
}

impl<'a> Incoming<'a> {
    /// The next connection to accept; there always is one.
    pub fn next(&mut self) -> (op: Option<Operation>)
        ensures
            op == Some(old(self).listener.accepting()),
            *final(self) == *old(self),
    {
        Some(self.listener.accept())
    }
}

/// A stream is registered for whatever its reads, writes and flushes wait for, however it was
/// set up: connected, duplicated or accepted.
pub proof fn stream_is_registered_for_its_operations(stream: TcpStream, plan: RegistrationPlan)
    requires
        plan.for_socket(TcpStream::connecting().writable),
    ensures
        plan.for_socket(TcpStream::duplicating().writable),
        plan.for_socket(TcpListener::establishing().writable),
        stream.reading().met_by(ready_set(plan.interest)),
        stream.writing().met_by(ready_set(plan.interest)),
        TcpStream::flushing().met_by(ready_set(plan.interest)),
{
}

/// A listener is registered for what its accepts wait for, however it was set up: bound or
/// duplicated.
pub proof fn listener_is_registered_for_accepting(listener: TcpListener, plan: RegistrationPlan)
    requires
        plan.for_socket(TcpListener::binding().writable),
    ensures
        plan.for_socket(TcpListener::duplicating().writable),
        listener.accepting().met_by(ready_set(plan.interest)),
{
    assert(ready_set(plan.interest).contains(Direction::Readable));
}

/// A stream is set up only once it is connected: if awaiting the connection fails, so does the
/// setup, and it succeeds exactly if every task does.
pub proof fn connected_stream_has_its_connection(results: Seq<Result<(), io::Error>>)
    requires
        results.len() == TcpStream::connecting().remaining().len(),
    ensures
        TcpStream::connecting().remaining().last() == Task::AwaitConnection,
        results.last() is Err ==> TcpStream::connecting().result(results) is Err,
        TcpStream::connecting().result(results) is Ok <==> forall|k: int|
            0 <= k < results.len() ==> (#[trigger] results[k]) is Ok,
{
    let setup = TcpStream::connecting();
    assert(setup.remaining() =~= Origin::Connected.tasks());
    setup_succeeds_with_every_task(setup, results);
}

} // verus!
