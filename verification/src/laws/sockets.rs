//! Laws of sockets: what their options do to their operations, and what these act on.
use crate::error::{ErrorKind, error_kind};
use crate::laws::operations::{mode_decides_about_waiting, ready_socket_is_acted_on};
use crate::operation::{Need, Operation, Step, duration_nanos};
use crate::readiness::{OBJECT_TOKEN, STOP_TOKEN, events_view};
use crate::tcp::{Incoming, TcpListener, TcpStream};
use crate::udp::UdpSocket;
use std::io;
use std::time::Duration;
use vstd::prelude::*;

verus! {

/// `op` is what one of a UDP socket's receives gives.
pub open spec fn receives(socket: UdpSocket, op: Operation) -> bool {
    ||| call_ensures(UdpSocket::recv_from, (&socket,), op)
    ||| call_ensures(UdpSocket::recv, (&socket,), op)
}

/// `op` is what one of a UDP socket's sends gives.
pub open spec fn sends(socket: UdpSocket, op: Operation) -> bool {
    ||| call_ensures(UdpSocket::send_to, (&socket,), op)
    ||| call_ensures(UdpSocket::send, (&socket,), op)
}

/// After a UDP socket is moved into nonblocking mode, whatever its timeouts, none of its receives
/// and sends waits: their first poll takes no time and decides. After it is moved out of it, they
/// wait as long as they may, and none gives up as one that would block.
pub proof fn udp_socket_waits_as_its_mode_says(
    socket: &mut UdpSocket,
    nonblocking: bool,
    set: Result<(), io::Error>,
    op: Operation,
    time: Option<Duration>,
    polled: Result<usize, io::Error>,
    events: mio::Events,
    elapsed: Duration,
    step: Step,
)
    requires
        call_ensures(UdpSocket::set_nonblocking, (socket, nonblocking), set),
        receives(*final(socket), op) || sends(*final(socket), op),
        call_ensures(Operation::wait_time, (&op,), time),
        call_ensures(Operation::resume, (&op, polled, &events, elapsed), step),
    ensures
        set is Ok,
        op.nonblocking == nonblocking,
        nonblocking ==> time is Some && duration_nanos(time->Some_0) == 0 && !(step is Wait),
        !nonblocking ==> time == op.timeout,
        !nonblocking && polled is Ok && step is Fail ==> error_kind(step->Fail_0)
            != ErrorKind::WouldBlock,
{
    mode_decides_about_waiting(op, time, polled, events, elapsed, step);
}

/// After a TCP stream is moved into nonblocking mode, whatever its timeouts, neither its reads nor
/// its writes wait: their first poll takes no time and decides. After it is moved out of it, they
/// wait as long as they may, and none gives up as one that would block.
pub proof fn tcp_stream_waits_as_its_mode_says(
    stream: &mut TcpStream,
    nonblocking: bool,
    set: Result<(), io::Error>,
    op: Operation,
    time: Option<Duration>,
    polled: Result<usize, io::Error>,
    events: mio::Events,
    elapsed: Duration,
    step: Step,
)
    requires
        call_ensures(TcpStream::set_nonblocking, (stream, nonblocking), set),
        call_ensures(TcpStream::read, (&*final(stream),), op) || call_ensures(
            TcpStream::write,
            (&*final(stream),),
            op,
        ),
        call_ensures(Operation::wait_time, (&op,), time),
        call_ensures(Operation::resume, (&op, polled, &events, elapsed), step),
    ensures
        set is Ok,
        op.nonblocking == nonblocking,
        nonblocking ==> time is Some && duration_nanos(time->Some_0) == 0 && !(step is Wait),
        !nonblocking ==> time == op.timeout,
        !nonblocking && polled is Ok && step is Fail ==> error_kind(step->Fail_0)
            != ErrorKind::WouldBlock,
{
    mode_decides_about_waiting(op, time, polled, events, elapsed, step);
}

/// After a TCP listener is moved into nonblocking mode, none of its accepts waits: their first poll
/// takes no time and decides. After it is moved out of it, they wait as long as they may, and none
/// gives up as one that would block.
pub proof fn tcp_listener_waits_as_its_mode_says(
    listener: &mut TcpListener,
    nonblocking: bool,
    set: Result<(), io::Error>,
    op: Operation,
    time: Option<Duration>,
    polled: Result<usize, io::Error>,
    events: mio::Events,
    elapsed: Duration,
    step: Step,
)
    requires
        call_ensures(TcpListener::set_nonblocking, (listener, nonblocking), set),
        call_ensures(TcpListener::accept, (&*final(listener),), op),
        call_ensures(Operation::wait_time, (&op,), time),
        call_ensures(Operation::resume, (&op, polled, &events, elapsed), step),
    ensures
        set is Ok,
        op.nonblocking == nonblocking,
        nonblocking ==> time is Some && duration_nanos(time->Some_0) == 0 && !(step is Wait),
        !nonblocking ==> time == op.timeout,
        !nonblocking && polled is Ok && step is Fail ==> error_kind(step->Fail_0)
            != ErrorKind::WouldBlock,
{
    mode_decides_about_waiting(op, time, polled, events, elapsed, step);
}

/// Whatever reads acts on the first poll that reports its socket readable, whether or not it is
/// writable too; whatever writes, on the first that reports it writable, whether or not it is
/// readable too; and an accept on the first that reports anything of its listener. A stop alone
/// comes before that; the mode and the timeouts have no part in it.
pub proof fn ready_sockets_are_acted_on(
    stream: TcpStream,
    listener: TcpListener,
    socket: UdpSocket,
    op: Operation,
    n: usize,
    events: mio::Events,
    elapsed: Duration,
    step: Step,
    i: int,
)
    requires
        0 <= i < events_view(events).len(),
        events_view(events)[i].token == OBJECT_TOKEN,
        forall|j: int|
            0 <= j < events_view(events).len() ==> (#[trigger] events_view(events)[j]).token
                != STOP_TOKEN,
        (events_view(events)[i].readable && (call_ensures(TcpStream::read, (&stream,), op)
            || receives(socket, op))) || (events_view(events)[i].writable && (call_ensures(
            TcpStream::write,
            (&stream,),
            op,
        ) || call_ensures(TcpStream::flush, (), op) || sends(socket, op))) || call_ensures(
            TcpListener::accept,
            (&listener,),
            op,
        ),
        call_ensures(Operation::resume, (&op, Ok::<usize, io::Error>(n), &events, elapsed), step),
    ensures
        step is Perform,
{
    ready_socket_is_acted_on(op, Ok(n), events, elapsed, step, i);
}

/// Every operation of a socket can be begun, and every option set and read, at any time.
pub proof fn sockets_can_always_be_used(
    stream: &mut TcpStream,
    listener: &mut TcpListener,
    socket: &mut UdpSocket,
    incoming: &mut Incoming<'_>,
    duration: Option<Duration>,
    nonblocking: bool,
)
    ensures
        call_requires(TcpStream::read, (&*old(stream),)),
        call_requires(TcpStream::write, (&*old(stream),)),
        call_requires(TcpStream::flush, ()),
        call_requires(TcpStream::read_timeout, (&*old(stream),)),
        call_requires(TcpStream::write_timeout, (&*old(stream),)),
        call_requires(TcpStream::set_read_timeout, (old(stream), duration)),
        call_requires(TcpStream::set_write_timeout, (old(stream), duration)),
        call_requires(TcpStream::set_nonblocking, (old(stream), nonblocking)),
        call_requires(TcpListener::accept, (&*old(listener),)),
        call_requires(TcpListener::incoming, (&*old(listener),)),
        call_requires(TcpListener::set_nonblocking, (old(listener), nonblocking)),
        call_requires(Incoming::next, (old(incoming),)),
        call_requires(UdpSocket::recv_from, (&*old(socket),)),
        call_requires(UdpSocket::recv, (&*old(socket),)),
        call_requires(UdpSocket::send_to, (&*old(socket),)),
        call_requires(UdpSocket::send, (&*old(socket),)),
        call_requires(UdpSocket::read_timeout, (&*old(socket),)),
        call_requires(UdpSocket::write_timeout, (&*old(socket),)),
        call_requires(UdpSocket::set_read_timeout, (old(socket), duration)),
        call_requires(UdpSocket::set_write_timeout, (old(socket), duration)),
        call_requires(UdpSocket::set_nonblocking, (old(socket), nonblocking)),
{
}

/// Receives wait to read and go by the read timeout; sends wait to write and go by the write
/// timeout. The mode holds for both.
pub proof fn udp_operations_go_by_their_own_timeout(
    socket: UdpSocket,
    receive: Operation,
    send: Operation,
)
    requires
        receives(socket, receive),
        sends(socket, send),
    ensures
        receive.need == Need::Readable,
        receive.timeout == socket.options.read_timeout,
        receive.nonblocking == socket.options.nonblocking,
        send.need == Need::Writable,
        send.timeout == socket.options.write_timeout,
        send.nonblocking == socket.options.nonblocking,
{
}

/// Reads wait to read and go by the read timeout; writes wait to write and go by the write
/// timeout. The mode holds for both. A flush waits to write, without limit, whatever the options.
pub proof fn tcp_operations_go_by_their_own_timeout(
    stream: TcpStream,
    read: Operation,
    write: Operation,
    flush: Operation,
)
    requires
        call_ensures(TcpStream::read, (&stream,), read),
        call_ensures(TcpStream::write, (&stream,), write),
        call_ensures(TcpStream::flush, (), flush),
    ensures
        read.need == Need::Readable,
        read.timeout == stream.options.read_timeout,
        read.nonblocking == stream.options.nonblocking,
        write.need == Need::Writable,
        write.timeout == stream.options.write_timeout,
        write.nonblocking == stream.options.nonblocking,
        flush.need == Need::Writable,
        flush.timeout is None,
        !flush.nonblocking,
{
}

/// An accept takes any event of its listener, and goes by its timeout and its mode. The iterator
/// over a listener's connections accepts again and again: it never ends, and stays what it is.
pub proof fn listener_accepts_without_end(
    listener: TcpListener,
    accept: Operation,
    created: Incoming<'_>,
    incoming: &mut Incoming<'_>,
    next: Option<Operation>,
)
    requires
        call_ensures(TcpListener::accept, (&listener,), accept),
        call_ensures(TcpListener::incoming, (&listener,), created),
        *old(incoming) == created,
        call_ensures(Incoming::next, (incoming,), next),
    ensures
        accept.need == Need::Any,
        accept.timeout == listener.options.timeout,
        accept.nonblocking == listener.options.nonblocking,
        next == Some(accept),
        *final(incoming) == created,
{
}

/// Setting the read timeout of a UDP socket always succeeds, with any duration or none. It is
/// read back, and its receives go by it from then on; its write timeout and its mode are not
/// touched.
pub proof fn udp_socket_keeps_its_read_timeout(
    socket: &mut UdpSocket,
    duration: Option<Duration>,
    set: Result<(), io::Error>,
    read_timeout: Result<Option<Duration>, io::Error>,
    write_timeout: Result<Option<Duration>, io::Error>,
    read: Operation,
    write: Operation,
)
    requires
        call_ensures(UdpSocket::set_read_timeout, (socket, duration), set),
        call_ensures(UdpSocket::read_timeout, (&*final(socket),), read_timeout),
        call_ensures(UdpSocket::write_timeout, (&*final(socket),), write_timeout),
        receives(*final(socket), read),
        sends(*final(socket), write),
    ensures
        set is Ok,
        read_timeout == Ok::<Option<Duration>, io::Error>(duration),
        write_timeout == Ok::<Option<Duration>, io::Error>(old(socket).options.write_timeout),
        read.timeout == duration,
        write.timeout == old(socket).options.write_timeout,
        read.nonblocking == old(socket).options.nonblocking,
        write.nonblocking == old(socket).options.nonblocking,
{
}

/// Setting the write timeout of a UDP socket always succeeds, with any duration or none. It is
/// read back, and its sends go by it from then on; its read timeout and its mode are not
/// touched.
pub proof fn udp_socket_keeps_its_write_timeout(
    socket: &mut UdpSocket,
    duration: Option<Duration>,
    set: Result<(), io::Error>,
    write_timeout: Result<Option<Duration>, io::Error>,
    read_timeout: Result<Option<Duration>, io::Error>,
    read: Operation,
    write: Operation,
)
    requires
        call_ensures(UdpSocket::set_write_timeout, (socket, duration), set),
        call_ensures(UdpSocket::write_timeout, (&*final(socket),), write_timeout),
        call_ensures(UdpSocket::read_timeout, (&*final(socket),), read_timeout),
        receives(*final(socket), read),
        sends(*final(socket), write),
    ensures
        set is Ok,
        write_timeout == Ok::<Option<Duration>, io::Error>(duration),
        read_timeout == Ok::<Option<Duration>, io::Error>(old(socket).options.read_timeout),
        write.timeout == duration,
        read.timeout == old(socket).options.read_timeout,
        read.nonblocking == old(socket).options.nonblocking,
        write.nonblocking == old(socket).options.nonblocking,
{
}

/// Moving a UDP socket into or out of nonblocking mode leaves its timeouts as they are.
pub proof fn udp_socket_keeps_its_timeouts(
    socket: &mut UdpSocket,
    nonblocking: bool,
    set: Result<(), io::Error>,
    read_timeout: Result<Option<Duration>, io::Error>,
    write_timeout: Result<Option<Duration>, io::Error>,
)
    requires
        call_ensures(UdpSocket::set_nonblocking, (socket, nonblocking), set),
        call_ensures(UdpSocket::read_timeout, (&*final(socket),), read_timeout),
        call_ensures(UdpSocket::write_timeout, (&*final(socket),), write_timeout),
    ensures
        set is Ok,
        read_timeout == Ok::<Option<Duration>, io::Error>(old(socket).options.read_timeout),
        write_timeout == Ok::<Option<Duration>, io::Error>(old(socket).options.write_timeout),
{
}

/// Setting the read timeout of a TCP stream always succeeds, with any duration or none. It is
/// read back, and its reads go by it from then on; its write timeout and its mode are not
/// touched.
pub proof fn tcp_stream_keeps_its_read_timeout(
    stream: &mut TcpStream,
    duration: Option<Duration>,
    set: Result<(), io::Error>,
    read_timeout: Result<Option<Duration>, io::Error>,
    write_timeout: Result<Option<Duration>, io::Error>,
    read: Operation,
    write: Operation,
)
    requires
        call_ensures(TcpStream::set_read_timeout, (stream, duration), set),
        call_ensures(TcpStream::read_timeout, (&*final(stream),), read_timeout),
        call_ensures(TcpStream::write_timeout, (&*final(stream),), write_timeout),
        call_ensures(TcpStream::read, (&*final(stream),), read),
        call_ensures(TcpStream::write, (&*final(stream),), write),
    ensures
        set is Ok,
        read_timeout == Ok::<Option<Duration>, io::Error>(duration),
        write_timeout == Ok::<Option<Duration>, io::Error>(old(stream).options.write_timeout),
        read.timeout == duration,
        write.timeout == old(stream).options.write_timeout,
        read.nonblocking == old(stream).options.nonblocking,
        write.nonblocking == old(stream).options.nonblocking,
{
}

/// Setting the write timeout of a TCP stream always succeeds, with any duration or none. It is
/// read back, and its writes go by it from then on; its read timeout and its mode are not
/// touched.
pub proof fn tcp_stream_keeps_its_write_timeout(
    stream: &mut TcpStream,
    duration: Option<Duration>,
    set: Result<(), io::Error>,
    write_timeout: Result<Option<Duration>, io::Error>,
    read_timeout: Result<Option<Duration>, io::Error>,
    read: Operation,
    write: Operation,
)
    requires
        call_ensures(TcpStream::set_write_timeout, (stream, duration), set),
        call_ensures(TcpStream::write_timeout, (&*final(stream),), write_timeout),
        call_ensures(TcpStream::read_timeout, (&*final(stream),), read_timeout),
        call_ensures(TcpStream::read, (&*final(stream),), read),
        call_ensures(TcpStream::write, (&*final(stream),), write),
    ensures
        set is Ok,
        write_timeout == Ok::<Option<Duration>, io::Error>(duration),
        read_timeout == Ok::<Option<Duration>, io::Error>(old(stream).options.read_timeout),
        write.timeout == duration,
        read.timeout == old(stream).options.read_timeout,
        read.nonblocking == old(stream).options.nonblocking,
        write.nonblocking == old(stream).options.nonblocking,
{
}

/// Moving a TCP stream into or out of nonblocking mode leaves its timeouts as they are.
pub proof fn tcp_stream_keeps_its_timeouts(
    stream: &mut TcpStream,
    nonblocking: bool,
    set: Result<(), io::Error>,
    read_timeout: Result<Option<Duration>, io::Error>,
    write_timeout: Result<Option<Duration>, io::Error>,
)
    requires
        call_ensures(TcpStream::set_nonblocking, (stream, nonblocking), set),
        call_ensures(TcpStream::read_timeout, (&*final(stream),), read_timeout),
        call_ensures(TcpStream::write_timeout, (&*final(stream),), write_timeout),
    ensures
        set is Ok,
        read_timeout == Ok::<Option<Duration>, io::Error>(old(stream).options.read_timeout),
        write_timeout == Ok::<Option<Duration>, io::Error>(old(stream).options.write_timeout),
{
}

/// Moving a TCP listener into or out of nonblocking mode leaves its timeout as it is.
pub proof fn tcp_listener_keeps_its_timeout(
    listener: &mut TcpListener,
    nonblocking: bool,
    set: Result<(), io::Error>,
)
    requires
        call_ensures(TcpListener::set_nonblocking, (listener, nonblocking), set),
    ensures
        set is Ok,
        final(listener).options.timeout == old(listener).options.timeout,
{
}

/// A new socket waits without limit: none of its operations is nonblocking or has a timeout.
pub proof fn new_sockets_wait_without_limit(
    stream: TcpStream,
    listener: TcpListener,
    socket: UdpSocket,
    op: Operation,
)
    requires
        call_ensures(TcpStream::new, (), stream),
        call_ensures(TcpListener::new, (), listener),
        call_ensures(UdpSocket::new, (), socket),
        call_ensures(TcpStream::read, (&stream,), op) || call_ensures(
            TcpStream::write,
            (&stream,),
            op,
        ) || call_ensures(TcpListener::accept, (&listener,), op) || receives(socket, op) || sends(
            socket,
            op,
        ),
    ensures
        !op.nonblocking,
        op.timeout is None,
{
}

} // verus!
