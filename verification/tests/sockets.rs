//! Options, setups and address searches of the sockets.

use cancellable_io::canceller::Canceller;
use cancellable_io::operation::{Need, Operation};
use cancellable_io::readiness::{duplex, OBJECT_TOKEN, STOP_TOKEN};
use cancellable_io::search::SearchStep;
use cancellable_io::setup::{connection_result, RegistrationPlan, Setup, SetupAction};
use cancellable_io::shared::Shared;
use cancellable_io::tcp::{TcpListener, TcpStream};
use cancellable_io::udp::UdpSocket;
use mio::{PollOpt, Ready};
use std::io;
use std::time::Duration;

fn error(text: &str) -> io::Error {
    io::Error::new(io::ErrorKind::NotFound, text.to_string())
}

/// All the actions of a setup that goes well.
fn actions(mut setup: Setup) -> Vec<SetupAction> {
    let mut list = Vec::new();
    loop {
        let action = setup.action();
        list.push(action);
        if let SetupAction::Finish(_) = action {
            return list;
        }
        setup = setup.advance(Ok(())).unwrap();
    }
}

fn is_stop(plan: &RegistrationPlan) -> bool {
    plan.token == STOP_TOKEN
        && plan.interest == Ready::readable()
        && plan.options == PollOpt::edge()
}

fn is_socket(plan: &RegistrationPlan, interest: Ready) -> bool {
    plan.token == OBJECT_TOKEN && plan.interest == interest && plan.options == PollOpt::level()
}

/// Checks the setup of a socket that is opened.
fn check_opened(setup: Setup, interest: Ready, shares: bool) {
    let list = actions(setup);
    assert_eq!(list.len(), 5);
    assert!(matches!(list[0], SetupAction::CreatePoll));
    assert!(matches!(&list[1], SetupAction::RegisterStop(plan) if is_stop(plan)));
    assert!(matches!(list[2], SetupAction::OpenSocket));
    assert!(matches!(&list[3], SetupAction::RegisterSocket(plan) if is_socket(plan, interest)));
    assert!(matches!(list[4], SetupAction::Finish(s) if s == shares));
}

fn check_operation(op: Operation, need: Need, nonblocking: bool, timeout: Option<Duration>) {
    assert_eq!(op.need, need);
    assert_eq!(op.nonblocking, nonblocking);
    assert_eq!(op.timeout, timeout);
}

#[test]
fn opened_sockets_are_set_up_in_order() {
    let both = Ready::readable() | Ready::writable();
    check_opened(TcpStream::try_clone(), both, true);
    check_opened(TcpListener::simple_bind(), Ready::readable(), false);
    check_opened(TcpListener::try_clone(), Ready::readable(), true);
    check_opened(UdpSocket::simple_bind(), both, false);
    check_opened(UdpSocket::try_clone(), both, true);
}

#[test]
fn connected_streams_are_awaited() {
    let list = actions(TcpStream::simple_connect());
    assert_eq!(list.len(), 6);
    assert!(matches!(list[0], SetupAction::CreatePoll));
    assert!(matches!(&list[1], SetupAction::RegisterStop(plan) if is_stop(plan)));
    assert!(matches!(list[2], SetupAction::OpenSocket));
    assert!(matches!(&list[3], SetupAction::RegisterSocket(plan)
        if is_socket(plan, Ready::readable() | Ready::writable())));
    match list[4] {
        SetupAction::AwaitConnection(op) => check_operation(op, Need::Writable, false, None),
        other => panic!("{:?}", other),
    }
    assert!(matches!(list[5], SetupAction::Finish(false)));
}

#[test]
fn connection_fails_with_the_pending_error() {
    assert!(connection_result(Ok(None)).is_ok());
    assert_eq!(connection_result(Ok(Some(error("refused")))).unwrap_err().to_string(), "refused");
    assert_eq!(connection_result(Err(error("asking"))).unwrap_err().to_string(), "asking");
}

#[test]
fn duplicates_share_their_options() {
    let source = Shared::settle(false, None, TcpStream::new());
    let timeout = Some(Duration::from_secs(9));
    source.lock().write().unwrap().set_read_timeout(timeout).unwrap();
    let duplicate = Shared::settle(true, Some(&source), TcpStream::new());
    let apart = Shared::settle(false, Some(&source), TcpStream::new());
    assert_eq!(duplicate.lock().read().unwrap().read_timeout().unwrap(), timeout);
    duplicate.lock().write().unwrap().set_nonblocking(true).unwrap();
    check_operation(source.lock().read().unwrap().read(), Need::Readable, true, timeout);
    check_operation(apart.lock().read().unwrap().read(), Need::Readable, false, None);
}

#[test]
fn accepted_streams_are_set_up_in_order() {
    let list = actions(TcpListener::establish());
    assert_eq!(list.len(), 5);
    assert!(matches!(list[0], SetupAction::OpenSocket));
    assert!(matches!(list[1], SetupAction::CreatePoll));
    assert!(matches!(&list[2], SetupAction::RegisterStop(plan) if is_stop(plan)));
    assert!(matches!(&list[3], SetupAction::RegisterSocket(plan)
        if is_socket(plan, Ready::readable() | Ready::writable())));
    assert!(matches!(list[4], SetupAction::Finish(false)));
}

#[test]
fn first_failure_ends_a_setup() {
    for failing in 0..5 {
        let mut setup = TcpStream::simple_connect();
        for _ in 0..failing {
            setup = setup.advance(Ok(())).unwrap();
        }
        let e = setup.advance(Err(error("no"))).unwrap_err();
        assert_eq!(e.kind(), io::ErrorKind::NotFound);
        assert_eq!(e.to_string(), "no");
    }
}

#[test]
fn canceller_raises_what_the_stop_is_registered_for() {
    assert_eq!(Canceller::signal(), Ready::readable());
    assert_eq!(duplex(), Ready::readable() | Ready::writable());
    assert!(duplex().is_readable());
    assert!(duplex().is_writable());
}

#[test]
fn new_stream_has_no_timeouts_and_blocks() {
    let stream = TcpStream::new();
    assert_eq!(stream.read_timeout().unwrap(), None);
    assert_eq!(stream.write_timeout().unwrap(), None);
    check_operation(stream.read(), Need::Readable, false, None);
    check_operation(stream.write(), Need::Writable, false, None);
    check_operation(TcpStream::flush(), Need::Writable, false, None);
}

#[test]
fn stream_options_reach_its_operations() {
    let mut stream = TcpStream::new();
    let (r, w) = (Some(Duration::from_secs(1)), Some(Duration::from_secs(2)));
    stream.set_read_timeout(r).unwrap();
    assert_eq!(stream.write_timeout().unwrap(), None);
    stream.set_write_timeout(w).unwrap();
    stream.set_nonblocking(true).unwrap();
    assert_eq!(stream.read_timeout().unwrap(), r);
    assert_eq!(stream.write_timeout().unwrap(), w);
    check_operation(stream.read(), Need::Readable, true, r);
    check_operation(stream.write(), Need::Writable, true, w);
    check_operation(TcpStream::flush(), Need::Writable, false, None);
    let zero = Some(Duration::from_millis(0));
    stream.set_read_timeout(zero).unwrap();
    assert_eq!(stream.read_timeout().unwrap(), zero);
    stream.set_nonblocking(false).unwrap();
    stream.set_read_timeout(None).unwrap();
    check_operation(stream.read(), Need::Readable, false, None);
    check_operation(stream.write(), Need::Writable, false, w);
}

#[test]
fn listener_accepts_for_ever() {
    let mut listener = TcpListener::new();
    check_operation(listener.accept(), Need::Any, false, None);
    listener.set_nonblocking(true).unwrap();
    check_operation(listener.accept(), Need::Any, true, None);
    let mut incoming = listener.incoming();
    for _ in 0..3 {
        check_operation(incoming.next().unwrap(), Need::Any, true, None);
    }
}

#[test]
fn udp_options_reach_its_operations() {
    let mut socket = UdpSocket::new();
    check_operation(socket.recv(), Need::Readable, false, None);
    check_operation(socket.send(), Need::Writable, false, None);
    let (r, w) = (Some(Duration::from_secs(3)), Some(Duration::from_secs(4)));
    socket.set_read_timeout(r).unwrap();
    socket.set_write_timeout(w).unwrap();
    socket.set_nonblocking(true).unwrap();
    assert_eq!(socket.read_timeout().unwrap(), r);
    assert_eq!(socket.write_timeout().unwrap(), w);
    check_operation(socket.recv_from(), Need::Readable, true, r);
    check_operation(socket.recv(), Need::Readable, true, r);
    check_operation(socket.send_to(), Need::Writable, true, w);
    check_operation(socket.send(), Need::Writable, true, w);
}

/// Runs a search over addresses that give these results; tells which were tried, in order.
fn search(
    mut step: SearchStep<&'static str, u8>,
    gives: &dyn Fn(&str) -> Result<u8, io::Error>,
) -> (Result<u8, io::Error>, Vec<String>) {
    let mut tried = Vec::new();
    loop {
        match step {
            SearchStep::Try(search) => {
                tried.push(search.address().to_string());
                let result = gives(search.address());
                step = search.resume(result);
            }
            SearchStep::Done(result) => return (result, tried),
        }
    }
}

fn gives(address: &str) -> Result<u8, io::Error> {
    match address {
        "seven" => Ok(7),
        "eight" => Ok(8),
        other => Err(error(other)),
    }
}

#[test]
fn search_stops_at_the_first_success() {
    let step = TcpStream::connect(Ok(vec!["a", "b", "seven", "eight", "c"]));
    let (result, tried) = search(step, &gives);
    assert_eq!(result.unwrap(), 7);
    assert_eq!(tried, vec!["a", "b", "seven"]);
}

#[test]
fn search_returns_the_last_error() {
    let (result, tried) = search(TcpListener::bind(Ok(vec!["a", "b"])), &gives);
    assert_eq!(result.unwrap_err().to_string(), "b");
    assert_eq!(tried, vec!["a", "b"]);
}

#[test]
fn search_without_addresses_is_invalid_input() {
    let (result, tried) = search(UdpSocket::bind(Ok(vec![])), &gives);
    assert_eq!(result.unwrap_err().kind(), io::ErrorKind::InvalidInput);
    assert!(tried.is_empty());
}

#[test]
fn unresolved_name_is_not_searched() {
    let (result, tried) = search(UdpSocket::connect(Err(error("name"))), &gives);
    assert_eq!(result.unwrap_err().to_string(), "name");
    assert!(tried.is_empty());
}
