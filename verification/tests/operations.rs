//! What waiting operations do on given events, and on the events of real polls.

use cancellable_io::canceller::Canceller;
use cancellable_io::error::is_cancelled;
use cancellable_io::operation::{Need, Operation, Step, Verdict};
use cancellable_io::readiness::{
    event_buffer, event_list, ReadyEvent, EVENT_CAPACITY, OBJECT_TOKEN, STOP_TOKEN,
};
use cancellable_io::setup::{Origin, Setup, SetupAction};
use mio::{Events, Poll, PollOpt, Ready, Registration, SetReadiness, Token};
use std::io;
use std::time::{Duration, Instant};

const READABLE: ReadyEvent = ReadyEvent { token: OBJECT_TOKEN, readable: true, writable: false };
const WRITABLE: ReadyEvent = ReadyEvent { token: OBJECT_TOKEN, readable: false, writable: true };
const NEITHER: ReadyEvent = ReadyEvent { token: OBJECT_TOKEN, readable: false, writable: false };
const STOP: ReadyEvent = ReadyEvent { token: STOP_TOKEN, readable: true, writable: false };
const STRANGE: ReadyEvent = ReadyEvent { token: 2, readable: true, writable: true };

const NOW: Duration = Duration::from_millis(0);

fn blocking(need: Need) -> Operation {
    Operation { need, nonblocking: false, timeout: None }
}

fn nonblocking(need: Need) -> Operation {
    Operation { need, nonblocking: true, timeout: None }
}

/// A poll with a stop registration and a registration in the place of a socket.
struct Bench {
    poll: Poll,
    events: Events,
    _stop: Registration,
    canceller: Canceller,
    _object: Registration,
    object: SetReadiness,
}

fn bench() -> Bench {
    let poll = Poll::new().unwrap();
    let (stop, canceller) = Canceller::new(&[]);
    let (registration, object) = Registration::new2();
    let mut setup = Setup::new(Origin::Opened, true, false);
    loop {
        match setup.action() {
            SetupAction::RegisterStop(plan) => {
                poll.register(&stop, Token(plan.token), plan.interest, plan.options).unwrap();
            }
            SetupAction::RegisterSocket(plan) => {
                poll.register(&registration, Token(plan.token), plan.interest, plan.options)
                    .unwrap();
            }
            SetupAction::Finish(_) => break,
            _ => {}
        }
        setup = setup.advance(Ok(())).unwrap();
    }
    Bench {
        poll,
        events: event_buffer(),
        _stop: stop,
        canceller,
        _object: registration,
        object,
    }
}

impl Bench {
    /// Polls until something is reported.
    fn poll(&mut self) -> io::Result<usize> {
        loop {
            let n = self.poll.poll(&mut self.events, Some(Duration::from_millis(100)))?;
            if n > 0 {
                return Ok(n);
            }
        }
    }
}

#[test]
fn one_event_is_judged_by_token_and_direction() {
    let read = blocking(Need::Readable);
    assert_eq!(read.observe(&READABLE), Verdict::Perform);
    assert_eq!(read.observe(&WRITABLE), Verdict::Undecided);
    assert_eq!(read.observe(&STOP), Verdict::Cancelled);
    assert_eq!(read.observe(&STRANGE), Verdict::Undecided);
    let write = blocking(Need::Writable);
    assert_eq!(write.observe(&READABLE), Verdict::Undecided);
    assert_eq!(write.observe(&WRITABLE), Verdict::Perform);
    let accept = blocking(Need::Any);
    assert_eq!(accept.observe(&NEITHER), Verdict::Perform);
    assert_eq!(accept.observe(&STRANGE), Verdict::Undecided);
}

#[test]
fn stop_counts_wherever_it_stands() {
    let read = blocking(Need::Readable);
    assert_eq!(read.scan(&vec![]), Verdict::Undecided);
    assert_eq!(read.scan(&vec![WRITABLE, STRANGE, NEITHER]), Verdict::Undecided);
    assert_eq!(read.scan(&vec![WRITABLE, STOP, READABLE]), Verdict::Cancelled);
    assert_eq!(read.scan(&vec![READABLE, STOP]), Verdict::Cancelled);
    assert_eq!(read.scan(&vec![STRANGE, WRITABLE, READABLE]), Verdict::Perform);
    assert_eq!(blocking(Need::Any).scan(&vec![NEITHER, STOP]), Verdict::Cancelled);
    assert_eq!(blocking(Need::Any).scan(&vec![NEITHER]), Verdict::Perform);
    assert_eq!(blocking(Need::Writable).scan(&vec![READABLE, STOP]), Verdict::Cancelled);
}

#[test]
fn nonblocking_polls_take_no_time() {
    let op = Operation {
        need: Need::Readable,
        nonblocking: true,
        timeout: Some(Duration::from_secs(5)),
    };
    assert_eq!(op.wait_time(), Some(Duration::from_millis(0)));
}

#[test]
fn blocking_polls_take_the_timeout() {
    assert_eq!(blocking(Need::Readable).wait_time(), None);
    let op = Operation {
        need: Need::Readable,
        nonblocking: false,
        timeout: Some(Duration::from_secs(5)),
    };
    assert_eq!(op.wait_time(), Some(Duration::from_secs(5)));
}

#[test]
fn steps_follow_verdicts() {
    assert!(matches!(blocking(Need::Any).after(Verdict::Perform, NOW), Step::Perform));
    match blocking(Need::Any).after(Verdict::Cancelled, NOW) {
        Step::Fail(e) => assert!(is_cancelled(&e)),
        other => panic!("{:?}", other),
    }
    match nonblocking(Need::Any).after(Verdict::Undecided, NOW) {
        Step::Fail(e) => assert_eq!(e.kind(), io::ErrorKind::WouldBlock),
        other => panic!("{:?}", other),
    }
    let op = Operation {
        need: Need::Any,
        nonblocking: false,
        timeout: Some(Duration::from_millis(7)),
    };
    match op.after(Verdict::Undecided, NOW) {
        Step::Wait(time) => assert_eq!(time, Some(Duration::from_millis(7))),
        other => panic!("{:?}", other),
    }
}

fn timed(timeout: Duration) -> Operation {
    Operation { need: Need::Readable, nonblocking: false, timeout: Some(timeout) }
}

fn assert_timed_out(step: Step) {
    match step {
        Step::Fail(e) => {
            assert_eq!(e.kind(), io::ErrorKind::TimedOut);
            assert!(!is_cancelled(&e));
        }
        other => panic!("{:?}", other),
    }
}

#[test]
fn what_is_left_of_the_timeout_is_waited_for() {
    let op = timed(Duration::from_millis(10));
    match op.after(Verdict::Undecided, Duration::from_millis(4)) {
        Step::Wait(time) => assert_eq!(time, Some(Duration::from_millis(6))),
        other => panic!("{:?}", other),
    }
    match op.after(Verdict::Undecided, Duration::from_nanos(9_999_999)) {
        Step::Wait(time) => assert_eq!(time, Some(Duration::from_nanos(1))),
        other => panic!("{:?}", other),
    }
    assert_timed_out(op.after(Verdict::Undecided, Duration::from_millis(10)));
    assert_timed_out(op.after(Verdict::Undecided, Duration::from_millis(11)));
}

#[test]
fn zero_timeout_sets_no_limit() {
    let op = timed(NOW);
    assert_eq!(op.wait_time(), Some(NOW));
    for elapsed in vec![NOW, Duration::from_nanos(1), Duration::from_secs(60)] {
        match op.after(Verdict::Undecided, elapsed) {
            Step::Wait(time) => assert_eq!(time, Some(NOW)),
            other => panic!("{:?}", other),
        }
    }
}

#[test]
fn timeout_gives_way_to_readiness_and_cancellation() {
    let op = timed(Duration::from_millis(10));
    let late = Duration::from_secs(1);
    assert!(matches!(op.after(Verdict::Perform, late), Step::Perform));
    match op.after(Verdict::Cancelled, late) {
        Step::Fail(e) => assert!(is_cancelled(&e)),
        other => panic!("{:?}", other),
    }
}

#[test]
fn timeout_ends_a_real_wait() {
    let mut bench = bench();
    // The socket can be written to all the time, so that polling for a read never rests.
    bench.object.set_readiness(Ready::writable()).unwrap();
    let op = timed(Duration::from_millis(50));
    let start = Instant::now();
    let mut time = op.wait_time();
    loop {
        let polled = bench.poll.poll(&mut bench.events, time);
        match op.resume(polled, &bench.events, start.elapsed()) {
            Step::Wait(next) => time = next,
            step => {
                assert_timed_out(step);
                break;
            }
        }
    }
    assert!(start.elapsed() >= Duration::from_millis(50));
}

#[test]
fn failed_poll_fails_the_operation() {
    let events = event_buffer();
    let error = io::Error::new(io::ErrorKind::NotConnected, "gone");
    match nonblocking(Need::Readable).resume(Err(error), &events, NOW) {
        Step::Fail(e) => {
            assert_eq!(e.kind(), io::ErrorKind::NotConnected);
            assert_eq!(e.to_string(), "gone");
        }
        other => panic!("{:?}", other),
    }
}

#[test]
fn event_buffer_starts_empty() {
    let events = event_buffer();
    assert!(events.is_empty());
    assert!(events.capacity() >= 4);
    assert_eq!(EVENT_CAPACITY, 4);
    assert_eq!(event_list(&events), vec![]);
    assert!(matches!(blocking(Need::Any).resume(Ok(0), &events, NOW), Step::Wait(None)));
}

#[test]
fn events_are_listed_in_order() {
    let poll = Poll::new().unwrap();
    let (r5, s5) = Registration::new2();
    let (r9, s9) = Registration::new2();
    poll.register(&r5, Token(5), Ready::readable(), PollOpt::level()).unwrap();
    poll.register(&r9, Token(9), Ready::readable() | Ready::writable(), PollOpt::level()).unwrap();
    s5.set_readiness(Ready::readable()).unwrap();
    s9.set_readiness(Ready::readable() | Ready::writable()).unwrap();
    let mut events = event_buffer();
    let mut n = 0;
    while n < 2 {
        n = poll.poll(&mut events, Some(Duration::from_millis(100))).unwrap();
    }
    let list = event_list(&events);
    let mut i = 0;
    for event in events.iter() {
        assert_eq!(list[i].token, event.token().0);
        i += 1;
    }
    assert_eq!(list.len(), i);
    assert!(list.contains(&ReadyEvent { token: 5, readable: true, writable: false }));
    assert!(list.contains(&ReadyEvent { token: 9, readable: true, writable: true }));
}

#[test]
fn pending_operation_is_cancelled() {
    for need in vec![Need::Readable, Need::Writable, Need::Any] {
        for op in vec![blocking(need), nonblocking(need)] {
            let mut bench = bench();
            bench.canceller.cancel().unwrap();
            let polled = bench.poll();
            match op.resume(polled, &bench.events, NOW) {
                Step::Fail(e) => assert!(is_cancelled(&e)),
                other => panic!("{:?}", other),
            }
        }
    }
}

#[test]
fn waiting_goes_on_until_the_stop() {
    let mut bench = bench();
    let read = blocking(Need::Readable);
    bench.object.set_readiness(Ready::writable()).unwrap();
    for _ in 0..3 {
        let polled = bench.poll();
        assert!(matches!(read.resume(polled, &bench.events, NOW), Step::Wait(None)));
    }
    bench.canceller.cancel().unwrap();
    loop {
        let polled = bench.poll();
        match read.resume(polled, &bench.events, NOW) {
            Step::Wait(time) => assert_eq!(time, None),
            Step::Fail(e) => {
                assert!(is_cancelled(&e));
                break;
            }
            Step::Perform => panic!("the socket cannot be read"),
        }
    }
}

#[test]
fn ready_socket_does_not_hold_off_a_cancellation() {
    for nonblocking in vec![false, true] {
        let mut bench = bench();
        bench.object.set_readiness(Ready::readable() | Ready::writable()).unwrap();
        bench.poll().unwrap();
        bench.canceller.cancel().unwrap();
        let op = Operation { need: Need::Writable, nonblocking, timeout: None };
        let mut cancelled = false;
        for _ in 0..100 {
            let polled = bench.poll();
            if let Step::Fail(e) = op.resume(polled, &bench.events, NOW) {
                assert!(is_cancelled(&e));
                cancelled = true;
                break;
            }
        }
        assert!(cancelled);
    }
}

#[test]
fn cancellers_are_independent() {
    let mut first = bench();
    let (second_stop, second) = Canceller::new(&[&first._stop]);
    let second_poll = Poll::new().unwrap();
    second_poll
        .register(&second_stop, Token(STOP_TOKEN), Ready::readable(), PollOpt::edge())
        .unwrap();
    second.cancel().unwrap();
    let op = nonblocking(Need::Readable);
    let polled = first.poll.poll(&mut first.events, Some(NOW));
    match op.resume(polled, &first.events, NOW) {
        Step::Fail(e) => assert_eq!(e.kind(), io::ErrorKind::WouldBlock),
        other => panic!("{:?}", other),
    }
    let mut events = event_buffer();
    while second_poll.poll(&mut events, Some(Duration::from_millis(100))).unwrap() == 0 {}
    match op.resume(Ok(1), &events, NOW) {
        Step::Fail(e) => assert!(is_cancelled(&e)),
        other => panic!("{:?}", other),
    }
}

#[test]
fn cloned_canceller_cancels_the_same_object() {
    let mut bench = bench();
    bench.canceller.clone().cancel().unwrap();
    let polled = bench.poll();
    match blocking(Need::Readable).resume(polled, &bench.events, NOW) {
        Step::Fail(e) => assert!(is_cancelled(&e)),
        other => panic!("{:?}", other),
    }
}

#[test]
fn cancellation_is_used_up_by_one_operation() {
    let mut bench = bench();
    bench.canceller.cancel().unwrap();
    bench.poll().unwrap();
    let polled = bench.poll.poll(&mut bench.events, Some(Duration::from_millis(0)));
    match nonblocking(Need::Readable).resume(polled, &bench.events, NOW) {
        Step::Fail(e) => assert_eq!(e.kind(), io::ErrorKind::WouldBlock),
        other => panic!("{:?}", other),
    }
}

#[test]
fn ready_socket_is_performed_on_every_time() {
    let mut bench = bench();
    bench.object.set_readiness(Ready::readable()).unwrap();
    for _ in 0..3 {
        let polled = bench.poll();
        assert!(matches!(
            blocking(Need::Readable).resume(polled, &bench.events, NOW),
            Step::Perform
        ));
        assert!(matches!(
            blocking(Need::Writable).resume(Ok(1), &bench.events, NOW),
            Step::Wait(None)
        ));
    }
}

#[test]
fn nothing_ready_would_block() {
    let mut bench = bench();
    let op = nonblocking(Need::Readable);
    let polled = bench.poll.poll(&mut bench.events, op.wait_time());
    match op.resume(polled, &bench.events, NOW) {
        Step::Fail(e) => assert_eq!(e.kind(), io::ErrorKind::WouldBlock),
        other => panic!("{:?}", other),
    }
}
