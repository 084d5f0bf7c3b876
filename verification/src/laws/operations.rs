//! Laws of waiting operations.
use crate::error::{ErrorKind, error_kind, is_cancelled};
use crate::operation::{
    Need, Operation, Outcome, Round, Step, Verdict, duration_nanos, fruitless_rounds_are_forgotten,
};
use crate::readiness::{
    Direction, OBJECT_TOKEN, ReadyEvent, STOP_TOKEN, event_buffer, event_list, events_limit,
    events_view,
};
use std::io;
use std::time::Duration;
use vstd::prelude::*;

verus! {

/// The stop and the socket are told apart by their tokens.
pub proof fn tokens_differ()
    ensures
        STOP_TOKEN == 0,
        OBJECT_TOKEN == 1,
{
}

/// The events of a poll reach the operation complete and in order. A new buffer holds none, and
/// has room for four.
pub proof fn events_are_listed_as_polled(
    events: mio::Events,
    list: Vec<ReadyEvent>,
    new: mio::Events,
)
    requires
        call_ensures(event_list, (&events,), list),
        call_ensures(event_buffer, (), new),
    ensures
        list@.len() == events_view(events).len(),
        forall|i: int|
            0 <= i < list@.len() ==> (#[trigger] list@[i]).token == events_view(events)[i].token
                && list@[i].readable == events_view(events)[i].readable && list@[i].writable
                == events_view(events)[i].writable,
        events_view(new).len() == 0,
        events_limit(new) == 4,
{
}

/// An operation can be asked at any time, with whatever a poll came back with.
pub proof fn any_operation_can_be_asked(
    op: Operation,
    polled: Result<usize, io::Error>,
    events: mio::Events,
    list: Vec<ReadyEvent>,
    event: ReadyEvent,
    verdict: Verdict,
    elapsed: Duration,
)
    ensures
        call_requires(Operation::wait_time, (&op,)),
        call_requires(Operation::observe, (&op, &event)),
        call_requires(Operation::scan, (&op, &list)),
        call_requires(Operation::after, (&op, verdict, elapsed)),
        call_requires(Operation::resume, (&op, polled, &events, elapsed)),
{
}

/// A socket that is ready is acted on: without a stop, an event of the socket that is readable
/// is enough for a reading operation, one that is writable for a writing one, and any at all for
/// one without a need, whatever else is reported, in either mode and however late.
pub proof fn ready_socket_is_acted_on(
    op: Operation,
    polled: Result<usize, io::Error>,
    events: mio::Events,
    elapsed: Duration,
    step: Step,
    i: int,
)
    requires
        call_ensures(Operation::resume, (&op, polled, &events, elapsed), step),
        polled is Ok,
        forall|j: int|
            0 <= j < events_view(events).len() ==> (#[trigger] events_view(events)[j]).token
                != STOP_TOKEN,
        0 <= i < events_view(events).len(),
        events_view(events)[i].token == OBJECT_TOKEN,
        op.need == Need::Readable ==> events_view(events)[i].readable,
        op.need == Need::Writable ==> events_view(events)[i].writable,
    ensures
        step is Perform,
{
    let seen = events_view(events);
    assert(op.ready(seen[i]));
}

/// What the registration of a socket promises is what its operations act on: if the directions
/// of an event of the socket meet the need of an operation, and no stop is reported, the
/// operation acts. Meeting a need takes its direction, whatever the other one is.
pub proof fn met_need_is_acted_on(
    op: Operation,
    polled: Result<usize, io::Error>,
    events: mio::Events,
    elapsed: Duration,
    step: Step,
    i: int,
    directions: Set<Direction>,
)
    requires
        call_ensures(Operation::resume, (&op, polled, &events, elapsed), step),
        polled is Ok,
        forall|j: int|
            0 <= j < events_view(events).len() ==> (#[trigger] events_view(events)[j]).token
                != STOP_TOKEN,
        0 <= i < events_view(events).len(),
        events_view(events)[i].token == OBJECT_TOKEN,
        directions.contains(Direction::Readable) ==> events_view(events)[i].readable,
        directions.contains(Direction::Writable) ==> events_view(events)[i].writable,
        op.met_by(directions),
    ensures
        step is Perform,
{
    ready_socket_is_acted_on(op, polled, events, elapsed, step, i);
}

/// A need is met by its direction, and any direction meets that of an operation that will take
/// anything.
pub proof fn directions_that_meet_a_need(op: Operation, directions: Set<Direction>)
    ensures
        op.need == Need::Readable ==> (op.met_by(directions) <==> directions.contains(
            Direction::Readable,
        )),
        op.need == Need::Writable ==> (op.met_by(directions) <==> directions.contains(
            Direction::Writable,
        )),
        op.need == Need::Any ==> (op.met_by(directions) <==> directions.contains(
            Direction::Readable,
        ) || directions.contains(Direction::Writable)),
{
    if !directions.contains(Direction::Readable) && !directions.contains(Direction::Writable) {
        assert forall|direction: Direction| !directions.contains(direction) by {
            assert(direction == Direction::Readable || direction == Direction::Writable);
        }
        assert(directions =~= Set::<Direction>::empty());
    }
}

/// The socket is acted on only if a poll has just reported it ready for the operation, and no
/// stop with it.
pub proof fn socket_is_acted_on_only_when_ready(
    op: Operation,
    polled: Result<usize, io::Error>,
    events: mio::Events,
    elapsed: Duration,
    step: Step,
)
    requires
        call_ensures(Operation::resume, (&op, polled, &events, elapsed), step),
        step is Perform,
    ensures
        polled is Ok,
        forall|j: int|
            0 <= j < events_view(events).len() ==> (#[trigger] events_view(events)[j]).token
                != STOP_TOKEN,
        exists|i: int|
            0 <= i < events_view(events).len() && (#[trigger] events_view(events)[i]).token
                == OBJECT_TOKEN && (op.need == Need::Readable ==> events_view(events)[i].readable)
                && (op.need == Need::Writable ==> events_view(events)[i].writable),
{
    let seen = events_view(events);
    let i = choose|i: int| 0 <= i < seen.len() && op.ready(#[trigger] seen[i]);
    assert(seen[i].token == OBJECT_TOKEN);
}

/// A stop is always obeyed: if a poll reports one, the operation fails with an error that
/// `is_cancelled` recognises, whether or not the socket is ready too, in either mode and however
/// late.
pub proof fn stop_is_obeyed(
    op: Operation,
    polled: Result<usize, io::Error>,
    events: mio::Events,
    elapsed: Duration,
    step: Step,
    i: int,
)
    requires
        call_ensures(Operation::resume, (&op, polled, &events, elapsed), step),
        polled is Ok,
        0 <= i < events_view(events).len(),
        events_view(events)[i].token == STOP_TOKEN,
    ensures
        step is Fail,
        forall|recognised: bool| #[trigger]
            call_ensures(is_cancelled, (&step->Fail_0,), recognised) ==> recognised,
{
}

/// An operation fails as cancelled only if a poll reports a stop.
pub proof fn only_a_stop_cancels(
    op: Operation,
    polled: Result<usize, io::Error>,
    events: mio::Events,
    elapsed: Duration,
    step: Step,
)
    requires
        call_ensures(Operation::resume, (&op, polled, &events, elapsed), step),
        polled is Ok,
        step is Fail,
        call_ensures(is_cancelled, (&step->Fail_0,), true),
    ensures
        exists|i: int|
            0 <= i < events_view(events).len() && (#[trigger] events_view(events)[i]).token
                == STOP_TOKEN,
{
}

/// What an operation does when a poll reports neither a stop nor the socket ready for it. In
/// nonblocking mode it fails with `WouldBlock`. In blocking mode it waits on: without limit if it
/// has no timeout, as before if that is zero, and otherwise for what is left of it, until that
/// has passed and it fails with `TimedOut`.
pub proof fn nothing_to_do_yet(
    op: Operation,
    polled: Result<usize, io::Error>,
    events: mio::Events,
    elapsed: Duration,
    step: Step,
)
    requires
        call_ensures(Operation::resume, (&op, polled, &events, elapsed), step),
        polled is Ok,
        forall|j: int|
            0 <= j < events_view(events).len() ==> (#[trigger] events_view(events)[j]).token
                != STOP_TOKEN,
        forall|j: int|
            0 <= j < events_view(events).len() && (#[trigger] events_view(events)[j]).token
                == OBJECT_TOKEN ==> match op.need {
                Need::Readable => !events_view(events)[j].readable,
                Need::Writable => !events_view(events)[j].writable,
                Need::Any => false,
            },
    ensures
        op.nonblocking ==> step is Fail && error_kind(step->Fail_0) == ErrorKind::WouldBlock,
        !op.nonblocking && op.timeout is None ==> step == Step::Wait(None),
        !op.nonblocking && op.timeout is Some && duration_nanos(op.timeout->Some_0) == 0 ==> step
            == Step::Wait(op.timeout),
        !op.nonblocking && op.timeout is Some && 0 < duration_nanos(op.timeout->Some_0)
            && duration_nanos(op.timeout->Some_0) <= duration_nanos(elapsed) ==> step is Fail
            && error_kind(step->Fail_0) == ErrorKind::TimedOut,
        !op.nonblocking && op.timeout is Some && duration_nanos(elapsed) < duration_nanos(
            op.timeout->Some_0,
        ) ==> step is Wait && step->Wait_0 is Some && duration_nanos(step->Wait_0->Some_0)
            + duration_nanos(elapsed) == duration_nanos(op.timeout->Some_0),
{
}

/// `WouldBlock` is for nonblocking operations alone, and `TimedOut` for blocking ones whose
/// timeout has passed; either comes only if the poll reported nothing that counts.
pub proof fn giving_up_has_its_reason(
    op: Operation,
    polled: Result<usize, io::Error>,
    events: mio::Events,
    elapsed: Duration,
    step: Step,
    j: int,
)
    requires
        call_ensures(Operation::resume, (&op, polled, &events, elapsed), step),
        polled is Ok,
        step is Fail,
        error_kind(step->Fail_0) == ErrorKind::WouldBlock || error_kind(step->Fail_0)
            == ErrorKind::TimedOut,
        0 <= j < events_view(events).len(),
    ensures
        error_kind(step->Fail_0) == ErrorKind::WouldBlock ==> op.nonblocking,
        error_kind(step->Fail_0) == ErrorKind::TimedOut ==> !op.nonblocking && op.timeout is Some
            && duration_nanos(op.timeout->Some_0) <= duration_nanos(elapsed),
        events_view(events)[j].token != STOP_TOKEN,
        events_view(events)[j].token == OBJECT_TOKEN ==> op.need != Need::Any && (op.need
            == Need::Readable ==> !events_view(events)[j].readable) && (op.need == Need::Writable
            ==> !events_view(events)[j].writable),
{
    let seen = events_view(events);
    if op.ready(seen[j]) {
        assert(exists|i: int| 0 <= i < seen.len() && op.ready(#[trigger] seen[i]));
    }
}

/// A poll that fails fails the operation with its own error, whatever the buffer holds.
pub proof fn failed_poll_is_passed_on(
    op: Operation,
    error: io::Error,
    events: mio::Events,
    elapsed: Duration,
    step: Step,
)
    requires
        call_ensures(
            Operation::resume,
            (&op, Err::<usize, io::Error>(error), &events, elapsed),
            step,
        ),
    ensures
        step == Step::Fail(error),
{
}

/// The mode, the timeout and the time have no part in whether a socket is ready: of two
/// operations with one need, a poll makes both act or neither, and cancels both or neither.
pub proof fn readiness_does_not_depend_on_mode(
    op1: Operation,
    op2: Operation,
    events: mio::Events,
    n1: usize,
    n2: usize,
    elapsed1: Duration,
    elapsed2: Duration,
    step1: Step,
    step2: Step,
)
    requires
        op1.need == op2.need,
        call_ensures(
            Operation::resume,
            (&op1, Ok::<usize, io::Error>(n1), &events, elapsed1),
            step1,
        ),
        call_ensures(
            Operation::resume,
            (&op2, Ok::<usize, io::Error>(n2), &events, elapsed2),
            step2,
        ),
    ensures
        step1 is Perform <==> step2 is Perform,
        step1 is Fail && call_ensures(is_cancelled, (&step1->Fail_0,), true) ==> step2 is Fail
            && forall|recognised: bool| #[trigger]
            call_ensures(is_cancelled, (&step2->Fail_0,), recognised) ==> recognised,
{
    let seen = events_view(events);
    assert forall|j: int| 0 <= j < seen.len() implies op1.ready(#[trigger] seen[j]) == op2.ready(
        seen[j],
    ) by {}
    if op1.verdict(seen) == Verdict::Perform {
        let i = choose|i: int| 0 <= i < seen.len() && op1.ready(#[trigger] seen[i]);
        assert(op2.ready(seen[i]));
    }
    if op2.verdict(seen) == Verdict::Perform {
        let i = choose|i: int| 0 <= i < seen.len() && op2.ready(#[trigger] seen[i]);
        assert(op1.ready(seen[i]));
    }
}

/// More readiness never hurts: if one event makes an operation act, so does the same event with
/// a further direction.
pub proof fn further_readiness_changes_nothing(
    op: Operation,
    event: ReadyEvent,
    further: ReadyEvent,
    verdict1: Verdict,
    verdict2: Verdict,
)
    requires
        further.token == event.token,
        event.readable ==> further.readable,
        event.writable ==> further.writable,
        call_ensures(Operation::observe, (&op, &event), verdict1),
        call_ensures(Operation::observe, (&op, &further), verdict2),
    ensures
        verdict1 == Verdict::Perform ==> verdict2 == Verdict::Perform,
        verdict1 == Verdict::Cancelled <==> verdict2 == Verdict::Cancelled,
{
}

/// What one event says by itself.
pub proof fn event_speaks_for_itself(op: Operation, event: ReadyEvent, verdict: Verdict)
    requires
        call_ensures(Operation::observe, (&op, &event), verdict),
    ensures
        event.token == STOP_TOKEN <==> verdict == Verdict::Cancelled,
        event.token != STOP_TOKEN && event.token != OBJECT_TOKEN ==> verdict == Verdict::Undecided,
        event.token == OBJECT_TOKEN && op.need == Need::Any ==> verdict == Verdict::Perform,
        event.token == OBJECT_TOKEN && op.need == Need::Readable ==> (verdict == Verdict::Perform
            <==> event.readable),
        event.token == OBJECT_TOKEN && op.need == Need::Writable ==> (verdict == Verdict::Perform
            <==> event.writable),
{
}

/// A list of events says what its events say: it cancels if one of them does, and otherwise acts
/// if one of them does. Neither order nor repetition matters.
pub proof fn list_speaks_for_its_events(op: Operation, events: Vec<ReadyEvent>, verdict: Verdict)
    requires
        call_ensures(Operation::scan, (&op, &events), verdict),
    ensures
        verdict == Verdict::Cancelled <==> exists|i: int|
            0 <= i < events@.len() && (#[trigger] events@[i]).token == STOP_TOKEN,
        verdict == Verdict::Undecided <==> forall|i: int|
            0 <= i < events@.len() ==> (#[trigger] events@[i]).token != STOP_TOKEN && !(
            events@[i].token == OBJECT_TOKEN && match op.need {
                Need::Readable => events@[i].readable,
                Need::Writable => events@[i].writable,
                Need::Any => true,
            }),
{
    if verdict == Verdict::Perform {
        let i = choose|i: int| 0 <= i < events@.len() && op.ready(#[trigger] events@[i]);
        assert(events@[i].token == OBJECT_TOKEN);
    }
    if verdict == Verdict::Undecided {
        assert forall|i: int| 0 <= i < events@.len() implies (#[trigger] events@[i]).token
            != STOP_TOKEN && !(events@[i].token == OBJECT_TOKEN && match op.need {
            Need::Readable => events@[i].readable,
            Need::Writable => events@[i].writable,
            Need::Any => true,
        }) by {
            assert(!op.ready(events@[i]));
        }
    }
}

/// Acting and cancelling do not depend on the mode or the time; giving up does.
pub proof fn step_after_a_verdict(op: Operation, verdict: Verdict, elapsed: Duration, step: Step)
    requires
        call_ensures(Operation::after, (&op, verdict, elapsed), step),
    ensures
        step is Perform <==> verdict == Verdict::Perform,
        verdict == Verdict::Cancelled ==> step is Fail && forall|recognised: bool| #[trigger]
            call_ensures(is_cancelled, (&step->Fail_0,), recognised) ==> recognised,
        verdict == Verdict::Undecided && op.nonblocking ==> step is Fail && error_kind(
            step->Fail_0,
        ) == ErrorKind::WouldBlock,
        verdict == Verdict::Undecided && !op.nonblocking && op.timeout is None ==> step
            == Step::Wait(None),
        step is Wait ==> !op.nonblocking,
        step is Wait && op.timeout is Some && duration_nanos(op.timeout->Some_0) > 0 ==> (
        step->Wait_0 is Some && duration_nanos(step->Wait_0->Some_0) + duration_nanos(elapsed)
            == duration_nanos(op.timeout->Some_0)),
        verdict == Verdict::Undecided && !op.nonblocking && step is Fail ==> error_kind(
            step->Fail_0,
        ) == ErrorKind::TimedOut,
        verdict == Verdict::Undecided && !op.nonblocking && op.timeout is Some && duration_nanos(
            op.timeout->Some_0,
        ) > 0 ==> (step is Wait <==> duration_nanos(elapsed) < duration_nanos(op.timeout->Some_0)),
        verdict == Verdict::Undecided && !op.nonblocking && op.timeout is Some && duration_nanos(
            op.timeout->Some_0,
        ) == 0 ==> step == Step::Wait(op.timeout),
{
}

/// The first poll takes no time in nonblocking mode, and the whole timeout otherwise.
pub proof fn first_poll_takes_the_timeout(op: Operation, time: Option<Duration>)
    requires
        call_ensures(Operation::wait_time, (&op,), time),
    ensures
        op.nonblocking ==> time is Some && duration_nanos(time->Some_0) == 0,
        !op.nonblocking ==> time == op.timeout,
{
}

/// The mode decides whether an operation waits. In nonblocking mode its first poll takes no time
/// and decides, whatever it reports. In blocking mode its first poll takes the whole timeout, and
/// it never gives up as one that would block.
pub proof fn mode_decides_about_waiting(
    op: Operation,
    time: Option<Duration>,
    polled: Result<usize, io::Error>,
    events: mio::Events,
    elapsed: Duration,
    step: Step,
)
    requires
        call_ensures(Operation::wait_time, (&op,), time),
        call_ensures(Operation::resume, (&op, polled, &events, elapsed), step),
    ensures
        op.nonblocking ==> time is Some && duration_nanos(time->Some_0) == 0 && !(step is Wait),
        !op.nonblocking ==> time == op.timeout,
        !op.nonblocking && polled is Ok && step is Fail ==> error_kind(step->Fail_0)
            != ErrorKind::WouldBlock,
        !op.nonblocking && op.timeout is None && polled is Ok && step is Fail ==> error_kind(
            step->Fail_0,
        ) == ErrorKind::Other,
        !op.nonblocking && polled is Ok && events_view(events).len() == 0 && op.timeout is None
            ==> step == Step::Wait(None),
{
}

/// A poll has nothing for the operation: no stop, and no event of the socket that it needs.
pub open spec fn nothing_for(need: Need, events: Seq<ReadyEvent>) -> bool {
    forall|j: int|
        0 <= j < events.len() ==> (#[trigger] events[j]).token != STOP_TOKEN && (events[j].token
            == OBJECT_TOKEN ==> match need {
            Need::Readable => !events[j].readable,
            Need::Writable => !events[j].writable,
            Need::Any => false,
        })
}

/// The poll came back while a blocking operation may still wait, and had nothing for it.
pub open spec fn is_fruitless(op: Operation, round: Round) -> bool {
    match round {
        Round::Failed(_) => false,
        Round::Polled(events, elapsed) => !op.nonblocking && nothing_for(op.need, events) && (
        op.timeout matches Some(limit) ==> duration_nanos(limit) == 0 || duration_nanos(elapsed)
            < duration_nanos(limit)),
    }
}

/// A round of which `is_fruitless` holds leaves the operation waiting.
proof fn lemma_fruitless_round_goes_on(op: Operation, round: Round)
    requires
        is_fruitless(op, round),
    ensures
        op.round_outcome(round) is None,
{
}

/// How a blocking operation ends, over all its polls: after any number of polls that had nothing
/// for it, the first one that has decides. A stop cancels it; else the socket being ready makes
/// it act; a failed poll fails it; and nothing, once the timeout has passed, times it out.
pub proof fn first_fruitful_round_decides(
    op: Operation,
    waited: Seq<Round>,
    round: Round,
    later: Seq<Round>,
)
    requires
        !op.nonblocking,
        forall|k: int| 0 <= k < waited.len() ==> is_fruitless(op, #[trigger] waited[k]),
    ensures
        match round {
            Round::Failed(e) => op.outcome(waited + (seq![round] + later)) == Some(
                Outcome::PollFailed(e),
            ),
            Round::Polled(events, elapsed) => {
                &&& (exists|i: int|
                    0 <= i < events.len() && (#[trigger] events[i]).token == STOP_TOKEN)
                    ==> op.outcome(waited + (seq![round] + later)) == Some(Outcome::Cancelled)
                &&& (forall|i: int|
                    0 <= i < events.len() ==> (#[trigger] events[i]).token != STOP_TOKEN)
                    && !nothing_for(op.need, events) ==> op.outcome(waited + (seq![round] + later))
                    == Some(Outcome::Perform)
                &&& nothing_for(op.need, events) && !is_fruitless(op, round) ==> op.outcome(
                    waited + (seq![round] + later),
                ) == Some(Outcome::TimedOut)
                &&& is_fruitless(op, round) ==> op.outcome(waited + (seq![round] + later))
                    == op.outcome(later)
            },
        },
{
    let rounds = seq![round] + later;
    assert forall|k: int| 0 <= k < waited.len() implies op.round_outcome(
        #[trigger] waited[k],
    ) is None by {
        lemma_fruitless_round_goes_on(op, waited[k]);
    }
    fruitless_rounds_are_forgotten(op, waited, rounds);
    assert(rounds[0] == round);
    assert(rounds.drop_first() =~= later);
    if round is Polled {
        let events = round->Polled_0;
        if (forall|i: int| 0 <= i < events.len() ==> (#[trigger] events[i]).token != STOP_TOKEN)
            && !nothing_for(op.need, events) {
            let j = choose|j: int|
                0 <= j < events.len() && !((#[trigger] events[j]).token != STOP_TOKEN && (
                events[j].token == OBJECT_TOKEN ==> match op.need {
                    Need::Readable => !events[j].readable,
                    Need::Writable => !events[j].writable,
                    Need::Any => false,
                }));
            assert(op.ready(events[j]));
        }
        if is_fruitless(op, round) {
            lemma_fruitless_round_goes_on(op, round);
        }
    }
}

} // verus!
