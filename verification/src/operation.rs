//! Waiting operations: reading, writing and accepting, all of which a canceller can cut short.
//!
//! An [`Operation`] takes the decisions; whoever runs it polls and acts. It polls for
//! [`Operation::wait_time`], hands what came back, and how much time has passed since the
//! operation began, to [`Operation::resume`], and does what the [`Step`] says.
use crate::error::{
    ErrorKind, cancelled, cancelled_error, error_kind, timed_out_error, would_block_error,
};
use crate::readiness::{Direction, OBJECT_TOKEN, ReadyEvent, STOP_TOKEN, event_list, events_view};
use std::io;
use std::time::Duration;
use vstd::prelude::*;

verus! {

/// What has to be reported of the socket before an operation can be carried out.
#[derive(Clone, Copy, Debug, PartialEq, Eq, Structural)]
pub enum Need {
    /// That it can be read from.
    Readable,
    /// That it can be written to.
    Writable,
    /// Anything at all.
    Any,
}

/// What a list of events says of a waiting operation.
#[derive(Clone, Copy, Debug, PartialEq, Eq, Structural)]
pub enum Verdict {
    /// The socket is ready, and the canceller was not used.
    Perform,
    /// The canceller was used, whether or not the socket is ready.
    Cancelled,
    /// Neither.
    Undecided,
}

/// An operation that waits until its socket is ready.
#[derive(Clone, Copy, Debug)]
pub struct Operation {
    /// What it waits for.
    pub need: Need,
    /// Whether it gives up rather than wait.
    pub nonblocking: bool,
    /// How long it waits at most, where it does wait. `None` is without limit, and so is zero,
    /// with which it polls without rest.
    pub timeout: Option<Duration>,
}

/// What to do next with an operation.
#[derive(Debug)]
pub enum Step {
    /// Poll again, for at most this long.
    Wait(Option<Duration>),
    /// Carry the operation out on the socket, and return what comes of it.
    Perform,
    /// Return this error.
    Fail(io::Error),
}

/// The number of nanoseconds in a duration, as [`std::time::Duration::as_nanos`] counts them.
pub uninterp spec fn duration_nanos(duration: Duration) -> nat;

/// `std::time::Duration::from_millis`: so many milliseconds, to the nanosecond.
pub assume_specification[ Duration::from_millis ](millis: u64) -> (duration: Duration)
    ensures
        duration_nanos(duration) == millis as nat * 1_000_000,
;

/// `std::time::Duration::checked_sub`: the difference, unless it would be negative.
pub assume_specification[ Duration::checked_sub ](
    duration: Duration,
    other: Duration,
) -> (difference: Option<Duration>)
    ensures
        difference is Some <==> duration_nanos(other) <= duration_nanos(duration),
        difference matches Some(left) ==> duration_nanos(left) == duration_nanos(duration)
            - duration_nanos(other),
;

/// Whether a duration is no time at all.
fn is_zero(duration: Duration) -> (r: bool)
    ensures
        r == (duration_nanos(duration) == 0),
{
    Duration::from_millis(0).checked_sub(duration).is_some()
}

/// What one poll of an operation came back with.
pub enum Round {
    /// The poll failed.
    Failed(io::Error),
    /// It reported these events, so long after the operation began.
    Polled(Seq<ReadyEvent>, Duration),
}

/// How the waiting of an operation ends.
pub enum Outcome {
    /// The operation is carried out.
    Perform,
    /// It is cancelled.
    Cancelled,
    /// It gives up: there is nothing to do without waiting.
    WouldBlock,
    /// Its timeout has passed.
    TimedOut,
    /// A poll failed with this error.
    PollFailed(io::Error),
}

/// The round of a poll that returned `polled` and filled the buffer with `events`, so long after
/// the operation began.
pub open spec fn round_of(
    polled: Result<usize, io::Error>,
    events: Seq<ReadyEvent>,
    elapsed: Duration,
) -> Round {
    match polled {
        Err(e) => Round::Failed(e),
        Ok(_) => Round::Polled(events, elapsed),
    }
}

/// The canceller was used, and the poll reports it.
pub open spec fn stopped(events: Seq<ReadyEvent>) -> bool {
    exists|i: int| 0 <= i < events.len() && (#[trigger] events[i]).token == STOP_TOKEN
}

impl Operation {
    /// The event makes the operation ready to be carried out.
    pub open spec fn ready(self, event: ReadyEvent) -> bool {
        &&& event.token == OBJECT_TOKEN
        &&& match self.need {
            Need::Readable => event.readable,
            Need::Writable => event.writable,
            Need::Any => true,
        }
    }

    /// A socket that is ready in these directions meets the need of the operation.
    pub open spec fn met_by(self, directions: Set<Direction>) -> bool {
        match self.need {
            Need::Readable => directions.contains(Direction::Readable),
            Need::Writable => directions.contains(Direction::Writable),
            Need::Any => directions != Set::<Direction>::empty(),
        }
    }

    /// What a list of events says: a stop counts wherever it stands, and even if the socket is
    /// ready.
    pub open spec fn verdict(self, events: Seq<ReadyEvent>) -> Verdict {
        if stopped(events) {
            Verdict::Cancelled
        } else if exists|i: int| 0 <= i < events.len() && self.ready(#[trigger] events[i]) {
            Verdict::Perform
        } else {
            Verdict::Undecided
        }
    }

    /// The operation has a timeout that limits how long it waits: one other than zero.
    pub open spec fn limited(self) -> bool {
        self.timeout matches Some(limit) && duration_nanos(limit) > 0
    }

    /// The operation may wait no longer, so much time after it began.
    pub open spec fn expired(self, elapsed: Duration) -> bool {
        self.limited() && duration_nanos(self.timeout->Some_0) <= duration_nanos(elapsed)
    }

    /// How a round ends the waiting; `None` if it goes on.
    pub open spec fn round_outcome(self, round: Round) -> Option<Outcome> {
        match round {
            Round::Failed(e) => Some(Outcome::PollFailed(e)),
            Round::Polled(events, elapsed) => match self.verdict(events) {
                Verdict::Perform => Some(Outcome::Perform),
                Verdict::Cancelled => Some(Outcome::Cancelled),
                Verdict::Undecided => if self.nonblocking {
                    Some(Outcome::WouldBlock)
                } else if self.expired(elapsed) {
                    Some(Outcome::TimedOut)
                } else {
                    None
                },
            },
        }
    }

    /// How the waiting ends over successive rounds; `None` if it is still going on after them.
    pub open spec fn outcome(self, rounds: Seq<Round>) -> Option<Outcome>
        decreases rounds.len(),
    {
        if rounds.len() == 0 {
            None
        } else {
            match self.round_outcome(rounds[0]) {
                Some(outcome) => Some(outcome),
                None => self.outcome(rounds.drop_first()),
            }
        }
    }

    /// The next poll may take `time`, so much time after the operation began: what is left of
    /// the timeout if that limits the operation, and otherwise as long as the first poll.
    pub open spec fn leaves(self, elapsed: Duration, time: Option<Duration>) -> bool {
        if self.limited() {
            time matches Some(left) && duration_nanos(left) == duration_nanos(self.timeout->Some_0)
                - duration_nanos(elapsed)
        } else {
            time == self.timeout
        }
    }

    /// The step is the one to take after a round that ended so, or did not end the waiting, so
    /// much time after the operation began.
    pub open spec fn follows(
        self,
        step: Step,
        outcome: Option<Outcome>,
        elapsed: Duration,
    ) -> bool {
        match outcome {
            None => step matches Step::Wait(time) && self.leaves(elapsed, time),
            Some(Outcome::Perform) => step is Perform,
            Some(Outcome::Cancelled) => step matches Step::Fail(e) && cancelled(e),
            Some(Outcome::WouldBlock) => step matches Step::Fail(e) && error_kind(e)
                == ErrorKind::WouldBlock,
            Some(Outcome::TimedOut) => step matches Step::Fail(e) && error_kind(e)
                == ErrorKind::TimedOut,
            Some(Outcome::PollFailed(error)) => step == Step::Fail(error),
        }
    }

    /// How long the first poll of the operation may take, `None` being without limit: no time
    /// at all in nonblocking mode, and otherwise the whole timeout.
    pub fn wait_time(&self) -> (time: Option<Duration>)
        ensures
            if self.nonblocking {
                time matches Some(duration) && duration_nanos(duration) == 0
            } else {
                time == self.timeout
            },
    {
        if self.nonblocking {
            Some(Duration::from_millis(0))
        } else {
            self.timeout
        }
    }

    /// What one event alone says of the operation.
    pub fn observe(&self, event: &ReadyEvent) -> (verdict: Verdict)
        ensures
            verdict == (if event.token == STOP_TOKEN {
                Verdict::Cancelled
            } else if self.ready(*event) {
                Verdict::Perform
            } else {
                Verdict::Undecided
            }),
    {
        if event.token == OBJECT_TOKEN {
            let ready: bool = match self.need {
                Need::Readable => event.readable,
                Need::Writable => event.writable,
                Need::Any => true,
            };
            if ready {
                Verdict::Perform
            } else {
                Verdict::Undecided
            }
        } else if event.token == STOP_TOKEN {
            Verdict::Cancelled
        } else {
            Verdict::Undecided
        }
    }

    /// What a list of events says of the operation.
    pub fn scan(&self, events: &Vec<ReadyEvent>) -> (verdict: Verdict)
        ensures
            verdict == self.verdict(events@),
    {
        let mut verdict = Verdict::Undecided;
        let mut i: usize = 0;
        while i < events.len()
            invariant
                i <= events.len(),
                verdict != Verdict::Cancelled,
                forall|j: int| 0 <= j < i ==> (#[trigger] events@[j]).token != STOP_TOKEN,
                verdict == Verdict::Perform <==> exists|j: int|
                    0 <= j < i && self.ready(#[trigger] events@[j]),
            decreases events.len() - i,
        {
            match self.observe(&events[i]) {
                Verdict::Cancelled => {
                    assert(stopped(events@));
                    return Verdict::Cancelled;
                },
                Verdict::Perform => {
                    verdict = Verdict::Perform;
                },
                Verdict::Undecided => {},
            }
            i += 1;
        }
        verdict
    }

    /// The step to take on a verdict, so much time after the operation began.
    pub fn after(&self, verdict: Verdict, elapsed: Duration) -> (step: Step)
        ensures
            match verdict {
                Verdict::Perform => step is Perform,
                Verdict::Cancelled => step matches Step::Fail(e) && cancelled(e),
                Verdict::Undecided => if self.nonblocking {
                    step matches Step::Fail(e) && error_kind(e) == ErrorKind::WouldBlock
                } else if self.expired(elapsed) {
                    step matches Step::Fail(e) && error_kind(e) == ErrorKind::TimedOut
                } else {
                    step matches Step::Wait(time) && self.leaves(elapsed, time)
                },
            },
    {
        match verdict {
            Verdict::Perform => Step::Perform,
            Verdict::Cancelled => Step::Fail(cancelled_error()),
            Verdict::Undecided => if self.nonblocking {
                Step::Fail(would_block_error())
            } else {
                match self.timeout {
                    None => Step::Wait(None),
                    Some(limit) => if is_zero(limit) {
                        Step::Wait(self.timeout)
                    } else if elapsed.checked_sub(limit).is_some() {
                        Step::Fail(timed_out_error())
                    } else {
                        Step::Wait(limit.checked_sub(elapsed))
                    },
                }
            },
        }
    }

    /// The step to take after a poll: `polled` is what the poll returned, `events` the buffer
    /// that it filled, and `elapsed` the time since the operation began.
    pub fn resume(
        &self,
        polled: Result<usize, io::Error>,
        events: &mio::Events,
        elapsed: Duration,
    ) -> (step: Step)
        ensures
            self.follows(
                step,
                self.round_outcome(round_of(polled, events_view(*events), elapsed)),
                elapsed,
            ),
            forall|later: Seq<Round>|
                #[trigger] self.outcome(
                    seq![round_of(polled, events_view(*events), elapsed)] + later,
                ) == (if step is Wait {
                    self.outcome(later)
                } else {
                    self.round_outcome(round_of(polled, events_view(*events), elapsed))
                }),
    {
        proof {
            let round = round_of(polled, events_view(*events), elapsed);
            assert forall|later: Seq<Round>|
                #[trigger] self.outcome(seq![round] + later) == (match self.round_outcome(round) {
                    Some(outcome) => Some(outcome),
                    None => self.outcome(later),
                }) by {
                assert((seq![round] + later)[0] == round);
                assert((seq![round] + later).drop_first() =~= later);
            }
        }
        match polled {
            Err(e) => Step::Fail(e),
            Ok(_) => {
                let list = event_list(events);
                let verdict = self.scan(&list);
                self.after(verdict, elapsed)
            },
        }
    }
}

/// A poll that reports a stop cancels the operation, whatever else it reports and in whatever
/// order.
pub proof fn stop_cancels(
    op: Operation,
    before: Seq<ReadyEvent>,
    stop: ReadyEvent,
    after: Seq<ReadyEvent>,
)
    requires
        stop.token == STOP_TOKEN,
    ensures
        op.verdict(before + (seq![stop] + after)) == Verdict::Cancelled,
{
    let events = before + (seq![stop] + after);
    assert(events[before.len() as int] == stop);
}

/// Rounds that do not end the waiting leave no trace: the operation ends as it would have
/// without them.
pub proof fn fruitless_rounds_are_forgotten(op: Operation, waited: Seq<Round>, rounds: Seq<Round>)
    requires
        forall|k: int| 0 <= k < waited.len() ==> op.round_outcome(#[trigger] waited[k]) is None,
    ensures
        op.outcome(waited) is None,
        op.outcome(waited + rounds) == op.outcome(rounds),
    decreases waited.len(),
{
    if waited.len() == 0 {
        assert(waited + rounds =~= rounds);
    } else {
        let rest = waited.drop_first();
        assert forall|k: int| 0 <= k < rest.len() implies op.round_outcome(
            #[trigger] rest[k],
        ) is None by {
            assert(rest[k] == waited[k + 1]);
        }
        assert((waited + rounds)[0] == waited[0]);
        assert((waited + rounds).drop_first() =~= rest + rounds);
        fruitless_rounds_are_forgotten(op, rest, rounds);
    }
}

/// A pending operation is aborted by its canceller: after any number of fruitless rounds, the
/// first poll that reports a stop ends the operation as cancelled, even if the socket is ready
/// too or the timeout has passed, and whatever would have come later. With no round before it,
/// this is the operation that starts after the canceller was used.
pub proof fn pending_operation_is_cancelled(
    op: Operation,
    waited: Seq<Round>,
    events: Seq<ReadyEvent>,
    elapsed: Duration,
    later: Seq<Round>,
)
    requires
        forall|k: int| 0 <= k < waited.len() ==> op.round_outcome(#[trigger] waited[k]) is None,
        stopped(events),
    ensures
        op.outcome(waited + (seq![Round::Polled(events, elapsed)] + later)) == Some(
            Outcome::Cancelled,
        ),
{
    let rounds = seq![Round::Polled(events, elapsed)] + later;
    fruitless_rounds_are_forgotten(op, waited, rounds);
    assert(rounds[0] == Round::Polled(events, elapsed));
}

/// A timeout ends the operation: in blocking mode, after any number of fruitless rounds, the
/// first poll that comes back with nothing decisive once the timeout has passed ends it as
/// timed out.
pub proof fn timeout_ends_the_operation(
    op: Operation,
    waited: Seq<Round>,
    events: Seq<ReadyEvent>,
    elapsed: Duration,
    later: Seq<Round>,
)
    requires
        !op.nonblocking,
        forall|k: int| 0 <= k < waited.len() ==> op.round_outcome(#[trigger] waited[k]) is None,
        op.verdict(events) == Verdict::Undecided,
        op.expired(elapsed),
    ensures
        op.outcome(waited + (seq![Round::Polled(events, elapsed)] + later)) == Some(
            Outcome::TimedOut,
        ),
{
    let rounds = seq![Round::Polled(events, elapsed)] + later;
    fruitless_rounds_are_forgotten(op, waited, rounds);
    assert(rounds[0] == Round::Polled(events, elapsed));
}

/// An operation does not time out early: if it times out, it is in blocking mode, its timeout is
/// not zero, and some poll came back after that had passed.
pub proof fn operation_does_not_time_out_early(op: Operation, rounds: Seq<Round>)
    requires
        op.outcome(rounds) == Some(Outcome::TimedOut),
    ensures
        !op.nonblocking,
        op.limited(),
        exists|k: int|
            0 <= k < rounds.len() && (#[trigger] rounds[k] matches Round::Polled(_, elapsed)
                && op.expired(elapsed)),
    decreases rounds.len(),
{
    if op.round_outcome(rounds[0]) is None {
        let rest = rounds.drop_first();
        operation_does_not_time_out_early(op, rest);
        let k = choose|k: int|
            0 <= k < rest.len() && (#[trigger] rest[k] matches Round::Polled(_, elapsed)
                && op.expired(elapsed));
        assert(rounds[k + 1] == rest[k]);
    } else {
        assert(rounds[0] matches Round::Polled(_, elapsed) && op.expired(elapsed));
    }
}

/// The error of an operation tells a cancellation from everything else: as long as polling
/// itself does not fail, the operation returns a cancelled error exactly if it was cancelled.
pub proof fn cancelled_error_means_cancelled(
    op: Operation,
    step: Step,
    outcome: Option<Outcome>,
    elapsed: Duration,
)
    requires
        op.follows(step, outcome, elapsed),
        !(outcome matches Some(Outcome::PollFailed(_))),
    ensures
        (step matches Step::Fail(e) && cancelled(e)) <==> outcome == Some(Outcome::Cancelled),
{
}

/// In nonblocking mode an operation never waits: its first poll, which takes no time, decides.
pub proof fn nonblocking_operation_ends_at_once(op: Operation, rounds: Seq<Round>)
    requires
        op.nonblocking,
        rounds.len() > 0,
    ensures
        op.outcome(rounds) is Some,
        op.outcome(rounds) == op.round_outcome(rounds[0]),
{
}

/// In blocking mode, without a timeout or with one of zero, an operation never gives up: its
/// waiting ends with the socket ready, with a cancellation or with a failed poll.
pub proof fn untimed_operation_never_gives_up(op: Operation, rounds: Seq<Round>)
    requires
        !op.nonblocking,
        !op.limited(),
    ensures
        op.outcome(rounds) != Some(Outcome::WouldBlock),
        op.outcome(rounds) != Some(Outcome::TimedOut),
    decreases rounds.len(),
{
    if rounds.len() > 0 {
        untimed_operation_never_gives_up(op, rounds.drop_first());
    }
}

} // verus!
