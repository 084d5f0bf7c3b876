//! Readiness: what a socket is registered for, and what a poll reports of it.
use vstd::prelude::*;

verus! {

/// Token of the registration through which an operation is cancelled.
pub const STOP_TOKEN: usize = 0;

/// Token of the registration of the socket itself.
pub const OBJECT_TOKEN: usize = 1;

/// Number of events that one poll can report.
pub const EVENT_CAPACITY: usize = 4;

/// A way in which a socket can be ready.
#[derive(Clone, Copy, Debug, PartialEq, Eq, Structural)]
pub enum Direction {
    /// It can be read from.
    Readable,
    /// It can be written to.
    Writable,
}

/// When a registration reports readiness.
#[derive(Clone, Copy, Debug, PartialEq, Eq, Structural)]
pub enum Trigger {
    /// Once, when it changes.
    Edge,
    /// In every poll while it lasts.
    Level,
}

/// One event of a poll: the registration it is about, and how that is ready.
#[derive(Clone, Copy, Debug, PartialEq, Eq, Structural)]
pub struct ReadyEvent {
    /// Token of the registration.
    pub token: usize,
    /// Whether it can be read from.
    pub readable: bool,
    /// Whether it can be written to.
    pub writable: bool,
}

/// A set of readiness kinds, as `mio` has it.
#[verifier::external_type_specification]
#[verifier::external_body]
pub struct ExReady(mio::Ready);

/// The set of options of a registration, as `mio` has it.
#[verifier::external_type_specification]
#[verifier::external_body]
pub struct ExPollOpt(mio::PollOpt);

/// The buffer of events that a poll of `mio` fills.
#[verifier::external_type_specification]
#[verifier::external_body]
pub struct ExEvents(mio::Events);

/// The directions that a readiness set holds.
pub uninterp spec fn ready_set(ready: mio::Ready) -> Set<Direction>;

/// The triggers that a set of registration options holds.
pub uninterp spec fn trigger_set(options: mio::PollOpt) -> Set<Trigger>;

/// The events in a buffer, in the order in which it hands them out.
pub uninterp spec fn events_view(events: mio::Events) -> Seq<ReadyEvent>;

/// The number of events that a buffer was made for.
pub uninterp spec fn events_limit(events: mio::Events) -> nat;

/// `mio::Ready::readable` is the set of the readable direction alone.
pub assume_specification[ mio::Ready::readable ]() -> (ready: mio::Ready)
    ensures
        ready_set(ready) == set![Direction::Readable],
;

/// `mio::Ready::writable` is the set of the writable direction alone.
pub assume_specification[ mio::Ready::writable ]() -> (ready: mio::Ready)
    ensures
        ready_set(ready) == set![Direction::Writable],
;

/// `mio::PollOpt::edge` asks for the edge trigger alone.
pub assume_specification[ mio::PollOpt::edge ]() -> (options: mio::PollOpt)
    ensures
        trigger_set(options) == set![Trigger::Edge],
;

/// `mio::PollOpt::level` asks for the level trigger alone.
pub assume_specification[ mio::PollOpt::level ]() -> (options: mio::PollOpt)
    ensures
        trigger_set(options) == set![Trigger::Level],
;

/// The operator `|` of `mio::Ready`: the union of the two sets.
#[verifier::external_body]
fn ready_union(a: mio::Ready, b: mio::Ready) -> (ready: mio::Ready)
    ensures
        ready_set(ready) == ready_set(a).union(ready_set(b)),
{
    a | b
}

/// `mio::Events::with_capacity`: a buffer without events, made for `capacity` of them. It
/// panics where so many events do not fit in memory, which the bound keeps well away from.
pub assume_specification[ mio::Events::with_capacity ](capacity: usize) -> (events: mio::Events)
    requires
        capacity <= 1024,
    ensures
        events_view(events) == Seq::<ReadyEvent>::empty(),
        events_limit(events) == capacity,
;

/// `mio::Events::iter`: hands out the events in order, here the one at an index, or `None` past
/// the last one. The event is taken apart into its token and its two directions.
#[verifier::external_body]
fn event_at(events: &mio::Events, index: usize) -> (event: Option<ReadyEvent>)
    ensures
        event == (if index < events_view(*events).len() {
            Some(events_view(*events)[index as int])
        } else {
            None
        }),
{
    match events.iter().nth(index) {
        Some(event) => Some(
            ReadyEvent {
                token: event.token().0,
                readable: event.readiness().is_readable(),
                writable: event.readiness().is_writable(),
            },
        ),
        None => None,
    }
}

/// Readiness in both directions.
pub fn duplex() -> (ready: mio::Ready)
    ensures
        ready_set(ready) == set![Direction::Readable, Direction::Writable],
{
    let ready = ready_union(mio::Ready::readable(), mio::Ready::writable());
    assert(ready_set(ready) =~= set![Direction::Readable, Direction::Writable]);
    ready
}

/// The buffer into which a socket polls its events.
pub fn event_buffer() -> (events: mio::Events)
    ensures
        events_view(events) == Seq::<ReadyEvent>::empty(),
        events_limit(events) == EVENT_CAPACITY,
{
    mio::Events::with_capacity(EVENT_CAPACITY)
}

/// The events in a buffer, in order.
pub fn event_list(events: &mio::Events) -> (list: Vec<ReadyEvent>)
    ensures
        list@ == events_view(*events),
{
    let mut list: Vec<ReadyEvent> = Vec::new();
    let mut next: Option<ReadyEvent> = event_at(events, 0);
    loop
        invariant
            list@.len() <= events_view(*events).len(),
            list@ == events_view(*events).take(list@.len() as int),
            next == (if list@.len() < events_view(*events).len() {
                Some(events_view(*events)[list@.len() as int])
            } else {
                None
            }),
        ensures
            list@ == events_view(*events),
        decreases events_view(*events).len() - list@.len(),
    {
        match next {
            Some(event) => {
                list.push(event);
                next = event_at(events, list.len());
            },
            None => {
                break ;
            },
        }
    }
    list
}

} // verus!
