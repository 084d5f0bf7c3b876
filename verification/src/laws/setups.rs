//! Laws of setting a socket up.
use crate::canceller::Canceller;
use crate::laws::operations::directions_that_meet_a_need;
use crate::laws::sockets::{receives, sends};
use crate::operation::{Need, Operation};
use crate::readiness::{
    Direction, OBJECT_TOKEN, STOP_TOKEN, Trigger, duplex, ready_set, trigger_set,
};
use crate::setup::{Origin, RegistrationPlan, Setup, SetupAction, connection_result};
use crate::tcp::{TcpListener, TcpStream};
use crate::udp::UdpSocket;
use std::io;
use vstd::prelude::*;

verus! {

/// Having begun as `first`, the setup is `setup` once this many of its actions have succeeded.
pub open spec fn setup_comes_to(first: Setup, successes: nat, setup: Setup) -> bool
    decreases successes,
{
    if successes == 0 {
        setup == first
    } else {
        exists|before: Setup| #[trigger]
            call_ensures(
                Setup::advance,
                (before, Ok::<(), io::Error>(())),
                Ok::<Setup, io::Error>(setup),
            ) && setup_comes_to(first, (successes - 1) as nat, before)
    }
}

/// The plan registers a canceller's end: readable alone, reported at the edge alone, with the
/// token that stands for a stop.
pub open spec fn registers_stop(plan: RegistrationPlan) -> bool {
    &&& plan.token == STOP_TOKEN
    &&& ready_set(plan.interest).contains(Direction::Readable)
    &&& !ready_set(plan.interest).contains(Direction::Writable)
    &&& trigger_set(plan.options).contains(Trigger::Edge)
    &&& !trigger_set(plan.options).contains(Trigger::Level)
}

/// The plan registers a socket: readable, and writable as given, reported while it lasts, with
/// the token that stands for the socket.
pub open spec fn registers_socket(plan: RegistrationPlan, writable: bool) -> bool {
    &&& plan.token == OBJECT_TOKEN
    &&& ready_set(plan.interest).contains(Direction::Readable)
    &&& ready_set(plan.interest).contains(Direction::Writable) == writable
    &&& trigger_set(plan.options).contains(Trigger::Level)
    &&& !trigger_set(plan.options).contains(Trigger::Edge)
}

/// A setup that has had so many successes has done as many tasks and is otherwise as it began.
proof fn lemma_setup_counts_its_successes(first: Setup, successes: nat, setup: Setup)
    requires
        first.done == 0,
        setup_comes_to(first, successes, setup),
    ensures
        setup.done == successes,
        setup.origin == first.origin,
        setup.writable == first.writable,
        setup.shares_options == first.shares_options,
    decreases successes,
{
    if successes > 0 {
        let before = choose|before: Setup| #[trigger]
            call_ensures(
                Setup::advance,
                (before, Ok::<(), io::Error>(())),
                Ok::<Setup, io::Error>(setup),
            ) && setup_comes_to(first, (successes - 1) as nat, before);
        lemma_setup_counts_its_successes(first, (successes - 1) as nat, before);
    }
}

/// A stream that is connected is set up so, one action after the other: a poll, its stop, the
/// socket, whose connection is begun, its registration in both directions, and the wait until
/// the connection is made, which nothing but the canceller cuts short. It has options of its own.
/// At any point it can be asked for its action, and until it finishes it takes any result.
pub proof fn connecting_goes_through_its_actions(
    first: Setup,
    successes: nat,
    setup: Setup,
    action: SetupAction,
)
    requires
        call_ensures(TcpStream::simple_connect, (), first),
        setup_comes_to(first, successes, setup),
        call_ensures(Setup::action, (&setup,), action),
    ensures
        successes == 0 ==> action is CreatePoll,
        successes == 1 ==> action is RegisterStop && registers_stop(action->RegisterStop_0),
        successes == 2 ==> action is OpenSocket,
        successes == 3 ==> action is RegisterSocket && registers_socket(
            action->RegisterSocket_0,
            true,
        ),
        successes == 4 ==> (action matches SetupAction::AwaitConnection(op) && op.need
            == Need::Writable && !op.nonblocking && op.timeout is None),
        successes == 5 ==> action == SetupAction::Finish(false),
        successes <= 5,
        call_requires(Setup::action, (&setup,)),
        successes < 5 ==> forall|result: Result<(), io::Error>| #[trigger]
            call_requires(Setup::advance, (setup, result)),
{
    lemma_setup_counts_its_successes(first, successes, setup);
    lemma_setup_does_not_overrun(first, successes, setup);
}

/// A socket that is bound or duplicated is set up so, one action after the other: a poll, its
/// stop, the socket and its registration. A stream or a UDP socket is registered in both
/// directions, a listener to be read from alone; a duplicate shares the options of its source,
/// and any other socket has its own. At any point it can be asked for its action, and until it
/// finishes it takes any result.
pub proof fn opening_goes_through_its_actions(
    first: Setup,
    listens: bool,
    duplicates: bool,
    successes: nat,
    setup: Setup,
    action: SetupAction,
)
    requires
        (!listens && duplicates && call_ensures(TcpStream::try_clone, (), first)) || (listens
            && !duplicates && call_ensures(TcpListener::simple_bind, (), first)) || (listens
            && duplicates && call_ensures(TcpListener::try_clone, (), first)) || (!listens
            && !duplicates && call_ensures(UdpSocket::simple_bind, (), first)) || (!listens
            && duplicates && call_ensures(UdpSocket::try_clone, (), first)),
        setup_comes_to(first, successes, setup),
        call_ensures(Setup::action, (&setup,), action),
    ensures
        successes == 0 ==> action is CreatePoll,
        successes == 1 ==> action is RegisterStop && registers_stop(action->RegisterStop_0),
        successes == 2 ==> action is OpenSocket,
        successes == 3 ==> action is RegisterSocket && registers_socket(
            action->RegisterSocket_0,
            !listens,
        ),
        successes == 4 ==> action == SetupAction::Finish(duplicates),
        successes <= 4,
        call_requires(Setup::action, (&setup,)),
        successes < 4 ==> forall|result: Result<(), io::Error>| #[trigger]
            call_requires(Setup::advance, (setup, result)),
{
    lemma_setup_counts_its_successes(first, successes, setup);
    lemma_setup_does_not_overrun(first, successes, setup);
}

/// A stream that a listener accepts is set up so, one action after the other: the socket, which
/// is accepted before anything is made for it, a poll, its stop, and its registration in both
/// directions. It has options of its own. At any point it can be asked for its action, and until
/// it finishes it takes any result.
pub proof fn establishing_goes_through_its_actions(
    first: Setup,
    successes: nat,
    setup: Setup,
    action: SetupAction,
)
    requires
        call_ensures(TcpListener::establish, (), first),
        setup_comes_to(first, successes, setup),
        call_ensures(Setup::action, (&setup,), action),
    ensures
        successes == 0 ==> action is OpenSocket,
        successes == 1 ==> action is CreatePoll,
        successes == 2 ==> action is RegisterStop && registers_stop(action->RegisterStop_0),
        successes == 3 ==> action is RegisterSocket && registers_socket(
            action->RegisterSocket_0,
            true,
        ),
        successes == 4 ==> action == SetupAction::Finish(false),
        successes <= 4,
        call_requires(Setup::action, (&setup,)),
        successes < 4 ==> forall|result: Result<(), io::Error>| #[trigger]
            call_requires(Setup::advance, (setup, result)),
{
    lemma_setup_counts_its_successes(first, successes, setup);
    lemma_setup_does_not_overrun(first, successes, setup);
}

/// No more actions succeed than a setup has.
proof fn lemma_setup_does_not_overrun(first: Setup, successes: nat, setup: Setup)
    requires
        first.done == 0,
        setup_comes_to(first, successes, setup),
    ensures
        setup.done <= setup.origin.tasks().len(),
{
}

/// The first action that fails ends the setup with its own error, wherever it stands; one that
/// succeeds never does.
pub proof fn failed_action_ends_the_setup(
    setup: Setup,
    result: Result<(), io::Error>,
    next: Result<Setup, io::Error>,
)
    requires
        call_ensures(Setup::advance, (setup, result), next),
    ensures
        result matches Err(e) ==> next == Err::<Setup, io::Error>(e),
        result is Ok ==> next is Ok,
{
}

/// A setup begins as it is asked for, with nothing done.
pub proof fn setup_begins_as_asked(
    origin: Origin,
    writable: bool,
    shares_options: bool,
    setup: Setup,
)
    requires
        call_ensures(Setup::new, (origin, writable, shares_options), setup),
    ensures
        setup.origin == origin,
        setup.writable == writable,
        setup.shares_options == shares_options,
        setup.done == 0,
{
}

/// A connection is made exactly if the socket could be asked for its pending error and has none;
/// otherwise it fails with whichever error there is.
pub proof fn connection_is_made_without_an_error(
    pending: Result<Option<io::Error>, io::Error>,
    result: Result<(), io::Error>,
)
    requires
        call_ensures(connection_result, (pending,), result),
    ensures
        result is Ok <==> pending == Ok::<Option<io::Error>, io::Error>(None),
        pending matches Ok(Some(e)) ==> result == Err::<(), io::Error>(e),
        pending matches Err(e) ==> result == Err::<(), io::Error>(e),
{
}

/// What a canceller signals is what the stop of every socket is registered for.
pub proof fn canceller_is_heard(setup: Setup, plan: RegistrationPlan, signal: mio::Ready)
    requires
        call_ensures(Setup::action, (&setup,), SetupAction::RegisterStop(plan)),
        call_ensures(Canceller::signal, (), signal),
    ensures
        ready_set(signal).contains(Direction::Readable),
        forall|direction: Direction| #[trigger]
            ready_set(signal).contains(direction) ==> ready_set(plan.interest).contains(direction),
        registers_stop(plan),
{
}

/// Readiness in both directions is just that.
pub proof fn duplex_is_both_directions(ready: mio::Ready)
    requires
        call_ensures(duplex, (), ready),
    ensures
        ready_set(ready).contains(Direction::Readable),
        ready_set(ready).contains(Direction::Writable),
{
}

/// A stream is registered for whatever its reads, writes and flushes wait for, whether it was
/// connected, duplicated or accepted.
pub proof fn streams_hear_what_they_wait_for(
    stream: TcpStream,
    first: Setup,
    setup: Setup,
    plan: RegistrationPlan,
    op: Operation,
)
    requires
        call_ensures(TcpStream::simple_connect, (), first) || call_ensures(
            TcpStream::try_clone,
            (),
            first,
        ) || call_ensures(TcpListener::establish, (), first),
        setup_comes_to(first, 3, setup),
        call_ensures(Setup::action, (&setup,), SetupAction::RegisterSocket(plan)),
        call_ensures(TcpStream::read, (&stream,), op) || call_ensures(
            TcpStream::write,
            (&stream,),
            op,
        ) || call_ensures(TcpStream::flush, (), op),
    ensures
        op.need == Need::Readable ==> ready_set(plan.interest).contains(Direction::Readable),
        op.need == Need::Writable ==> ready_set(plan.interest).contains(Direction::Writable),
        ready_set(plan.interest).contains(Direction::Readable),
        op.met_by(ready_set(plan.interest)),
{
    lemma_setup_counts_its_successes(first, 3, setup);
    directions_that_meet_a_need(op, ready_set(plan.interest));
}

/// A listener is registered for what its accepts wait for, whether it was bound or duplicated.
pub proof fn listeners_hear_what_they_wait_for(
    listener: TcpListener,
    first: Setup,
    setup: Setup,
    plan: RegistrationPlan,
    op: Operation,
)
    requires
        call_ensures(TcpListener::simple_bind, (), first) || call_ensures(
            TcpListener::try_clone,
            (),
            first,
        ),
        setup_comes_to(first, 3, setup),
        call_ensures(Setup::action, (&setup,), SetupAction::RegisterSocket(plan)),
        call_ensures(TcpListener::accept, (&listener,), op),
    ensures
        op.need == Need::Readable ==> ready_set(plan.interest).contains(Direction::Readable),
        op.need == Need::Writable ==> ready_set(plan.interest).contains(Direction::Writable),
        ready_set(plan.interest).contains(Direction::Readable),
        op.met_by(ready_set(plan.interest)),
{
    lemma_setup_counts_its_successes(first, 3, setup);
    directions_that_meet_a_need(op, ready_set(plan.interest));
}

/// A UDP socket is registered for whatever its receives and sends wait for, whether it was bound
/// or duplicated.
pub proof fn udp_sockets_hear_what_they_wait_for(
    socket: UdpSocket,
    first: Setup,
    setup: Setup,
    plan: RegistrationPlan,
    op: Operation,
)
    requires
        call_ensures(UdpSocket::simple_bind, (), first) || call_ensures(
            UdpSocket::try_clone,
            (),
            first,
        ),
        setup_comes_to(first, 3, setup),
        call_ensures(Setup::action, (&setup,), SetupAction::RegisterSocket(plan)),
        receives(socket, op) || sends(socket, op),
    ensures
        op.need == Need::Readable ==> ready_set(plan.interest).contains(Direction::Readable),
        op.need == Need::Writable ==> ready_set(plan.interest).contains(Direction::Writable),
        ready_set(plan.interest).contains(Direction::Readable),
        op.met_by(ready_set(plan.interest)),
{
    lemma_setup_counts_its_successes(first, 3, setup);
    directions_that_meet_a_need(op, ready_set(plan.interest));
}

} // verus!
