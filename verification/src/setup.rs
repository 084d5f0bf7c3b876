//! Setting a socket up, so that operations on it can be polled for and cancelled.
//!
//! A socket needs a poll, with two registrations: one for the socket itself and one through
//! which its canceller wakes the poll. Whoever runs a [`Setup`] carries out its
//! [`Setup::action`], hands the result to [`Setup::advance`], and goes on until the action is
//! [`SetupAction::Finish`].
use crate::operation::{Need, Operation, Verdict, stopped};
use crate::readiness::{
    Direction, OBJECT_TOKEN, ReadyEvent, STOP_TOKEN, Trigger, duplex, ready_set, trigger_set,
};
use std::io;
use vstd::prelude::*;

verus! {

/// Where the socket comes from.
#[derive(Clone, Copy, Debug, PartialEq, Eq, Structural)]
pub enum Origin {
    /// It is connected, once it has a poll. A connection takes time: it is begun first, and
    /// awaited when the socket is registered.
    Connected,
    /// It is opened (bound or duplicated), once it has a poll.
    Opened,
    /// It is accepted from a listener before anything else is done.
    Accepted,
}

/// A task in setting a socket up.
#[derive(Clone, Copy, Debug, PartialEq, Eq, Structural)]
pub enum Task {
    /// Create the poll.
    CreatePoll,
    /// Create the pair of a stop registration and its canceller, and register the former.
    RegisterStop,
    /// Get the socket.
    OpenSocket,
    /// Register the socket.
    RegisterSocket,
    /// Wait until the connection is made, or has failed.
    AwaitConnection,
}

/// How to register something with the poll.
#[derive(Clone, Copy, Debug)]
pub struct RegistrationPlan {
    /// The token that its events carry.
    pub token: usize,
    /// What it is registered for.
    pub interest: mio::Ready,
    /// When it is reported.
    pub options: mio::PollOpt,
}

/// What to do next in setting a socket up.
#[derive(Clone, Copy, Debug)]
pub enum SetupAction {
    /// Create the poll.
    CreatePoll,
    /// Create the pair of a stop registration and its canceller, and register the former.
    RegisterStop(RegistrationPlan),
    /// Get the socket.
    OpenSocket,
    /// Register the socket.
    RegisterSocket(RegistrationPlan),
    /// Run this operation on the socket, take the socket's pending error, and go on with what
    /// [`connection_result`] makes of it.
    AwaitConnection(Operation),
    /// Put the parts together. The flag says whether the socket shares the options of the one it
    /// was duplicated from: see [`crate::shared::Shared::settle`].
    Finish(bool),
}

/// A socket being set up.
#[derive(Clone, Copy, Debug)]
pub struct Setup {
    /// Where the socket comes from.
    pub origin: Origin,
    /// Whether the socket is to be registered for writing besides reading.
    pub writable: bool,
    /// Whether the socket shares the options of the one it was duplicated from.
    pub shares_options: bool,
    /// How many tasks are done.
    pub done: usize,
}

impl Origin {
    /// The tasks, in their order.
    pub open spec fn tasks(self) -> Seq<Task> {
        match self {
            Origin::Connected => seq![
                Task::CreatePoll,
                Task::RegisterStop,
                Task::OpenSocket,
                Task::RegisterSocket,
                Task::AwaitConnection,
            ],
            Origin::Opened => seq![
                Task::CreatePoll,
                Task::RegisterStop,
                Task::OpenSocket,
                Task::RegisterSocket,
            ],
            Origin::Accepted => seq![
                Task::OpenSocket,
                Task::CreatePoll,
                Task::RegisterStop,
                Task::RegisterSocket,
            ],
        }
    }
}

impl RegistrationPlan {
    /// The registration of a canceller's end: readable, reported once.
    pub open spec fn for_stop(self) -> bool {
        &&& self.token == STOP_TOKEN
        &&& ready_set(self.interest) == set![Direction::Readable]
        &&& trigger_set(self.options) == set![Trigger::Edge]
    }

    /// The registration of a socket: readable, and writable if asked for, reported as long as
    /// it lasts.
    pub open spec fn for_socket(self, writable: bool) -> bool {
        &&& self.token == OBJECT_TOKEN
        &&& ready_set(self.interest) == if writable {
            set![Direction::Readable, Direction::Writable]
        } else {
            set![Direction::Readable]
        }
        &&& trigger_set(self.options) == set![Trigger::Level]
    }
}

impl Setup {
    /// No more tasks are done than there are.
    pub open spec fn well_formed(self) -> bool {
        self.done <= self.origin.tasks().len()
    }

    /// The tasks that are left, the next one first.
    pub open spec fn remaining(self) -> Seq<Task> {
        self.origin.tasks().skip(self.done as int)
    }

    /// The setup at its start.
    pub open spec fn starting(origin: Origin, writable: bool, shares_options: bool) -> Setup {
        Setup { origin, writable, shares_options, done: 0 }
    }

    /// The operation that awaits a connection: a socket can be written to once it is connected,
    /// or has failed to.
    pub open spec fn connecting() -> Operation {
        Operation { need: Need::Writable, nonblocking: false, timeout: None }
    }

    /// The action that carries out the next task, or finishes.
    pub open spec fn calls_for(self, action: SetupAction) -> bool {
        if self.remaining().len() == 0 {
            action == SetupAction::Finish(self.shares_options)
        } else {
            match self.remaining()[0] {
                Task::CreatePoll => action is CreatePoll,
                Task::RegisterStop => action matches SetupAction::RegisterStop(plan)
                    && plan.for_stop(),
                Task::OpenSocket => action is OpenSocket,
                Task::RegisterSocket => action matches SetupAction::RegisterSocket(plan)
                    && plan.for_socket(self.writable),
                Task::AwaitConnection => action == SetupAction::AwaitConnection(
                    Setup::connecting(),
                ),
            }
        }
    }

    /// What the setup comes to if the tasks that are left have these results, one after the
    /// other.
    pub open spec fn result(self, results: Seq<Result<(), io::Error>>) -> Result<(), io::Error>
        decreases self.origin.tasks().len() - self.done,
    {
        if self.done >= self.origin.tasks().len() {
            Ok(())
        } else {
            match results[0] {
                Err(e) => Err(e),
                Ok(()) => (Setup { done: (self.done + 1) as usize, ..self }).result(
                    results.drop_first(),
                ),
            }
        }
    }

    /// Starts setting a socket up.
    pub fn new(origin: Origin, writable: bool, shares_options: bool) -> (setup: Setup)
        ensures
            setup == Setup::starting(origin, writable, shares_options),
            setup.well_formed(),
            setup.remaining() == origin.tasks(),
    {
        let setup = Setup { origin, writable, shares_options, done: 0 };
        assert(setup.remaining() =~= origin.tasks());
        setup
    }

    /// The registration of the canceller's end.
    fn stop_plan() -> (plan: RegistrationPlan)
        ensures
            plan.for_stop(),
    {
        RegistrationPlan {
            token: STOP_TOKEN,
            interest: mio::Ready::readable(),
            options: mio::PollOpt::edge(),
        }
    }

    /// The registration of the socket.
    fn socket_plan(&self) -> (plan: RegistrationPlan)
        ensures
            plan.for_socket(self.writable),
    {
        let interest = if self.writable {
            duplex()
        } else {
            mio::Ready::readable()
        };
        RegistrationPlan { token: OBJECT_TOKEN, interest, options: mio::PollOpt::level() }
    }

    /// The task to be done next.
    fn task(&self) -> (task: Option<Task>)
        requires
            self.well_formed(),
        ensures
            task == (if self.remaining().len() == 0 {
                None
            } else {
                Some(self.remaining()[0])
            }),
    {
        match (self.origin, self.done) {
            (Origin::Connected, 0) | (Origin::Opened, 0) => Some(Task::CreatePoll),
            (Origin::Connected, 1) | (Origin::Opened, 1) => Some(Task::RegisterStop),
            (Origin::Connected, 2) | (Origin::Opened, 2) => Some(Task::OpenSocket),
            (Origin::Connected, 4) => Some(Task::AwaitConnection),
            (Origin::Accepted, 0) => Some(Task::OpenSocket),
            (Origin::Accepted, 1) => Some(Task::CreatePoll),
            (Origin::Accepted, 2) => Some(Task::RegisterStop),
            (_, 3) => Some(Task::RegisterSocket),
            (_, _) => None,
        }
    }

    /// What to do next.
    pub fn action(&self) -> (action: SetupAction)
        requires
            self.well_formed(),
        ensures
            self.calls_for(action),
    {
        match self.task() {
            None => SetupAction::Finish(self.shares_options),
            Some(Task::CreatePoll) => SetupAction::CreatePoll,
            Some(Task::RegisterStop) => SetupAction::RegisterStop(Setup::stop_plan()),
            Some(Task::OpenSocket) => SetupAction::OpenSocket,
            Some(Task::RegisterSocket) => SetupAction::RegisterSocket(self.socket_plan()),
            Some(Task::AwaitConnection) => SetupAction::AwaitConnection(
                Operation { need: Need::Writable, nonblocking: false, timeout: None },
            ),
        }
    }

    /// Goes on after the action was carried out; the first failure ends the setup.
    pub fn advance(self, result: Result<(), io::Error>) -> (next: Result<Setup, io::Error>)
        requires
            self.well_formed(),
            self.remaining().len() > 0,
        ensures
            match result {
                Err(e) => next == Err::<Setup, io::Error>(e),
                Ok(()) => next matches Ok(setup) && setup == (Setup {
                    done: (self.done + 1) as usize,
                    ..self
                }) && setup.well_formed() && setup.remaining() == self.remaining().drop_first(),
            },
            forall|results: Seq<Result<(), io::Error>>|
                results.len() == self.remaining().len() && results[0] == result ==> match next {
                    Err(e) => #[trigger] self.result(results) == Err::<(), io::Error>(e),
                    Ok(setup) => self.result(results) == setup.result(results.drop_first()),
                },
    {
        match result {
            Err(e) => Err(e),
            Ok(()) => {
                let setup = Setup { done: self.done + 1, ..self };
                assert(setup.remaining() =~= self.remaining().drop_first());
                Ok(setup)
            },
        }
    }
}

/// What awaiting a connection comes to, given the socket's pending error, or the error of asking
/// for it: the connection is made if there is neither.
pub fn connection_result(pending: Result<Option<io::Error>, io::Error>) -> (result: Result<
    (),
    io::Error,
>)
    ensures
        result == (match pending {
            Ok(None) => Ok::<(), io::Error>(()),
            Ok(Some(e)) => Err(e),
            Err(e) => Err(e),
        }),
{
    match pending {
        Ok(None) => Ok(()),
        Ok(Some(e)) => Err(e),
        Err(e) => Err(e),
    }
}

/// The first task that fails ends the setup with its error; with none, the socket is set up.
pub proof fn first_failure_ends_setup(
    setup: Setup,
    results: Seq<Result<(), io::Error>>,
)
    requires
        setup.well_formed(),
        results.len() == setup.remaining().len(),
    ensures
        (forall|k: int| 0 <= k < results.len() ==> (#[trigger] results[k]) is Ok) ==> setup.result(
            results,
        ) is Ok,
        forall|k: int|
            0 <= k < results.len() && (#[trigger] results[k]) is Err && (forall|j: int|
                0 <= j < k ==> (#[trigger] results[j]) is Ok) ==> setup.result(results)
                == results[k],
    decreases results.len(),
{
    if results.len() > 0 {
        let next = Setup { done: (setup.done + 1) as usize, ..setup };
        let rest = results.drop_first();
        assert(next.remaining() =~= setup.remaining().drop_first());
        first_failure_ends_setup(next, rest);
        if results[0] is Ok {
            assert(setup.result(results) == next.result(rest));
            assert forall|k: int|
                0 <= k < results.len() && (#[trigger] results[k]) is Err && (forall|j: int|
                    0 <= j < k ==> (#[trigger] results[j]) is Ok) implies setup.result(results)
                == results[k] by {
                assert(rest[k - 1] == results[k]);
                assert forall|j: int| 0 <= j < k - 1 implies (#[trigger] rest[j]) is Ok by {
                    assert(rest[j] == results[j + 1]);
                }
            }
            if forall|k: int| 0 <= k < results.len() ==> (#[trigger] results[k]) is Ok {
                assert forall|k: int| 0 <= k < rest.len() implies (#[trigger] rest[k]) is Ok by {
                    assert(rest[k] == results[k + 1]);
                }
            }
        }
    }
}

/// A setup succeeds exactly if every task does.
pub proof fn setup_succeeds_with_every_task(setup: Setup, results: Seq<Result<(), io::Error>>)
    requires
        setup.well_formed(),
        results.len() == setup.remaining().len(),
    ensures
        setup.result(results) is Ok <==> forall|k: int|
            0 <= k < results.len() ==> (#[trigger] results[k]) is Ok,
    decreases results.len(),
{
    first_failure_ends_setup(setup, results);
    if results.len() > 0 && results[0] is Ok {
        let next = Setup { done: (setup.done + 1) as usize, ..setup };
        let rest = results.drop_first();
        assert(next.remaining() =~= setup.remaining().drop_first());
        setup_succeeds_with_every_task(next, rest);
        if setup.result(results) is Ok {
            assert forall|k: int| 0 <= k < results.len() implies (#[trigger] results[k]) is Ok by {
                if k > 0 {
                    assert(rest[k - 1] == results[k]);
                }
            }
        }
    }
}

/// Every socket gets a poll and a stop of its own, and is registered only once it can be
/// cancelled: each of these tasks is done exactly once, and the registration of the stop comes
/// before that of the socket.
pub proof fn every_socket_gets_its_own_stop(origin: Origin)
    ensures
        origin.tasks().contains(Task::CreatePoll),
        origin.tasks().contains(Task::RegisterStop),
        origin.tasks().contains(Task::OpenSocket),
        origin.tasks()[3] == Task::RegisterSocket,
        origin.tasks().no_duplicates(),
        origin.tasks().contains(Task::AwaitConnection) <==> origin == Origin::Connected,
{
    let tasks = origin.tasks();
    if origin == Origin::Accepted {
        assert(tasks[0] == Task::OpenSocket && tasks[1] == Task::CreatePoll && tasks[2]
            == Task::RegisterStop);
    } else {
        assert(tasks[0] == Task::CreatePoll && tasks[1] == Task::RegisterStop && tasks[2]
            == Task::OpenSocket);
    }
    if origin == Origin::Connected {
        assert(tasks[4] == Task::AwaitConnection);
    }
}

/// Using the canceller is an event that its stop registration reports, and that event cancels
/// whatever operation is waiting; an event of the socket never does.
pub proof fn canceller_and_socket_are_told_apart(
    stop: RegistrationPlan,
    socket: RegistrationPlan,
    writable: bool,
    signal: mio::Ready,
    op: Operation,
    event: ReadyEvent,
)
    requires
        stop.for_stop(),
        socket.for_socket(writable),
        ready_set(signal) == set![Direction::Readable],
    ensures
        ready_set(signal).subset_of(ready_set(stop.interest)),
        event.token == stop.token ==> op.verdict(seq![event]) == Verdict::Cancelled,
        event.token == socket.token ==> op.verdict(seq![event]) != Verdict::Cancelled,
{
    let events = seq![event];
    assert(events[0] == event);
    if event.token == stop.token {
        assert(stopped(events));
    }
}

} // verus!
