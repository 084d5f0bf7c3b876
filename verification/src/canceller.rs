//! Cancelling an operation from elsewhere.
use crate::readiness::{Direction, ready_set};
use std::io;
use vstd::prelude::*;

verus! {

/// The end of a stop registration through which its readiness is set, as `mio` has it.
#[verifier::external_type_specification]
#[verifier::external_body]
pub struct ExSetReadiness(mio::SetReadiness);

/// A stop registration, as `mio` has it.
#[verifier::external_type_specification]
#[verifier::external_body]
pub struct ExRegistration(mio::Registration);

/// The handle through which the readiness of a registration is set.
pub uninterp spec fn registration_handle(registration: mio::Registration) -> mio::SetReadiness;

/// An object that can be used to cancel an i/o operation.
///
/// It is created with the object it can cancel.
/// When an operation is cancelled, it returns an error that can be
/// identified with [`crate::error::is_cancelled`].
#[derive(Debug)]
pub struct Canceller {
    set_readiness: mio::SetReadiness,
}

/// `mio::SetReadiness::clone`: a handle on the same registration.
pub assume_specification[ <mio::SetReadiness as Clone>::clone ](
    set_readiness: &mio::SetReadiness,
) -> (copy: mio::SetReadiness)
    ensures
        copy == *set_readiness,
;

/// Calls `mio::Registration::new2`: a new registration and the handle that goes with it. What is
/// new is apart from what exists: the handle is not that of any registration in `others`, all of
/// which are still in use.
#[verifier::external_body]
fn new_registration(others: &[&mio::Registration]) -> (pair: (
    mio::Registration,
    mio::SetReadiness,
))
    ensures
        pair.1 == registration_handle(pair.0),
        forall|i: int|
            0 <= i < others@.len() ==> registration_handle(pair.0) != registration_handle(
                *#[trigger] others@[i],
            ),
{
    mio::Registration::new2()
}

/// `mio::SetReadiness::set_readiness`: wakes the poll that the other end is registered with.
/// Nothing is claimed of its result, which depends on whether the poll could be woken.
pub assume_specification[ mio::SetReadiness::set_readiness ](
    set_readiness: &mio::SetReadiness,
    ready: mio::Ready,
) -> (result: Result<(), io::Error>);

/// Calls a function that sets the readiness of a registration, and hands its result back.
fn raise<F: Fn(&mio::SetReadiness, mio::Ready) -> Result<(), io::Error>>(
    set: F,
    handle: &mio::SetReadiness,
    ready: mio::Ready,
) -> (result: Result<(), io::Error>)
    requires
        call_requires(set, (handle, ready)),
    ensures
        call_ensures(set, (handle, ready), result),
{
    set(handle, ready)
}

impl Canceller {
    /// The end of the stop registration that the canceller holds.
    pub closed spec fn handle(self) -> mio::SetReadiness {
        self.set_readiness
    }

    /// The canceller cancels the operations on the object with this stop registration: it holds
    /// the handle of that registration.
    pub open spec fn cancels(self, registration: mio::Registration) -> bool {
        self.handle() == registration_handle(registration)
    }

    /// A new stop registration with its canceller. It is independent of `others`, the stop
    /// registrations of any other objects in use, such as the source of a duplicate or the
    /// listener of an accepted stream: its canceller cancels none of those objects, and none of
    /// their cancellers cancels the new one.
    pub fn new(others: &[&mio::Registration]) -> (pair: (mio::Registration, Canceller))
        ensures
            pair.1.cancels(pair.0),
            forall|i: int| 0 <= i < others@.len() ==> !pair.1.cancels(*#[trigger] others@[i]),
            forall|i: int, canceller: Canceller|
                0 <= i < others@.len() && #[trigger] canceller.cancels(*#[trigger] others@[i])
                    ==> !canceller.cancels(pair.0),
    {
        let (registration, set_readiness) = new_registration(others);
        (registration, Canceller { set_readiness })
    }

    /// The readiness that cancels: the one that a stop registration is registered for.
    pub fn signal() -> (ready: mio::Ready)
        ensures
            ready_set(ready) == set![Direction::Readable],
    {
        mio::Ready::readable()
    }

    /// Cancels an operation on the associated object.
    ///
    /// The pending operation is aborted and returns an error that can be
    /// checked by [`crate::error::is_cancelled`]. If there is no pending operation, the next one
    /// will be cancelled.
    ///
    /// The readable direction, and no other, is set on the canceller's own stop registration,
    /// and what that came to is returned. Which result it is depends on whether the poll could
    /// be woken, and is left open.
    pub fn cancel(&self) -> (result: Result<(), io::Error>)
        ensures
            exists|ready: mio::Ready| #[trigger]
                call_ensures(
                    mio::SetReadiness::set_readiness,
                    (&self.handle(), ready),
                    result,
                ) && ready_set(ready) == set![Direction::Readable],
    {
        let ready = Canceller::signal();
        let result = raise(mio::SetReadiness::set_readiness, &self.set_readiness, ready);
        assert(call_ensures(
            mio::SetReadiness::set_readiness,
            (&self.handle(), ready),
            result,
        ));
        result
    }
}

impl Clone for Canceller {
    /// A canceller of the same object.
    fn clone(&self) -> (copy: Self)
        ensures
            copy.handle() == self.handle(),
            forall|registration: mio::Registration| #[trigger]
                copy.cancels(registration) == self.cancels(registration),
    {
        Canceller { set_readiness: self.set_readiness.clone() }
    }
}

/// A canceller cancels no other object than its own: none whose stop registration has another
/// handle.
pub proof fn canceller_leaves_others_alone(
    canceller: Canceller,
    own: mio::Registration,
    other: mio::Registration,
)
    requires
        canceller.cancels(own),
    ensures
        canceller.cancels(other) <==> registration_handle(other) == registration_handle(own),
{
}

} // verus!
