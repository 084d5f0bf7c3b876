//! Options that a socket shares with its duplicates.
use std::sync::{Arc, RwLock};
use vstd::prelude::*;

verus! {

/// A lock of the standard library. A value of it stands for the lock itself, not for what it
/// guards.
#[verifier::external_type_specification]
#[verifier::external_body]
#[verifier::reject_recursive_types(T)]
pub struct ExRwLock<T: ?Sized>(RwLock<T>);

/// `std::sync::RwLock::new`: a lock around a value. Which lock it is, is left open.
pub assume_specification<T>[ RwLock::<T>::new ](value: T) -> (lock: RwLock<T>);

/// Calls `std::sync::RwLock::new` while another lock is in use: the new lock is not that one.
#[verifier::external_body]
fn lock_up_beside<O>(options: O, beside: &RwLock<O>) -> (lock: RwLock<O>)
    ensures
        call_ensures(RwLock::<O>::new, (options,), lock),
        lock != *beside,
{
    RwLock::new(options)
}

/// Options behind a lock that a socket and its duplicates have in common: what is set through
/// one of them is what all of them read.
#[derive(Debug)]
#[verifier::reject_recursive_types(O)]
pub struct Shared<O> {
    cell: Arc<RwLock<O>>,
}

/// Calls a function that puts options behind a lock, and hands that back.
fn lock_up<O, F: Fn(O) -> RwLock<O>>(make: F, options: O) -> (lock: RwLock<O>)
    requires
        call_requires(make, (options,)),
    ensures
        call_ensures(make, (options,), lock),
{
    make(options)
}

impl<O> Shared<O> {
    /// The lock that guards the options.
    pub closed spec fn cell(self) -> RwLock<O> {
        *self.cell
    }

    /// The options are behind a lock that was made for these.
    pub open spec fn starts_with(self, options: O) -> bool {
        call_ensures(RwLock::<O>::new, (options,), self.cell())
    }

    /// Options of its own.
    pub fn new(options: O) -> (shared: Shared<O>)
        ensures
            shared.starts_with(options),
    {
        let lock = lock_up(RwLock::<O>::new, options);
        Shared { cell: Arc::new(lock) }
    }

    /// The same options: those behind the same lock.
    pub fn duplicate(&self) -> (shared: Shared<O>)
        ensures
            shared.cell() == self.cell(),
    {
        Shared { cell: self.cell.clone() }
    }

    /// The lock that guards the options.
    pub fn lock(&self) -> (lock: &RwLock<O>)
        ensures
            *lock == self.cell(),
    {
        &*self.cell
    }

    /// The options of a socket that has been set up: those of its source, if it is to share
    /// them and has a source, and otherwise new ones, apart from those of the source.
    pub fn settle(shares: bool, source: Option<&Shared<O>>, fresh: O) -> (shared: Shared<O>)
        ensures
            match source {
                Some(other) => if shares {
                    shared.cell() == other.cell()
                } else {
                    shared.starts_with(fresh) && shared.cell() != other.cell()
                },
                None => shared.starts_with(fresh),
            },
    {
        match source {
            Some(other) => if shares {
                other.duplicate()
            } else {
                Shared { cell: Arc::new(lock_up_beside(fresh, other.lock())) }
            },
            None => Shared::new(fresh),
        }
    }
}

/// Sockets that share their options agree on them: let `held` be what each lock guards. What one
/// of them sets is what the other then reads, and the options behind any other lock stay as they
/// are.
pub proof fn setting_reaches_every_duplicate<O>(
    source: Shared<O>,
    duplicate: Shared<O>,
    apart: Shared<O>,
    held: Map<RwLock<O>, O>,
    options: O,
)
    requires
        duplicate.cell() == source.cell(),
        apart.cell() != source.cell(),
        held.contains_key(source.cell()),
        held.contains_key(apart.cell()),
    ensures
        held[duplicate.cell()] == held[source.cell()],
        held.insert(source.cell(), options)[duplicate.cell()] == options,
        held.insert(duplicate.cell(), options)[source.cell()] == options,
        held.insert(source.cell(), options)[apart.cell()] == held[apart.cell()],
{
}

} // verus!
