//! Searching a list of addresses for one that a socket can be connected or bound to.
//!
//! The addresses are tried one at a time, in order. Whoever runs an [`AddressSearch`] resolves
//! the addresses, and then, as long as the [`SearchStep`] says so, tries the address that the
//! search stands at and hands in what came of it.
use crate::error::{ErrorKind, error_kind, no_address_error};
use std::io;
use vstd::prelude::*;

verus! {

/// A search that stands at an address and has not found a usable one so far.
#[derive(Debug)]
pub struct AddressSearch<A> {
    /// The addresses, in the order in which they are tried.
    pub addresses: Vec<A>,
    /// How many of them have been tried.
    pub tried: usize,
}

/// What to do next with a search.
#[derive(Debug)]
pub enum SearchStep<A, T> {
    /// Try the address that the search stands at.
    Try(AddressSearch<A>),
    /// Return this.
    Done(Result<T, io::Error>),
}

impl<A, T> SearchStep<A, T> {
    /// The step to take with `addresses` of which so many have been tried, the last of them
    /// having failed with `error`: go on to the next one, or else return the error.
    pub open spec fn goes_on(self, addresses: Seq<A>, tried: int, error: io::Error) -> bool {
        if tried < addresses.len() {
            self matches SearchStep::Try(search) && search.addresses@ == addresses && search.tried
                == tried
        } else {
            self == SearchStep::<A, T>::Done(Err(error))
        }
    }

    /// The first step of a search, given the addresses that a name resolves to. If it does not
    /// resolve, that error is returned; if it resolves to no address at all, an invalid-input
    /// error is.
    pub open spec fn starts(self, resolved: Result<Vec<A>, io::Error>) -> bool {
        match resolved {
            Err(e) => self == SearchStep::<A, T>::Done(Err(e)),
            Ok(addresses) => exists|e: io::Error|
                error_kind(e) == ErrorKind::InvalidInput && #[trigger] self.goes_on(
                    addresses@,
                    0,
                    e,
                ),
        }
    }
}

impl<A> AddressSearch<A> {
    /// There is an address to try.
    pub open spec fn well_formed(self) -> bool {
        self.tried < self.addresses.len()
    }

    /// What the search returns if the addresses give these results, each its own.
    pub open spec fn result<T>(self, attempts: Seq<Result<T, io::Error>>) -> Result<T, io::Error>
        decreases self.addresses.len() - self.tried,
    {
        match attempts[self.tried as int] {
            Ok(socket) => Ok(socket),
            Err(e) => if self.tried + 1 < self.addresses.len() {
                (AddressSearch { tried: (self.tried + 1) as usize, ..self }).result(attempts)
            } else {
                Err(e)
            },
        }
    }

    /// Starts a search among the addresses that a name resolves to.
    pub fn start<T>(resolved: Result<Vec<A>, io::Error>) -> (step: SearchStep<A, T>)
        ensures
            step.starts(resolved),
            step matches SearchStep::Try(search) ==> search.well_formed(),
    {
        match resolved {
            Err(e) => SearchStep::Done(Err(e)),
            Ok(addresses) => {
                let ghost given = addresses@;
                let e = no_address_error();
                let ghost error = e;
                let step: SearchStep<A, T> = if addresses.len() > 0 {
                    SearchStep::Try(AddressSearch { addresses, tried: 0 })
                } else {
                    SearchStep::Done(Err(e))
                };
                assert(step.goes_on(given, 0, error));
                step
            },
        }
    }

    /// The address to try.
    pub fn address(&self) -> (address: &A)
        requires
            self.well_formed(),
        ensures
            *address == self.addresses@[self.tried as int],
    {
        &self.addresses[self.tried]
    }

    /// The step to take after the address was tried.
    pub fn resume<T>(self, attempt: Result<T, io::Error>) -> (step: SearchStep<A, T>)
        requires
            self.well_formed(),
        ensures
            match attempt {
                Ok(socket) => step == SearchStep::<A, T>::Done(Ok(socket)),
                Err(e) => step.goes_on(self.addresses@, self.tried + 1, e),
            },
            forall|attempts: Seq<Result<T, io::Error>>|
                attempts.len() == self.addresses@.len() && attempts[self.tried as int] == attempt
                    ==> match step {
                    SearchStep::Done(result) => result == #[trigger] self.result(attempts),
                    SearchStep::Try(search) => search.result(attempts) == self.result(attempts),
                },
            step matches SearchStep::Try(search) ==> search.well_formed(),
    {
        match attempt {
            Ok(socket) => SearchStep::Done(Ok(socket)),
            Err(e) => {
                if self.tried < self.addresses.len() - 1 {
                    SearchStep::Try(
                        AddressSearch { addresses: self.addresses, tried: self.tried + 1 },
                    )
                } else {
                    SearchStep::Done(Err(e))
                }
            },
        }
    }
}

/// A search returns what the first usable address gives, and never gets to the ones after it.
pub proof fn search_stops_at_first_success<A, T>(
    search: AddressSearch<A>,
    attempts: Seq<Result<T, io::Error>>,
    i: int,
)
    requires
        search.tried <= i < search.addresses.len(),
        attempts.len() == search.addresses.len(),
        attempts[i] is Ok,
        forall|k: int| search.tried <= k < i ==> (#[trigger] attempts[k]) is Err,
    ensures
        search.result(attempts) == attempts[i],
    decreases i - search.tried,
{
    if search.tried < i {
        assert(attempts[search.tried as int] is Err);
        let next = AddressSearch { tried: (search.tried + 1) as usize, ..search };
        search_stops_at_first_success(next, attempts, i);
    }
}

/// A search whose addresses all fail returns the error of the last one.
pub proof fn search_returns_last_error<A, T>(
    search: AddressSearch<A>,
    attempts: Seq<Result<T, io::Error>>,
)
    requires
        search.well_formed(),
        attempts.len() == search.addresses.len(),
        forall|k: int| search.tried <= k < attempts.len() ==> (#[trigger] attempts[k]) is Err,
    ensures
        search.result(attempts) == attempts.last(),
    decreases search.addresses.len() - search.tried,
{
    assert(attempts[search.tried as int] is Err);
    if search.tried + 1 < search.addresses.len() {
        let next = AddressSearch { tried: (search.tried + 1) as usize, ..search };
        search_returns_last_error(next, attempts);
    }
}

} // verus!
