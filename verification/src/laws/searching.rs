//! Laws of searching for an address.
use crate::error::{ErrorKind, error_kind};
use crate::search::{AddressSearch, SearchStep};
use crate::tcp::{TcpListener, TcpStream};
use crate::udp::UdpSocket;
use std::io;
use vstd::prelude::*;

verus! {

/// `step` is what some function that searches among addresses gives for `resolved`: a search by
/// itself, or connecting a stream, binding a listener, binding a UDP socket or connecting one.
pub open spec fn search_begins<A, T>(
    resolved: Result<Vec<A>, io::Error>,
    step: SearchStep<A, T>,
) -> bool {
    ||| call_ensures(AddressSearch::<A>::start::<T>, (resolved,), step)
    ||| call_ensures(TcpStream::connect::<A, T>, (resolved,), step)
    ||| call_ensures(TcpListener::bind::<A, T>, (resolved,), step)
    ||| call_ensures(UdpSocket::bind::<A, T>, (resolved,), step)
    ||| call_ensures(UdpSocket::connect::<A, T>, (resolved,), step)
}

/// Going on from `step` until the search is done, it returns `result`, if the attempts from the
/// one numbered `at` turn out as given. A search that asks for more attempts than are given may
/// return anything.
pub open spec fn search_returns<A, T>(
    step: SearchStep<A, T>,
    attempts: Seq<Result<T, io::Error>>,
    at: nat,
    result: Result<T, io::Error>,
) -> bool
    decreases attempts.len() - at,
{
    match step {
        SearchStep::Done(returned) => returned == result,
        SearchStep::Try(search) => at < attempts.len() ==> exists|next: SearchStep<A, T>| #[trigger]
            call_ensures(AddressSearch::<A>::resume::<T>, (search, attempts[at as int]), next)
                && search_returns(next, attempts, at + 1, result),
    }
}

/// After failed attempts with these errors, one after the other, the search stands at `search`.
pub open spec fn search_comes_to<A, T>(
    step: SearchStep<A, T>,
    errors: Seq<io::Error>,
    search: AddressSearch<A>,
) -> bool
    decreases errors.len(),
{
    if errors.len() == 0 {
        step == SearchStep::<A, T>::Try(search)
    } else {
        exists|before: AddressSearch<A>| #[trigger]
            call_ensures(
                AddressSearch::<A>::resume::<T>,
                (before, Err::<T, io::Error>(errors.last())),
                SearchStep::<A, T>::Try(search),
            ) && search_comes_to(step, errors.drop_last(), before)
    }
}

/// A search can be begun with whatever a name resolves to.
pub proof fn any_search_can_begin<A, T>(resolved: Result<Vec<A>, io::Error>)
    ensures
        call_requires(AddressSearch::<A>::start::<T>, (resolved,)),
        call_requires(TcpStream::connect::<A, T>, (resolved,)),
        call_requires(TcpListener::bind::<A, T>, (resolved,)),
        call_requires(UdpSocket::bind::<A, T>, (resolved,)),
        call_requires(UdpSocket::connect::<A, T>, (resolved,)),
{
}

/// A name that does not resolve gives its error, and no attempt is made.
pub proof fn unresolved_name_is_reported<A, T>(error: io::Error, step: SearchStep<A, T>)
    requires
        search_begins(Err::<Vec<A>, io::Error>(error), step),
    ensures
        step == SearchStep::<A, T>::Done(Err(error)),
{
}

/// If there is any address, one alone included, the search begins by trying the first one; it
/// gives up at once, with an invalid-input error, exactly if there is none.
pub proof fn search_begins_at_the_first_address<A, T>(
    addresses: Vec<A>,
    step: SearchStep<A, T>,
    address: &A,
)
    requires
        search_begins(Ok::<Vec<A>, io::Error>(addresses), step),
        step matches SearchStep::Try(search) ==> call_ensures(
            AddressSearch::<A>::address,
            (&search,),
            address,
        ),
    ensures
        step is Try <==> addresses@.len() > 0,
        step matches SearchStep::Try(search) ==> search.addresses@ == addresses@ && search.tried
            == 0 && *address == addresses@[0],
        step matches SearchStep::Done(result) ==> result is Err && error_kind(result->Err_0)
            == ErrorKind::InvalidInput,
{
}

/// The addresses are tried in their order, each once: after so many failures, the search stands
/// at the address with that number. There it can be asked for the address, and takes any result.
pub proof fn addresses_are_tried_in_order<A, T>(
    addresses: Vec<A>,
    step: SearchStep<A, T>,
    errors: Seq<io::Error>,
    search: AddressSearch<A>,
    address: &A,
)
    requires
        search_begins(Ok::<Vec<A>, io::Error>(addresses), step),
        search_comes_to(step, errors, search),
        call_ensures(AddressSearch::<A>::address, (&search,), address),
    ensures
        errors.len() < addresses@.len(),
        *address == addresses@[errors.len() as int],
        call_requires(AddressSearch::<A>::address, (&search,)),
        forall|attempt: Result<T, io::Error>| #[trigger]
            call_requires(AddressSearch::<A>::resume::<T>, (search, attempt)),
{
    lemma_search_stands_where_failures_took_it(addresses, step, errors, search);
}

/// As [`addresses_are_tried_in_order`], of the search itself.
proof fn lemma_search_stands_where_failures_took_it<A, T>(
    addresses: Vec<A>,
    step: SearchStep<A, T>,
    errors: Seq<io::Error>,
    search: AddressSearch<A>,
)
    requires
        search_begins(Ok::<Vec<A>, io::Error>(addresses), step),
        search_comes_to(step, errors, search),
    ensures
        errors.len() < addresses@.len(),
        search.addresses@ == addresses@,
        search.tried == errors.len(),
    decreases errors.len(),
{
    if errors.len() > 0 {
        let before = choose|before: AddressSearch<A>| #[trigger]
            call_ensures(
                AddressSearch::<A>::resume::<T>,
                (before, Err::<T, io::Error>(errors.last())),
                SearchStep::<A, T>::Try(search),
            ) && search_comes_to(step, errors.drop_last(), before);
        lemma_search_stands_where_failures_took_it(addresses, step, errors.drop_last(), before);
    }
}

/// What a search returns, from its start until it is done, given what each attempt comes to:
/// what the first address that works gives; if none works, the error of the last one; and an
/// error of its own, an invalid-input error, only if there is no address.
pub proof fn search_returns_the_first_success<A, T>(
    addresses: Vec<A>,
    step: SearchStep<A, T>,
    attempts: Seq<Result<T, io::Error>>,
    result: Result<T, io::Error>,
)
    requires
        search_begins(Ok::<Vec<A>, io::Error>(addresses), step),
        attempts.len() == addresses@.len(),
        search_returns(step, attempts, 0, result),
    ensures
        forall|i: int|
            0 <= i < attempts.len() && (#[trigger] attempts[i]) is Ok && (forall|k: int|
                0 <= k < i ==> (#[trigger] attempts[k]) is Err) ==> result == attempts[i],
        attempts.len() > 0 && (forall|k: int|
            0 <= k < attempts.len() ==> (#[trigger] attempts[k]) is Err) ==> result
            == attempts.last(),
        attempts.len() > 0 ==> exists|i: int|
            0 <= i < attempts.len() && result == #[trigger] attempts[i],
        addresses@.len() == 0 ==> result is Err && error_kind(result->Err_0)
            == ErrorKind::InvalidInput,
{
    if addresses@.len() > 0 {
        lemma_search_returns_the_first_success_from(
            step->Try_0,
            addresses@,
            attempts,
            0,
            result,
        );
    }
}

/// As [`search_returns_the_first_success`], from a search that has got some way.
proof fn lemma_search_returns_the_first_success_from<A, T>(
    search: AddressSearch<A>,
    addresses: Seq<A>,
    attempts: Seq<Result<T, io::Error>>,
    at: nat,
    result: Result<T, io::Error>,
)
    requires
        at < addresses.len(),
        attempts.len() == addresses.len(),
        search.addresses@ == addresses,
        search.tried == at,
        search_returns(SearchStep::<A, T>::Try(search), attempts, at, result),
    ensures
        forall|i: int|
            at <= i < attempts.len() && (#[trigger] attempts[i]) is Ok && (forall|k: int|
                at <= k < i ==> (#[trigger] attempts[k]) is Err) ==> result == attempts[i],
        (forall|k: int| at <= k < attempts.len() ==> (#[trigger] attempts[k]) is Err) ==> result
            == attempts.last(),
        exists|i: int| at <= i < attempts.len() && result == #[trigger] attempts[i],
    decreases attempts.len() - at,
{
    let next = choose|next: SearchStep<A, T>| #[trigger]
        call_ensures(AddressSearch::<A>::resume::<T>, (search, attempts[at as int]), next)
            && search_returns(next, attempts, at + 1, result);
    assert(search_returns(next, attempts, at + 1, result));
    if attempts[at as int] is Err && at + 1 < addresses.len() {
        lemma_search_returns_the_first_success_from(
            next->Try_0,
            addresses,
            attempts,
            at + 1,
            result,
        );
    } else {
        assert(result == attempts[at as int]);
    }
    assert forall|i: int|
        at <= i < attempts.len() && (#[trigger] attempts[i]) is Ok && (forall|k: int|
            at <= k < i ==> (#[trigger] attempts[k]) is Err) implies result == attempts[i] by {
        if i > at {
            assert(attempts[at as int] is Err);
        }
    }
}

/// What one attempt comes to: a success is returned as it is, and a failure is passed over in
/// favour of the next address as long as there is one.
pub proof fn attempt_ends_the_search_or_not<A, T>(
    search: AddressSearch<A>,
    attempt: Result<T, io::Error>,
    step: SearchStep<A, T>,
)
    requires
        call_ensures(AddressSearch::<A>::resume::<T>, (search, attempt), step),
    ensures
        attempt is Ok ==> step == SearchStep::<A, T>::Done(attempt),
        attempt is Err && search.tried + 1 >= search.addresses@.len() ==> step == SearchStep::<
            A,
            T,
        >::Done(attempt),
        attempt is Err && search.tried + 1 < search.addresses@.len() ==> (step matches
            SearchStep::Try(next) && next.addresses@ == search.addresses@ && next.tried
            == search.tried + 1),
{
}

} // verus!
