//! Laws of cancelling: of errors, of cancellers, and of what duplicates share.
use crate::canceller::{Canceller, registration_handle};
use crate::error::{
    ErrorKind, cancelled_error, describes_cancellation, error_kind, is_cancelled,
    no_address_error, timed_out_error, would_block_error,
};
use crate::readiness::{Direction, ready_set};
use crate::shared::Shared;
use std::io;
use std::sync::RwLock;
use vstd::prelude::*;
use vstd::string::*;

verus! {

/// A cancelled operation is told from everything else by its kind, `Other`, and by what it
/// displays, `cancelled`: an error with both is recognised, and one with another kind or that
/// never displays so is not.
pub proof fn cancellation_is_recognised(e: io::Error, recognised: bool)
    requires
        call_ensures(is_cancelled, (&e,), recognised),
    ensures
        error_kind(e) == ErrorKind::Other && (forall|text: String| #[trigger]
            to_string_from_display_ensures::<io::Error>(&e, text) ==> text@ == "cancelled"@)
            ==> recognised,
        (forall|text: String| #[trigger]
            to_string_from_display_ensures::<io::Error>(&e, text) ==> text@ != "cancelled"@)
            ==> !recognised,
        recognised ==> error_kind(e) == ErrorKind::Other,
{
}

/// Of a kind and a text, both have to be those of a cancelled operation.
pub proof fn cancellation_takes_kind_and_text(kind: ErrorKind, text: String, recognised: bool)
    requires
        call_ensures(describes_cancellation, (kind, &text), recognised),
    ensures
        kind == ErrorKind::Other && text@ == "cancelled"@ ==> recognised,
        kind != ErrorKind::Other ==> !recognised,
        text@ != "cancelled"@ ==> !recognised,
{
}

/// Of the errors that the library makes, the one of a cancelled operation is recognised as such,
/// and no other is.
pub proof fn own_errors_are_told_apart(
    cancelled: io::Error,
    would_block: io::Error,
    timed_out: io::Error,
    no_address: io::Error,
    other: io::Error,
    recognised: bool,
)
    requires
        call_ensures(cancelled_error, (), cancelled),
        call_ensures(would_block_error, (), would_block),
        call_ensures(timed_out_error, (), timed_out),
        call_ensures(no_address_error, (), no_address),
        other == cancelled || other == would_block || other == timed_out || other == no_address,
        call_ensures(is_cancelled, (&other,), recognised),
    ensures
        error_kind(cancelled) == ErrorKind::Other,
        forall|text: String| #[trigger]
            to_string_from_display_ensures::<io::Error>(&cancelled, text) ==> text@
                == "cancelled"@,
        error_kind(would_block) == ErrorKind::WouldBlock,
        error_kind(timed_out) == ErrorKind::TimedOut,
        error_kind(no_address) == ErrorKind::InvalidInput,
        recognised <==> other == cancelled,
{
}

/// Using a canceller, or a clone of it, sets readable, and nothing else, on the registration that
/// it was made with.
pub proof fn canceller_reaches_its_own_registration(
    others: &[&mio::Registration],
    pair: (mio::Registration, Canceller),
    copy: Canceller,
    result: Result<(), io::Error>,
)
    requires
        call_ensures(Canceller::new, (others,), pair),
        copy == pair.1 || call_ensures(Canceller::clone, (&pair.1,), copy),
        call_ensures(Canceller::cancel, (&copy,), result),
    ensures
        exists|ready: mio::Ready| #[trigger]
            call_ensures(
                mio::SetReadiness::set_readiness,
                (&registration_handle(pair.0), ready),
                result,
            ) && ready_set(ready).contains(Direction::Readable) && !ready_set(ready).contains(
                Direction::Writable,
            ),
{
    let ready = choose|ready: mio::Ready| #[trigger]
        call_ensures(mio::SetReadiness::set_readiness, (&copy.handle(), ready), result)
            && ready_set(ready) == set![Direction::Readable];
    assert(copy.handle() == registration_handle(pair.0));
    assert(call_ensures(
        mio::SetReadiness::set_readiness,
        (&registration_handle(pair.0), ready),
        result,
    ));
}

/// A new canceller, and any clone of it, has nothing to do with the objects in use: it holds the
/// handle of its own registration, which is that of none of theirs.
pub proof fn new_canceller_is_independent(
    others: &[&mio::Registration],
    pair: (mio::Registration, Canceller),
    copy: Canceller,
    i: int,
)
    requires
        call_ensures(Canceller::new, (others,), pair),
        call_ensures(Canceller::clone, (&pair.1,), copy),
        0 <= i < others@.len(),
    ensures
        pair.1.handle() == registration_handle(pair.0),
        copy.handle() == registration_handle(pair.0),
        registration_handle(pair.0) != registration_handle(*others@[i]),
{
    let args = (others,);
    let other = args.0@[i];
    assert(!pair.1.cancels(*other));
}

/// A duplicate has the options of its source and keeps them: both give the same lock.
pub proof fn duplicate_has_the_lock_of_its_source<O>(
    source: Shared<O>,
    duplicate: Shared<O>,
    lock: &RwLock<O>,
    duplicates_lock: &RwLock<O>,
)
    requires
        call_ensures(Shared::<O>::duplicate, (&source,), duplicate),
        call_ensures(Shared::<O>::lock, (&source,), lock),
        call_ensures(Shared::<O>::lock, (&duplicate,), duplicates_lock),
    ensures
        *duplicates_lock == *lock,
{
}

/// A socket that is to share its source's options has the lock of its source, and one that is not
/// has another, made for the fresh options.
pub proof fn socket_settles_on_its_options<O>(
    shares: bool,
    source: Shared<O>,
    fresh: O,
    settled: Shared<O>,
    lock: &RwLock<O>,
    settled_lock: &RwLock<O>,
)
    requires
        call_ensures(Shared::<O>::settle, (shares, Some(&source), fresh), settled),
        call_ensures(Shared::<O>::lock, (&source,), lock),
        call_ensures(Shared::<O>::lock, (&settled,), settled_lock),
    ensures
        shares <==> *settled_lock == *lock,
        !shares ==> call_ensures(RwLock::<O>::new, (fresh,), *settled_lock),
{
}

/// Options that are new, or of a socket without a source, are behind a lock made for them.
pub proof fn new_options_get_a_lock<O>(
    shares: bool,
    options: O,
    shared: Shared<O>,
    lock: &RwLock<O>,
)
    requires
        call_ensures(Shared::<O>::new, (options,), shared) || call_ensures(
            Shared::<O>::settle,
            (shares, None::<&Shared<O>>, options),
            shared,
        ),
        call_ensures(Shared::<O>::lock, (&shared,), lock),
    ensures
        call_ensures(RwLock::<O>::new, (options,), *lock),
{
}

} // verus!
