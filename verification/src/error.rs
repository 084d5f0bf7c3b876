//! The I/O errors that the library makes and recognises.
use std::io;
use vstd::prelude::*;
use vstd::string::*;

verus! {

/// An I/O error of the standard library, carried as an opaque value.
#[verifier::external_type_specification]
#[verifier::external_body]
pub struct ExIoError(std::io::Error);

/// The kinds of I/O error that the library tells apart.
#[derive(Clone, Copy, Debug, PartialEq, Eq, Structural)]
pub enum ErrorKind {
    /// A parameter was incorrect.
    InvalidInput,
    /// The operation would have to wait.
    WouldBlock,
    /// The operation took longer than it may.
    TimedOut,
    /// An error that fits no kind of the standard library.
    Other,
    /// Any kind that is not listed here.
    Unlisted,
}

/// The kind that [`std::io::Error::kind`] reports for an error.
pub uninterp spec fn error_kind(e: std::io::Error) -> ErrorKind;

/// The error displays as `text` and as nothing else.
pub open spec fn always_displays_as(e: io::Error, text: Seq<char>) -> bool {
    forall|s: String| #[trigger]
        to_string_from_display_ensures::<io::Error>(&e, s) ==> s@ == text
}

/// The error that reports a cancelled operation.
pub open spec fn cancelled(e: io::Error) -> bool {
    &&& error_kind(e) == ErrorKind::Other
    &&& always_displays_as(e, "cancelled"@)
}

/// Calls [`std::io::Error::kind`]. The result is the error's kind, with all the kinds that
/// [`ErrorKind`] does not list taken together.
#[verifier::external_body]
fn kind_of(e: &io::Error) -> (kind: ErrorKind)
    ensures
        kind == error_kind(*e),
{
    match e.kind() {
        io::ErrorKind::InvalidInput => ErrorKind::InvalidInput,
        io::ErrorKind::WouldBlock => ErrorKind::WouldBlock,
        io::ErrorKind::TimedOut => ErrorKind::TimedOut,
        io::ErrorKind::Other => ErrorKind::Other,
        _ => ErrorKind::Unlisted,
    }
}

/// Calls [`std::io::Error::new`] with a message. The error has the kind it was made with, and
/// displays as the message.
#[verifier::external_body]
fn error_with_message(kind: ErrorKind, message: &str) -> (e: io::Error)
    requires
        kind != ErrorKind::Unlisted,
    ensures
        error_kind(e) == kind,
        always_displays_as(e, message@),
{
    let kind = match kind {
        ErrorKind::InvalidInput => io::ErrorKind::InvalidInput,
        ErrorKind::WouldBlock => io::ErrorKind::WouldBlock,
        ErrorKind::TimedOut => io::ErrorKind::TimedOut,
        ErrorKind::Other | ErrorKind::Unlisted => io::ErrorKind::Other,
    };
    io::Error::new(kind, message)
}

/// Whether a kind and a displayed text are those of a cancelled operation.
pub fn describes_cancellation(kind: ErrorKind, text: &String) -> (r: bool)
    ensures
        r == (kind == ErrorKind::Other && text@ == "cancelled"@),
{
    kind == ErrorKind::Other && *text == "cancelled".to_owned()
}

/// Checks if the error returned by a method was caused by the operation
/// being cancelled.
pub fn is_cancelled(e: &io::Error) -> (r: bool)
    ensures
        exists|text: String| #[trigger]
            to_string_from_display_ensures::<io::Error>(e, text) && r == (error_kind(*e)
                == ErrorKind::Other && text@ == "cancelled"@),
        cancelled(*e) ==> r,
        error_kind(*e) != ErrorKind::Other ==> !r,
{
    let kind = kind_of(e);
    let text = e.to_string();
    describes_cancellation(kind, &text)
}

/// Calls the conversion [`std::io::Error::from`] of a kind. The error has the kind it was made
/// from; what it displays as is left open.
#[verifier::external_body]
fn error_of_kind(kind: ErrorKind) -> (e: io::Error)
    requires
        kind != ErrorKind::Unlisted,
    ensures
        error_kind(e) == kind,
{
    match kind {
        ErrorKind::InvalidInput => io::Error::from(io::ErrorKind::InvalidInput),
        ErrorKind::WouldBlock => io::Error::from(io::ErrorKind::WouldBlock),
        ErrorKind::TimedOut => io::Error::from(io::ErrorKind::TimedOut),
        ErrorKind::Other | ErrorKind::Unlisted => io::Error::from(io::ErrorKind::Other),
    }
}

/// The error of an operation that would have to wait in nonblocking mode.
pub fn would_block_error() -> (e: io::Error)
    ensures
        error_kind(e) == ErrorKind::WouldBlock,
{
    error_of_kind(ErrorKind::WouldBlock)
}

/// The error of an operation whose timeout has passed.
pub fn timed_out_error() -> (e: io::Error)
    ensures
        error_kind(e) == ErrorKind::TimedOut,
{
    error_of_kind(ErrorKind::TimedOut)
}

/// The error of a search that no address was given to.
pub fn no_address_error() -> (e: io::Error)
    ensures
        error_kind(e) == ErrorKind::InvalidInput,
{
    error_of_kind(ErrorKind::InvalidInput)
}

/// The error of a cancelled operation.
///
/// Its kind is not `Interrupted`, which makes various functions of the standard library retry
/// silently.
pub fn cancelled_error() -> (e: io::Error)
    ensures
        cancelled(e),
{
    error_with_message(ErrorKind::Other, "cancelled")
}

} // verus!
