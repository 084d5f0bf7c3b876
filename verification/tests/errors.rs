//! The errors that the library makes, and how a cancelled operation is recognised.

use cancellable_io::error::{
    cancelled_error, describes_cancellation, is_cancelled, no_address_error, timed_out_error,
    would_block_error, ErrorKind,
};
use std::io;

#[test]
fn test_is_cancelled() {
    assert_eq!(
        is_cancelled(&io::Error::new(io::ErrorKind::Interrupted, "")),
        false
    );
    assert_eq!(
        is_cancelled(&io::Error::new(io::ErrorKind::Other, "")),
        false
    );
    assert_eq!(is_cancelled(&cancelled_error()), true);
}

#[test]
fn kind_and_text_both_count() {
    assert!(is_cancelled(&io::Error::new(io::ErrorKind::Other, "cancelled")));
    assert!(!is_cancelled(&io::Error::new(io::ErrorKind::Interrupted, "cancelled")));
    assert!(!is_cancelled(&io::Error::new(io::ErrorKind::Other, "Cancelled")));
    assert!(!is_cancelled(&io::Error::new(io::ErrorKind::Other, "cancelled.")));
    assert!(!is_cancelled(&io::Error::from(io::ErrorKind::Other)));
    assert!(!is_cancelled(&io::Error::from_raw_os_error(11)));
}

#[test]
fn cancelled_error_has_its_kind_and_text() {
    let error = cancelled_error();
    assert_eq!(error.kind(), io::ErrorKind::Other);
    assert_eq!(error.to_string(), "cancelled");
}

#[test]
fn other_errors_are_not_cancellations() {
    let waiting = would_block_error();
    assert_eq!(waiting.kind(), io::ErrorKind::WouldBlock);
    assert!(!is_cancelled(&waiting));
    let late = timed_out_error();
    assert_eq!(late.kind(), io::ErrorKind::TimedOut);
    assert!(!is_cancelled(&late));
    let nowhere = no_address_error();
    assert_eq!(nowhere.kind(), io::ErrorKind::InvalidInput);
    assert!(!is_cancelled(&nowhere));
}

#[test]
fn cancellation_is_told_by_kind_and_text() {
    let text = String::from("cancelled");
    assert!(describes_cancellation(ErrorKind::Other, &text));
    assert!(!describes_cancellation(ErrorKind::WouldBlock, &text));
    assert!(!describes_cancellation(ErrorKind::TimedOut, &text));
    assert!(!describes_cancellation(ErrorKind::InvalidInput, &text));
    assert!(!describes_cancellation(ErrorKind::Unlisted, &text));
    assert!(!describes_cancellation(ErrorKind::Other, &String::new()));
}
