//! I/O failures, as far as the forwarder looks into them.

use std::io::ErrorKind;
use vstd::prelude::*;

verus! {

/// `std::io::ErrorKind`, with its variants as std declares them. Nothing is
/// claimed of it beyond their names.
#[verifier::external_type_specification]
pub struct ExErrorKind(std::io::ErrorKind);

/// A failed I/O operation: its kind, and its text for the log.
#[derive(Debug, PartialEq, Eq)]
pub struct IoError {
    pub kind: ErrorKind,
    pub message: String,
}

/// Whether `e` only says that the operation would have to wait.
pub fn is_would_block_err(e: &IoError) -> (r: bool)
    ensures
        r == (e.kind == ErrorKind::WouldBlock),
{
    matches!(e.kind, ErrorKind::WouldBlock)
}

/// Whether `e` only says that the operation would have to wait.
pub fn is_would_block(e: &IoError) -> (r: bool)
    ensures
        r == (e.kind == ErrorKind::WouldBlock),
{
    matches!(e.kind, ErrorKind::WouldBlock)
}

/// The text of the failure that stands for a connection closed by `peer`.
pub open spec fn broken_message(peer: Seq<char>) -> Seq<char> {
    "peer "@ + peer + " close the tunnel"@
}

/// The failure that stands for a connection closed by its other end, `peer`
/// being the printed address of that end.
pub fn create_broken_err(peer: &str) -> (r: IoError)
    ensures
        r.kind == ErrorKind::BrokenPipe,
        r.message@ == broken_message(peer@),
{
    let mut message = String::from_str("peer ");
    message.append(peer);
    message.append(" close the tunnel");
    IoError { kind: ErrorKind::BrokenPipe, message }
}

} // verus!
