//! Moving bytes from one socket to another.
//!
//! A relay alternates reads from one socket with writes to the other. Its
//! `RelayState` says which operation is due; the outcome of that operation is a
//! `RelayEvent`. Both sockets share one buffer: a read fills its beginning, and
//! the writes that follow send that part of it.

use crate::error::{broken_message, create_broken_err, is_would_block, IoError};
use std::io::ErrorKind;
use vstd::prelude::*;

verus! {

/// The most bytes that one read takes in.
pub const TRANSFER_BUF_CAPACITY: usize = 4096;

/// The bytes `start_index..size` of the buffer, still to be written.
#[derive(Clone, Copy, Debug, PartialEq, Eq, Structural)]
pub struct PendingWrite {
    pub start_index: usize,
    pub size: usize,
}

impl PendingWrite {
    /// The range lies inside the buffer.
    pub open spec fn wf(self) -> bool {
        self.start_index <= self.size <= TRANSFER_BUF_CAPACITY
    }
}

/// What follows a write.
#[derive(Debug, PartialEq, Eq)]
pub enum WriteStep {
    /// Write this range next.
    Again(PendingWrite),
    /// The socket takes no more bytes: its peer has closed the connection.
    Closed,
    /// The writing is over, with the number of bytes asked for or a failure.
    Done(Result<usize, IoError>),
}

/// What follows a read.
#[derive(Debug, PartialEq, Eq)]
pub enum ReadStep {
    /// Write this range to the other socket.
    Forward(PendingWrite),
    /// The socket has no more bytes: its peer has closed the connection.
    Closed,
    /// The reading is over: nothing to read now, or a failure.
    Done(Result<usize, IoError>),
}

/// What a relay does next.
#[derive(Debug, PartialEq, Eq)]
pub enum RelayState {
    /// Read from the source; `count` bytes went through so far.
    Reading { count: usize },
    /// Write the pending range to the target; `count` bytes went through
    /// before the read that filled the buffer.
    Writing { count: usize, pending: PendingWrite },
    /// The source is at its end: look up its peer's address.
    SourceClosed,
    /// The target takes no more of the `size` bytes of the last read: look up
    /// its peer's address.
    TargetClosed { count: usize, size: usize },
    /// Nothing is left to read for now; `count` bytes went through.
    Drained { count: usize },
    /// The relay is over.
    Failed { error: IoError },
}

/// What came of the operation that a relay asked for.
#[derive(Debug, PartialEq, Eq)]
pub enum RelayEvent {
    /// The outcome of the read.
    Read(Result<usize, IoError>),
    /// The outcome of the write.
    Written(Result<usize, IoError>),
    /// The printed address that was looked up.
    Peer(String),
}

/// What follows a write of the range `pending`.
pub open spec fn write_next(pending: PendingWrite, result: Result<usize, IoError>) -> WriteStep {
    match result {
        Err(e) => WriteStep::Done(Err(e)),
        Ok(count) => if count == 0 {
            WriteStep::Closed
        } else if pending.start_index + count < pending.size {
            WriteStep::Again(
                PendingWrite {
                    start_index: (pending.start_index + count) as usize,
                    size: pending.size,
                },
            )
        } else {
            WriteStep::Done(Ok(pending.size))
        },
    }
}

/// What follows a read.
pub open spec fn read_next(result: Result<usize, IoError>) -> ReadStep {
    match result {
        Ok(count) => if count == 0 {
            ReadStep::Closed
        } else {
            ReadStep::Forward(PendingWrite { start_index: 0, size: count })
        },
        Err(e) => if e.kind == ErrorKind::WouldBlock {
            ReadStep::Done(Ok(0))
        } else {
            ReadStep::Done(Err(e))
        },
    }
}

/// Decides what follows a write of the range `pending`: the rest of it, where
/// only a part was taken.
pub fn write_target(pending: PendingWrite, result: Result<usize, IoError>) -> (r: WriteStep)
    requires
        pending.wf(),
    ensures
        r == write_next(pending, result),
        r matches WriteStep::Again(rest) ==> rest.wf(),
{
    match result {
        Err(e) => WriteStep::Done(Err(e)),
        Ok(count) => {
            if count == 0 {
                return WriteStep::Closed;
            }
            if count < pending.size - pending.start_index {
                return WriteStep::Again(
                    PendingWrite { start_index: pending.start_index + count, size: pending.size },
                );
            }
            WriteStep::Done(Ok(pending.size))
        },
    }
}

/// The relay may go from `state` to `next` on `event`, where a failed write
/// ends it.
pub open spec fn sync_step(state: RelayState, event: RelayEvent, next: RelayState) -> bool {
    match (state, event) {
        (RelayState::Reading { count }, RelayEvent::Read(result)) => match read_next(result) {
            ReadStep::Forward(pending) => next == (RelayState::Writing { count, pending }),
            ReadStep::Closed => next == RelayState::SourceClosed,
            ReadStep::Done(Ok(_)) => next == (RelayState::Drained { count }),
            ReadStep::Done(Err(error)) => next == (RelayState::Failed { error }),
        },
        (RelayState::Writing { count, pending }, RelayEvent::Written(result)) => match write_next(
            pending,
            result,
        ) {
            WriteStep::Again(rest) => next == (RelayState::Writing { count, pending: rest }),
            WriteStep::Closed => next == (RelayState::TargetClosed { count, size: pending.size }),
            WriteStep::Done(Ok(size)) => reads_on(next, count + size),
            WriteStep::Done(Err(error)) => next == (RelayState::Failed { error }),
        },
        (RelayState::SourceClosed, RelayEvent::Peer(peer)) => closed_by(next, peer@),
        (RelayState::TargetClosed { .. }, RelayEvent::Peer(peer)) => closed_by(next, peer@),
        _ => false,
    }
}

/// The relay failed because `peer` closed its connection.
pub open spec fn closed_by(state: RelayState, peer: Seq<char>) -> bool {
    state matches RelayState::Failed { error } && error.kind == ErrorKind::BrokenPipe
        && error.message@ == broken_message(peer)
}

/// `event` is the outcome of the operation that is due in `state`: no read
/// takes in more than the buffer holds.
pub open spec fn answers(state: RelayState, event: RelayEvent) -> bool {
    match (state, event) {
        (RelayState::Reading { .. }, RelayEvent::Read(Ok(n))) => n <= TRANSFER_BUF_CAPACITY,
        (RelayState::Reading { .. }, RelayEvent::Read(Err(_))) => true,
        (RelayState::Writing { pending, .. }, RelayEvent::Written(_)) => pending.wf(),
        (RelayState::SourceClosed, RelayEvent::Peer(_)) => true,
        (RelayState::TargetClosed { .. }, RelayEvent::Peer(_)) => true,
        _ => false,
    }
}

/// `event` answers `state`, and the bytes that went through can be counted.
pub open spec fn sync_answers(state: RelayState, event: RelayEvent) -> bool {
    &&& answers(state, event)
    &&& match (state, event) {
        (RelayState::Writing { count, pending }, RelayEvent::Written(result)) => write_next(
            pending,
            result,
        ) matches WriteStep::Done(Ok(size)) ==> count + size <= usize::MAX,
        _ => true,
    }
}

/// The relay may go from `state` to `next` on `event`, where the outcome of
/// the writing is not looked at: whatever was read counts as gone through.
pub open spec fn transfer_step(state: RelayState, event: RelayEvent, next: RelayState) -> bool {
    match (state, event) {
        (RelayState::Reading { count }, RelayEvent::Read(result)) => match read_next(result) {
            ReadStep::Forward(pending) => next == (RelayState::Writing { count, pending }),
            ReadStep::Closed => next == RelayState::SourceClosed,
            ReadStep::Done(Ok(_)) => next == (RelayState::Drained { count }),
            ReadStep::Done(Err(error)) => next == (RelayState::Failed { error }),
        },
        (RelayState::Writing { count, pending }, RelayEvent::Written(result)) => match write_next(
            pending,
            result,
        ) {
            WriteStep::Again(rest) => next == (RelayState::Writing { count, pending: rest }),
            WriteStep::Closed => next == (RelayState::TargetClosed { count, size: pending.size }),
            WriteStep::Done(_) => reads_on(next, count + pending.size),
        },
        (RelayState::SourceClosed, RelayEvent::Peer(peer)) => closed_by(next, peer@),
        (RelayState::TargetClosed { count, size }, RelayEvent::Peer(_)) => reads_on(
            next,
            count + size,
        ),
        _ => false,
    }
}

/// The relay reads from the source again, `total` bytes having gone through.
pub open spec fn reads_on(state: RelayState, total: int) -> bool {
    state matches RelayState::Reading { count } && count == total
}

/// `event` answers `state`, and the bytes that were read can be counted.
pub open spec fn transfer_answers(state: RelayState, event: RelayEvent) -> bool {
    &&& answers(state, event)
    &&& match (state, event) {
        (RelayState::Writing { count, pending }, RelayEvent::Written(result)) => write_next(
            pending,
            result,
        ) matches WriteStep::Done(_) ==> count + pending.size <= usize::MAX,
        (RelayState::TargetClosed { count, size }, _) => count + size <= usize::MAX,
        _ => true,
    }
}

/// One step of copying from source to target until the source has nothing to
/// read: a read that would block ends the copying in good order, a failure or
/// the end of either connection ends it in `Failed`.
pub fn sync_data(state: RelayState, event: RelayEvent) -> (next: RelayState)
    requires
        sync_answers(state, event),
    ensures
        sync_step(state, event, next),
        next matches RelayState::Writing { pending, .. } ==> pending.wf(),
{
    match (state, event) {
        (RelayState::Reading { count }, RelayEvent::Read(Err(error))) => {
            if is_would_block(&error) {
                RelayState::Drained { count }
            } else {
                RelayState::Failed { error }
            }
        },
        (RelayState::Reading { count }, RelayEvent::Read(Ok(size))) => {
            if size == 0 {
                RelayState::SourceClosed
            } else {
                RelayState::Writing { count, pending: PendingWrite { start_index: 0, size } }
            }
        },
        (RelayState::Writing { count, pending }, RelayEvent::Written(result)) => {
            match write_target(pending, result) {
                WriteStep::Again(rest) => RelayState::Writing { count, pending: rest },
                WriteStep::Closed => RelayState::TargetClosed { count, size: pending.size },
                WriteStep::Done(Ok(size)) => RelayState::Reading { count: count + size },
                WriteStep::Done(Err(error)) => RelayState::Failed { error },
            }
        },
        (_, RelayEvent::Peer(peer)) => {
            RelayState::Failed { error: create_broken_err(peer.as_str()) }
        },
        // No event but the outcome of the operation that is due gets here.
        (state, _) => state,
    }
}

} // verus!
