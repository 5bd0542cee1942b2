//! What the steps of a relay promise of their results.

use crate::error::{create_broken_err, is_would_block, is_would_block_err, IoError};
use crate::fidelity::Run;
use crate::relay::{
    sync_answers, sync_data, sync_step, transfer_answers, transfer_step, write_target,
    PendingWrite, ReadStep, RelayEvent, RelayState, WriteStep,
};
use crate::tunnel::TcpTun;
use std::io::ErrorKind;
use vstd::prelude::*;

verus! {

/// `sync_data` takes every outcome of the operation that is due, as long as the
/// bytes that go through can be counted.
pub proof fn sync_takes_every_outcome(
    count: usize,
    read: Result<usize, IoError>,
    pending: PendingWrite,
    written: Result<usize, IoError>,
    size: usize,
    peer: String,
)
    requires
        read matches Ok(n) ==> n <= 4096,
        pending.start_index <= pending.size <= 4096,
        count + pending.size <= usize::MAX,
    ensures
        call_requires(sync_data, (RelayState::Reading { count }, RelayEvent::Read(read))),
        call_requires(
            sync_data,
            (RelayState::Writing { count, pending }, RelayEvent::Written(written)),
        ),
        call_requires(sync_data, (RelayState::SourceClosed, RelayEvent::Peer(peer))),
        call_requires(
            sync_data,
            (RelayState::TargetClosed { count, size }, RelayEvent::Peer(peer)),
        ),
{
}

/// `TcpTun::transfer_data` takes every outcome of the operation that is due, as
/// long as the bytes that are read can be counted.
pub proof fn transfer_takes_every_outcome<S>(
    count: usize,
    read: Result<usize, IoError>,
    pending: PendingWrite,
    written: Result<usize, IoError>,
    size: usize,
    peer: String,
)
    requires
        read matches Ok(n) ==> n <= 4096,
        pending.start_index <= pending.size <= 4096,
        count + pending.size <= usize::MAX,
        count + size <= usize::MAX,
    ensures
        call_requires(
            TcpTun::<S>::transfer_data,
            (RelayState::Reading { count }, RelayEvent::Read(read)),
        ),
        call_requires(
            TcpTun::<S>::transfer_data,
            (RelayState::Writing { count, pending }, RelayEvent::Written(written)),
        ),
        call_requires(
            TcpTun::<S>::transfer_data,
            (RelayState::SourceClosed, RelayEvent::Peer(peer)),
        ),
        call_requires(
            TcpTun::<S>::transfer_data,
            (RelayState::TargetClosed { count, size }, RelayEvent::Peer(peer)),
        ),
{
}

/// `sync_data` hands everything that a read took in to the target, from its first
/// byte to its last, and nothing but an empty read or a failed one keeps it from
/// that. A read that would block drains it, any other failure is passed on.
pub proof fn sync_heeds_reads(count: usize, result: Result<usize, IoError>, next: RelayState)
    requires
        call_ensures(sync_data, (RelayState::Reading { count }, RelayEvent::Read(result)), next),
    ensures
        next is Writing <==> (result matches Ok(n) && n > 0),
        next matches RelayState::Writing { count: c, pending } ==> c == count
            && pending.start_index == 0 && result == Ok::<usize, IoError>(pending.size)
            && pending.size <= 4096,
        next is SourceClosed <==> (result matches Ok(n) && n == 0),
        next is Drained <==> (result matches Err(e) && e.kind == ErrorKind::WouldBlock),
        next matches RelayState::Drained { count: c } ==> c == count,
        next is Failed <==> (result matches Err(e) && e.kind != ErrorKind::WouldBlock),
        next matches RelayState::Failed { error } ==> result == Err::<usize, IoError>(error),
{
}

/// `TcpTun::transfer_data` hands everything that a read took in to the target,
/// from its first byte to its last, and nothing but an empty read or a failed one
/// keeps it from that. A read that would block drains it, any other failure is
/// passed on.
pub proof fn transfer_heeds_reads<S>(
    count: usize,
    result: Result<usize, IoError>,
    next: RelayState,
)
    requires
        call_ensures(
            TcpTun::<S>::transfer_data,
            (RelayState::Reading { count }, RelayEvent::Read(result)),
            next,
        ),
    ensures
        next is Writing <==> (result matches Ok(n) && n > 0),
        next matches RelayState::Writing { count: c, pending } ==> c == count
            && pending.start_index == 0 && result == Ok::<usize, IoError>(pending.size)
            && pending.size <= 4096,
        next is SourceClosed <==> (result matches Ok(n) && n == 0),
        next is Drained <==> (result matches Err(e) && e.kind == ErrorKind::WouldBlock),
        next matches RelayState::Drained { count: c } ==> c == count,
        next is Failed <==> (result matches Err(e) && e.kind != ErrorKind::WouldBlock),
        next matches RelayState::Failed { error } ==> result == Err::<usize, IoError>(error),
{
}

/// `sync_data` goes on after every write that takes a byte: it writes the rest
/// from where the write stopped, or reads on with all bytes counted. It ends with
/// the failure of a write that fails.
pub proof fn sync_heeds_writes(
    count: usize,
    pending: PendingWrite,
    result: Result<usize, IoError>,
    next: RelayState,
)
    requires
        pending.start_index <= pending.size <= 4096,
        count + pending.size <= usize::MAX,
        call_ensures(
            sync_data,
            (RelayState::Writing { count, pending }, RelayEvent::Written(result)),
            next,
        ),
    ensures
        result matches Ok(n) ==> (0 < n < pending.size - pending.start_index ==> (next matches
            RelayState::Writing { count: c, pending: rest } && c == count && rest.size
            == pending.size && rest.start_index - pending.start_index == n)),
        result matches Ok(n) ==> (0 < n && n >= pending.size - pending.start_index ==> (
        next matches RelayState::Reading { count: c } && c - count == pending.size)),
        next is TargetClosed <==> (result matches Ok(n) && n == 0),
        next matches RelayState::TargetClosed { count: c, size } ==> c == count && size
            == pending.size,
        next is Failed <==> result is Err,
        next matches RelayState::Failed { error } ==> result == Err::<usize, IoError>(error),
{
}

/// `TcpTun::transfer_data` goes on after every write, and after a failed one
/// with the next read.
pub proof fn transfer_heeds_writes<S>(
    count: usize,
    pending: PendingWrite,
    result: Result<usize, IoError>,
    next: RelayState,
)
    requires
        pending.start_index <= pending.size <= 4096,
        count + pending.size <= usize::MAX,
        call_ensures(
            TcpTun::<S>::transfer_data,
            (RelayState::Writing { count, pending }, RelayEvent::Written(result)),
            next,
        ),
    ensures
        result matches Ok(n) ==> (0 < n < pending.size - pending.start_index ==> (next matches
            RelayState::Writing { count: c, pending: rest } && c == count && rest.size
            == pending.size && rest.start_index - pending.start_index == n)),
        result matches Ok(n) ==> (0 < n && n >= pending.size - pending.start_index ==> (
        next matches RelayState::Reading { count: c } && c - count == pending.size)),
        result matches Ok(n) && n == 0 ==> next == (RelayState::TargetClosed {
            count,
            size: pending.size,
        }),
        result is Err ==> (next matches RelayState::Reading { count: c } && c - count
            == pending.size),
{
}

/// The end of either connection fails `sync_data` with a broken pipe that names
/// the peer.
pub proof fn sync_names_the_peer_that_closed(
    state: RelayState,
    peer: String,
    next: RelayState,
)
    requires
        state is SourceClosed || state is TargetClosed,
        call_ensures(sync_data, (state, RelayEvent::Peer(peer)), next),
    ensures
        next matches RelayState::Failed { error } && error.kind == ErrorKind::BrokenPipe
            && error.message@ == "peer "@ + peer@ + " close the tunnel"@,
{
}

/// The end of the source's connection fails `TcpTun::transfer_data` with a broken
/// pipe that names the peer. The end of the target's is passed over: the relay
/// reads on, with the last read counted.
pub proof fn transfer_names_the_source_that_closed<S>(
    count: usize,
    size: usize,
    peer: String,
    source_closed: RelayState,
    target_closed: RelayState,
)
    requires
        count + size <= usize::MAX,
        call_ensures(
            TcpTun::<S>::transfer_data,
            (RelayState::SourceClosed, RelayEvent::Peer(peer)),
            source_closed,
        ),
        call_ensures(
            TcpTun::<S>::transfer_data,
            (RelayState::TargetClosed { count, size }, RelayEvent::Peer(peer)),
            target_closed,
        ),
    ensures
        source_closed matches RelayState::Failed { error } && error.kind == ErrorKind::BrokenPipe
            && error.message@ == "peer "@ + peer@ + " close the tunnel"@,
        target_closed matches RelayState::Reading { count: c } && c - count == size,
{
}

/// The two relays differ only in what they make of a write that fails or takes
/// nothing: on any other event they do the same.
pub proof fn relays_agree_unless_a_write_fails<S>(
    state: RelayState,
    event: RelayEvent,
    synced: RelayState,
    transferred: RelayState,
)
    requires
        sync_answers(state, event),
        transfer_answers(state, event),
        state is Reading || state is Writing,
        event matches RelayEvent::Written(result) ==> (result matches Ok(n) && n > 0),
        call_ensures(sync_data, (state, event), synced),
        call_ensures(TcpTun::<S>::transfer_data, (state, event), transferred),
    ensures
        synced == transferred,
{
}

/// A relay of either sort fails only for a cause: as long as reads take in bytes
/// or would block and writes take bytes, it finds no end closed and does not
/// fail.
pub proof fn relay_fails_only_for_a_cause(run: Run, k: nat)
    requires
        run.is_sync() || run.is_transfer(),
        k <= run.events.len(),
        forall|i: int|
            0 <= i < k ==> match #[trigger] run.events[i] {
                RelayEvent::Read(Ok(n)) => n > 0,
                RelayEvent::Read(Err(e)) => e.kind == ErrorKind::WouldBlock,
                RelayEvent::Written(Ok(n)) => n > 0,
                RelayEvent::Written(Err(_)) => false,
                RelayEvent::Peer(_) => true,
            },
    ensures
        run.states[k as int] is Reading || run.states[k as int] is Writing
            || run.states[k as int] is Drained,
    decreases k,
{
    if k > 0 {
        let i = k - 1;
        relay_fails_only_for_a_cause(run, i as nat);
        lemma_run_steps(run, i);
    }
}

/// `TcpTun::transfer_data` fails only if a read failed or found the source
/// closed, whatever becomes of the writes.
pub proof fn transfer_fails_only_for_its_source(run: Run, k: nat)
    requires
        run.is_transfer(),
        k <= run.events.len(),
        forall|i: int|
            0 <= i < k ==> match #[trigger] run.events[i] {
                RelayEvent::Read(Ok(n)) => n > 0,
                RelayEvent::Read(Err(e)) => e.kind == ErrorKind::WouldBlock,
                _ => true,
            },
    ensures
        !(run.states[k as int] is Failed),
        !(run.states[k as int] is SourceClosed),
    decreases k,
{
    if k > 0 {
        let i = k - 1;
        transfer_fails_only_for_its_source(run, i as nat);
        lemma_run_steps(run, i);
    }
}

/// A relay of either sort is drained by a read that would block, and by nothing
/// else.
pub proof fn relay_is_drained_only_when_blocked(run: Run, k: int)
    requires
        run.is_sync() || run.is_transfer(),
        0 <= k < run.events.len(),
    ensures
        run.states[k + 1] is Drained <==> (run.events[k] matches RelayEvent::Read(Err(e)) && e.kind
            == ErrorKind::WouldBlock),
{
    lemma_run_steps(run, k);
}

/// A relay of either sort that is drained or has failed is over.
pub proof fn relay_ends_once(run: Run, k: int)
    requires
        run.is_sync() || run.is_transfer(),
        0 <= k <= run.events.len(),
        run.states[k] is Drained || run.states[k] is Failed,
    ensures
        k == run.events.len(),
{
    if k < run.events.len() {
        lemma_run_steps(run, k);
    }
}

/// A relay of either sort reads again after a write that took all that was left,
/// and writes on after one that took less.
pub proof fn relay_reads_again_after_a_write(
    run: Run,
    k: int,
    count: usize,
    pending: PendingWrite,
    n: usize,
)
    requires
        run.is_sync() || run.is_transfer(),
        0 <= k < run.events.len(),
        run.states[k] == (RelayState::Writing { count, pending }),
        run.events[k] == RelayEvent::Written(Ok(n)),
        n > 0,
    ensures
        n >= pending.size - pending.start_index ==> (run.states[k + 1] matches RelayState::Reading {
            count: c,
        } && c == count + pending.size),
        n < pending.size - pending.start_index ==> (run.states[k + 1] matches RelayState::Writing {
            count: c,
            pending: rest,
        } && c == count && rest.size == pending.size && rest.start_index == pending.start_index + n),
{
    lemma_run_steps(run, k);
}

/// The number of bytes that the first `k` events read.
pub open spec fn bytes_read(events: Seq<RelayEvent>, k: nat) -> nat
    decreases k,
{
    if k == 0 {
        0
    } else {
        bytes_read(events, (k - 1) as nat) + match events[k - 1] {
            RelayEvent::Read(Ok(n)) => n as nat,
            _ => 0,
        }
    }
}

/// A relay of either sort that is drained has counted every byte of every read,
/// up to the read that would block, which is its last event.
pub proof fn drained_relay_counts_every_read(run: Run)
    requires
        run.is_sync() || run.is_transfer(),
        run.states.last() is Drained,
    ensures
        run.states.last()->Drained_count == bytes_read(run.events, run.events.len()),
        run.events.len() > 0,
        run.events.last() matches RelayEvent::Read(Err(e)) && e.kind == ErrorKind::WouldBlock,
{
    let k = run.events.len();
    lemma_counts_reads(run, k);
    if k > 0 {
        lemma_run_steps(run, k - 1);
    }
}

/// A drained relay of either sort whose writes all took bytes has delivered
/// every byte of every read.
pub proof fn drained_relay_delivers_every_read(run: Run)
    requires
        run.is_sync() || run.is_transfer(),
        run.states.last() is Drained,
        run.writes_succeed(run.events.len()),
    ensures
        run.wire(run.events.len()).delivered == run.wire(run.events.len()).received,
        run.wire(run.events.len()).delivered.len() == bytes_read(run.events, run.events.len()),
{
    let k = run.events.len();
    drained_relay_counts_every_read(run);
    if run.is_sync() {
        crate::fidelity::sync_forwards_all_bytes(run, k);
    } else {
        crate::fidelity::transfer_forwards_all_bytes(run, k);
    }
}

/// The count of a relay is the number of bytes that it read.
proof fn lemma_counts_reads(run: Run, k: nat)
    requires
        run.is_sync() || run.is_transfer(),
        k <= run.events.len(),
    ensures
        match run.states[k as int] {
            RelayState::Reading { count } => count == bytes_read(run.events, k),
            RelayState::Drained { count } => count == bytes_read(run.events, k),
            RelayState::Writing { count, pending } => count + pending.size == bytes_read(
                run.events,
                k,
            ),
            RelayState::TargetClosed { count, size } => count + size == bytes_read(run.events, k),
            _ => true,
        },
    decreases k,
{
    if k > 0 {
        lemma_counts_reads(run, (k - 1) as nat);
        lemma_run_steps(run, k - 1);
    }
}

/// Each step of a run is one of its relay.
proof fn lemma_run_steps(run: Run, i: int)
    requires
        run.is_sync() || run.is_transfer(),
        0 <= i < run.events.len(),
    ensures
        run.is_sync() ==> sync_answers(run.states[i], run.events[i]) && sync_step(
            run.states[i],
            run.events[i],
            run.states[i + 1],
        ),
        run.is_transfer() ==> transfer_answers(run.states[i], run.events[i]) && transfer_step(
            run.states[i],
            run.events[i],
            run.states[i + 1],
        ),
{
}

/// `write_target` asks for exactly the bytes that a write left, is over when none
/// are left, and passes a failure on.
pub proof fn write_target_asks_for_the_rest(
    pending: PendingWrite,
    result: Result<usize, IoError>,
    r: WriteStep,
)
    requires
        pending.start_index <= pending.size <= 4096,
        call_ensures(write_target, (pending, result), r),
    ensures
        r matches WriteStep::Again(rest) ==> {
            &&& result matches Ok(n)
            &&& n > 0
            &&& rest.start_index - pending.start_index == n
            &&& rest.size == pending.size
            &&& rest.start_index < rest.size
        },
        r is Closed <==> (result matches Ok(n) && n == 0),
        r matches WriteStep::Done(Ok(m)) ==> m == pending.size && (result matches Ok(n) && n > 0
            && n >= pending.size - pending.start_index),
        r matches WriteStep::Done(Err(e)) ==> result == Err::<usize, IoError>(e),
        result is Err ==> r is Done,
{
}

/// `write_target` takes every outcome of a write inside the buffer, and
/// `TcpTun::write_to` does the same as it.
pub proof fn both_writes_agree<S>(
    pending: PendingWrite,
    result: Result<usize, IoError>,
    a: WriteStep,
    b: WriteStep,
)
    requires
        pending.start_index <= pending.size <= 4096,
        call_ensures(write_target, (pending, result), a),
        call_ensures(TcpTun::<S>::write_to, (pending, result), b),
    ensures
        a == b,
        call_requires(write_target, (pending, result)),
        call_requires(TcpTun::<S>::write_to, (pending, result)),
{
}

/// The sum of the first `k` counts.
pub open spec fn total(counts: Seq<usize>, k: nat) -> nat
    decreases k,
{
    if k == 0 {
        0
    } else {
        total(counts, (k - 1) as nat) + counts[k - 1] as nat
    }
}

/// A range written in several goes is written from its start to its end, each
/// write going on where the ones before it stopped.
pub proof fn writes_go_on_where_they_stopped(
    ranges: Seq<PendingWrite>,
    counts: Seq<usize>,
    k: nat,
)
    requires
        ranges.len() == counts.len() + 1,
        ranges[0].start_index <= ranges[0].size <= 4096,
        forall|i: int|
            0 <= i < counts.len() ==> call_ensures(
                write_target,
                (#[trigger] ranges[i], Ok(counts[i])),
                WriteStep::Again(ranges[i + 1]),
            ),
        k < ranges.len(),
    ensures
        ranges[k as int].start_index == ranges[0].start_index + total(counts, k),
        ranges[k as int].size == ranges[0].size,
        ranges[k as int].start_index <= ranges[k as int].size,
    decreases k,
{
    if k > 0 {
        let i = k - 1;
        writes_go_on_where_they_stopped(ranges, counts, i as nat);
        let range = ranges[i];
        write_target_asks_for_the_rest(
            range,
            Ok(counts[i]),
            WriteStep::Again(ranges[i + 1]),
        );
    }
}

/// `TcpTun::read_write` hands on everything that a read took in.
pub proof fn read_write_hands_on_the_whole_read<S>(result: Result<usize, IoError>, r: ReadStep)
    requires
        call_ensures(TcpTun::<S>::read_write, (result,), r),
    ensures
        r is Forward <==> (result matches Ok(n) && n > 0),
        r matches ReadStep::Forward(pending) ==> pending.start_index == 0 && result == Ok::<
            usize,
            IoError,
        >(pending.size) && pending.size <= 4096,
        r is Closed <==> (result matches Ok(n) && n == 0),
        r matches ReadStep::Done(Ok(n)) ==> n == 0 && (result matches Err(e) && e.kind
            == ErrorKind::WouldBlock),
        r matches ReadStep::Done(Err(e)) ==> result == Err::<usize, IoError>(e) && e.kind
            != ErrorKind::WouldBlock,
        (result matches Ok(n) ==> n <= 4096) ==> call_requires(TcpTun::<S>::read_write, (result,)),
{
}

/// Both tests find exactly the failures that only mean waiting.
pub proof fn waiting_is_told_from_failing(e: IoError, a: bool, b: bool)
    requires
        call_ensures(is_would_block, (&e,), a),
        call_ensures(is_would_block_err, (&e,), b),
    ensures
        a == b,
        a <==> e.kind == ErrorKind::WouldBlock,
{
}

/// The failure for a closed connection is a broken pipe, never mistaken for
/// waiting, and its text names the peer.
pub proof fn broken_connection_names_its_peer(peer: &str, e: IoError)
    requires
        call_ensures(create_broken_err, (peer,), e),
    ensures
        e.kind == ErrorKind::BrokenPipe,
        e.message@ == "peer "@ + peer@ + " close the tunnel"@,
{
}

} // verus!
