//! What a relay delivers, in terms of what it read.

use crate::relay::{
    answers, sync_answers, sync_step, transfer_answers, transfer_step, RelayEvent, RelayState,
    TRANSFER_BUF_CAPACITY,
};
use crate::socket_tun::{
    steps_after_sync, table_after_sync, teardown, without_tun, SocketTun, Teardown,
};
use std::io::ErrorKind;
use std::sync::Arc;
use vstd::prelude::*;

verus! {

/// The bytes on the move: what the last read put into the buffer, what the target
/// has taken of it, and what was read from the source and what the target has
/// taken since the relay began.
#[verifier::ext_equal]
pub struct Wire {
    pub buffer: Seq<u8>,
    pub taken: Seq<u8>,
    pub received: Seq<u8>,
    pub delivered: Seq<u8>,
}

/// Nothing has moved yet.
pub open spec fn idle_wire() -> Wire {
    Wire {
        buffer: Seq::empty(),
        taken: Seq::empty(),
        received: Seq::empty(),
        delivered: Seq::empty(),
    }
}

/// The bytes after `event` in `state`: a read puts `data` at the beginning of
/// the buffer, a write takes bytes from the beginning of the pending range.
pub open spec fn wire_next(wire: Wire, state: RelayState, event: RelayEvent, data: Seq<u8>) -> Wire {
    match (state, event) {
        (_, RelayEvent::Read(Ok(_))) => Wire {
            buffer: data,
            taken: Seq::empty(),
            received: wire.received + data,
            delivered: wire.delivered,
        },
        (RelayState::Writing { pending, .. }, RelayEvent::Written(Ok(n))) => {
            let sent = wire.buffer.subrange(pending.start_index as int, pending.start_index + n);
            Wire {
                buffer: wire.buffer,
                taken: wire.taken + sent,
                received: wire.received,
                delivered: wire.delivered + sent,
            }
        },
        _ => wire,
    }
}

/// The sockets keep to what reads and writes report: a read reports the number
/// of bytes that it put into the buffer, a write no more than it was given.
pub open spec fn honest(state: RelayState, event: RelayEvent, data: Seq<u8>) -> bool {
    match (state, event) {
        (_, RelayEvent::Read(Ok(n))) => data.len() == n,
        (RelayState::Writing { pending, .. }, RelayEvent::Written(Ok(n))) => pending.start_index + n
            <= pending.size,
        _ => true,
    }
}

/// A run of a relay: its states, the event in each of them but the last, and
/// the bytes that came with each event.
pub struct Run {
    pub states: Seq<RelayState>,
    pub events: Seq<RelayEvent>,
    pub data: Seq<Seq<u8>>,
}

impl Run {
    /// The run starts with nothing read and gives each state one event.
    pub open spec fn begins(self) -> bool {
        &&& self.states.len() == self.events.len() + 1
        &&& self.data.len() == self.events.len()
        &&& self.states[0] == (RelayState::Reading { count: 0 })
        &&& forall|i: int|
            0 <= i < self.events.len() ==> honest(
                #[trigger] self.states[i],
                self.events[i],
                self.data[i],
            )
    }

    /// Every step is one of `sync_data`.
    pub open spec fn is_sync(self) -> bool {
        &&& self.begins()
        &&& forall|i: int|
            0 <= i < self.events.len() ==> sync_answers(#[trigger] self.states[i], self.events[i])
                && sync_step(self.states[i], self.events[i], self.states[i + 1])
    }

    /// Every step is one of `TcpTun::transfer_data`.
    pub open spec fn is_transfer(self) -> bool {
        &&& self.begins()
        &&& forall|i: int|
            0 <= i < self.events.len() ==> transfer_answers(
                #[trigger] self.states[i],
                self.events[i],
            ) && transfer_step(self.states[i], self.events[i], self.states[i + 1])
    }

    /// The bytes after the first `k` events.
    pub open spec fn wire(self, k: nat) -> Wire
        decreases k,
    {
        if k == 0 {
            idle_wire()
        } else {
            wire_next(
                self.wire((k - 1) as nat),
                self.states[k - 1],
                self.events[k - 1],
                self.data[k - 1],
            )
        }
    }

    /// No write among the first `k` events failed or found its peer gone.
    pub open spec fn writes_succeed(self, k: nat) -> bool {
        forall|i: int|
            0 <= i < k ==> match #[trigger] self.events[i] {
                RelayEvent::Written(Ok(n)) => n > 0,
                RelayEvent::Written(Err(_)) => false,
                _ => true,
            }
    }
}

/// What `state` says of the bytes on the move is true of `wire`: whenever the
/// relay is not in the middle of writing, all that was read is delivered.
pub open spec fn in_step(state: RelayState, wire: Wire) -> bool {
    match state {
        RelayState::Reading { count } => wire.delivered == wire.received && count
            == wire.received.len(),
        RelayState::Drained { count } => wire.delivered == wire.received && count
            == wire.received.len(),
        RelayState::SourceClosed => wire.delivered == wire.received,
        RelayState::Writing { count, pending } => {
            &&& pending.wf()
            &&& pending.size == wire.buffer.len()
            &&& wire.received == wire.delivered + wire.buffer.skip(pending.start_index as int)
            &&& count + pending.size == wire.received.len()
        },
        RelayState::TargetClosed { .. } => wire.delivered.is_prefix_of(wire.received),
        RelayState::Failed { .. } => wire.delivered.is_prefix_of(wire.received),
    }
}

/// The target of `sync_data` gets the bytes of the source in their order,
/// without a gap and without an addition. At every moment they are a prefix of
/// what was read, and whenever the relay reads again or is drained they are all
/// of it, and their number is the count that it keeps.
pub proof fn sync_forwards_all_bytes(run: Run, k: nat)
    requires
        run.is_sync(),
        k <= run.events.len(),
    ensures
        run.wire(k).delivered.is_prefix_of(run.wire(k).received),
        in_step(run.states[k as int], run.wire(k)),
    decreases k,
{
    if k > 0 {
        let i = k - 1;
        sync_forwards_all_bytes(run, i as nat);
        assert(sync_answers(run.states[i], run.events[i]));
        assert(honest(run.states[i], run.events[i], run.data[i]));
        lemma_stays_in_step(
            run.wire(i as nat),
            run.states[i],
            run.events[i],
            run.data[i],
            run.states[i + 1],
        );
    }
    lemma_in_step_is_prefix(run.states[k as int], run.wire(k));
}

/// What was read before the source closed its connection is delivered before
/// the tunnel is given up, and the failure is a broken pipe.
pub proof fn sync_delivers_before_it_closes(run: Run, k: nat)
    requires
        run.is_sync(),
        0 < k <= run.events.len(),
        run.states[k - 1] is SourceClosed,
    ensures
        run.wire(k).delivered == run.wire(k).received,
        run.states[k as int] matches RelayState::Failed { error } && error.kind
            == ErrorKind::BrokenPipe,
{
    sync_forwards_all_bytes(run, (k - 1) as nat);
    assert(sync_answers(run.states[k - 1], run.events[k - 1]));
}

/// A run of `sync_data` through `tun` that has come to its end leaves the tunnel
/// alone if the last thing to happen was a read that would block. After anything
/// else, any failed write and any other failed read among it, both tokens of the
/// tunnel are gone from the table, the rest of which is kept, and its sockets
/// are to be deregistered and shut down.
pub proof fn sync_gives_up_unless_drained<S>(
    run: Run,
    tuns: Map<usize, Arc<SocketTun<S>>>,
    tun: SocketTun<S>,
)
    requires
        run.is_sync(),
        run.states.last() is Drained || run.states.last() is Failed,
    ensures
        run.events.len() > 0,
        match run.events.last() {
            RelayEvent::Read(Err(e)) if e.kind == ErrorKind::WouldBlock => {
                &&& table_after_sync(tuns, tun, run.states.last()) == tuns
                &&& steps_after_sync(run.states.last()) == Seq::<Teardown>::empty()
            },
            _ => {
                &&& table_after_sync(tuns, tun, run.states.last()) == without_tun(tuns, tun)
                &&& !table_after_sync(tuns, tun, run.states.last()).contains_key(
                    tun.source_token.0,
                )
                &&& !table_after_sync(tuns, tun, run.states.last()).contains_key(
                    tun.target_token.0,
                )
                &&& steps_after_sync(run.states.last()) == teardown()
            },
        },
{
    let i = run.events.len() - 1;
    if i >= 0 {
        assert(sync_answers(run.states[i], run.events[i]));
    }
}

/// `sync_data` reads and writes nothing more once a write has failed.
pub proof fn sync_stops_at_a_failed_write(run: Run, k: nat)
    requires
        run.is_sync(),
        k < run.events.len(),
        run.events[k as int] matches RelayEvent::Written(Err(_)),
    ensures
        run.states[k as int + 1] matches RelayState::Failed { error } && run.events[k as int]
            == RelayEvent::Written(Err(error)),
        run.events.len() == k + 1,
{
    assert(sync_answers(run.states[k as int], run.events[k as int]));
    if k + 1 < run.events.len() {
        assert(sync_answers(run.states[k as int + 1], run.events[k as int + 1]));
    }
}

/// `sync_data` reads and writes nothing more once the target takes no bytes: the
/// one thing left is to name the peer in a broken pipe.
pub proof fn sync_stops_at_a_closed_target(run: Run, k: nat)
    requires
        run.is_sync(),
        k < run.events.len(),
        run.events[k as int] matches RelayEvent::Written(Ok(0)),
    ensures
        run.states[k as int + 1] is TargetClosed,
        run.events.len() <= k + 2,
        run.events.len() == k + 2 ==> run.events[k as int + 1] is Peer && (run.states[k as int
            + 2] matches RelayState::Failed { error } && error.kind == ErrorKind::BrokenPipe),
{
    assert(sync_answers(run.states[k as int], run.events[k as int]));
    if k + 1 < run.events.len() {
        assert(sync_answers(run.states[k as int + 1], run.events[k as int + 1]));
    }
    if k + 2 < run.events.len() {
        assert(sync_answers(run.states[k as int + 2], run.events[k as int + 2]));
    }
}

/// `TcpTun::transfer_data` forwards like `sync_data` as long as its writes succeed.
pub proof fn transfer_forwards_all_bytes(run: Run, k: nat)
    requires
        run.is_transfer(),
        k <= run.events.len(),
        run.writes_succeed(k),
    ensures
        run.wire(k).delivered.is_prefix_of(run.wire(k).received),
        in_step(run.states[k as int], run.wire(k)),
        !(run.states[k as int] is TargetClosed),
    decreases k,
{
    if k > 0 {
        let i = k - 1;
        transfer_forwards_all_bytes(run, i as nat);
        assert(transfer_answers(run.states[i], run.events[i]));
        assert(honest(run.states[i], run.events[i], run.data[i]));
        assert(sync_step(run.states[i], run.events[i], run.states[i + 1]));
        lemma_stays_in_step(
            run.wire(i as nat),
            run.states[i],
            run.events[i],
            run.data[i],
            run.states[i + 1],
        );
    }
    lemma_in_step_is_prefix(run.states[k as int], run.wire(k));
}

/// Whatever becomes of its writes, `TcpTun::transfer_data` counts the bytes that
/// it read: the count is exact whenever it reads again or is drained.
pub proof fn transfer_counts_what_it_reads(run: Run, k: nat)
    requires
        run.is_transfer(),
        k <= run.events.len(),
    ensures
        match run.states[k as int] {
            RelayState::Reading { count } => count == run.wire(k).received.len(),
            RelayState::Drained { count } => count == run.wire(k).received.len(),
            RelayState::Writing { count, pending } => count + pending.size == run.wire(
                k,
            ).received.len(),
            RelayState::TargetClosed { count, size } => count + size == run.wire(k).received.len(),
            _ => true,
        },
    decreases k,
{
    if k > 0 {
        let i = k - 1;
        transfer_counts_what_it_reads(run, i as nat);
        assert(transfer_answers(run.states[i], run.events[i]));
        assert(honest(run.states[i], run.events[i], run.data[i]));
    }
}

/// Even where writes fail, the target gets of each read a prefix, in order: the
/// bytes that it took since the last read are the first ones of that read and
/// the last ones that it got. While a write is pending they are exactly those
/// before the pending range, and when a write reports the end of the range they
/// are all of the read.
pub proof fn each_read_is_written_from_its_start(run: Run, k: nat)
    requires
        run.is_sync() || run.is_transfer(),
        k <= run.events.len(),
    ensures
        run.wire(k).taken.is_prefix_of(run.wire(k).buffer),
        run.wire(k).taken.is_suffix_of(run.wire(k).delivered),
        run.states[k as int] matches RelayState::Writing { pending, .. } ==> {
            &&& pending.wf()
            &&& run.wire(k).buffer.len() == pending.size
            &&& run.wire(k).taken == run.wire(k).buffer.take(pending.start_index as int)
        },
        k > 0 && (run.events[k - 1] matches RelayEvent::Written(Ok(n)) && n > 0)
            && run.states[k as int] is Reading ==> run.wire(k).taken == run.wire(k).buffer,
    decreases k,
{
    if k > 0 {
        let i = k - 1;
        each_read_is_written_from_its_start(run, i as nat);
        assert(honest(run.states[i], run.events[i], run.data[i]));
        if run.is_sync() {
            assert(sync_answers(run.states[i], run.events[i]));
        } else {
            assert(transfer_answers(run.states[i], run.events[i]));
        }
        lemma_read_is_written_from_its_start(
            run.wire(i as nat),
            run.states[i],
            run.events[i],
            run.data[i],
            run.states[i + 1],
            run.wire(k),
        );
    }
}

/// One step keeps what was taken of the last read at its start.
proof fn lemma_read_is_written_from_its_start(
    wire: Wire,
    state: RelayState,
    event: RelayEvent,
    data: Seq<u8>,
    next: RelayState,
    after: Wire,
)
    requires
        answers(state, event),
        honest(state, event, data),
        sync_step(state, event, next) || transfer_step(state, event, next),
        after == wire_next(wire, state, event, data),
        wire.taken.is_prefix_of(wire.buffer),
        wire.taken.is_suffix_of(wire.delivered),
        state matches RelayState::Writing { pending, .. } ==> wire.buffer.len() == pending.size
            && wire.taken == wire.buffer.take(pending.start_index as int),
    ensures
        after.taken.is_prefix_of(after.buffer),
        after.taken.is_suffix_of(after.delivered),
        next matches RelayState::Writing { pending, .. } ==> {
            &&& pending.wf()
            &&& after.buffer.len() == pending.size
            &&& after.taken == after.buffer.take(pending.start_index as int)
        },
        (event matches RelayEvent::Written(Ok(n)) && n > 0) && next is Reading ==> after.taken
            == after.buffer,
{
    match (state, event) {
        (RelayState::Writing { pending, .. }, RelayEvent::Written(Ok(n))) => {
            let start = pending.start_index as int;
            let sent = wire.buffer.subrange(start, start + n);
            assert(after.taken == after.buffer.take(start + n));
            let earlier = wire.delivered.len() - wire.taken.len();
            assert(after.delivered.skip(earlier) == wire.delivered.skip(earlier) + sent);
            if start + n == pending.size {
                assert(after.taken == after.buffer);
            }
        },
        (RelayState::Reading { .. }, RelayEvent::Read(Ok(_))) => {
            assert(after.taken == after.buffer.take(0));
        },
        _ => {
            assert(after == wire);
        },
    }
}

/// A write never asks for nothing, nor for bytes outside the buffer.
pub proof fn writes_stay_in_the_buffer(run: Run, k: nat)
    requires
        run.is_sync() || run.is_transfer(),
        k <= run.events.len(),
    ensures
        run.states[k as int] matches RelayState::Writing { pending, .. } ==> pending.start_index
            < pending.size <= TRANSFER_BUF_CAPACITY,
    decreases k,
{
    if k > 0 {
        let i = k - 1;
        writes_stay_in_the_buffer(run, i as nat);
        assert(honest(run.states[i], run.events[i], run.data[i]));
        if run.is_sync() {
            assert(sync_answers(run.states[i], run.events[i]));
        } else {
            assert(transfer_answers(run.states[i], run.events[i]));
        }
    }
}

/// One step keeps state and bytes in step.
proof fn lemma_stays_in_step(
    wire: Wire,
    state: RelayState,
    event: RelayEvent,
    data: Seq<u8>,
    next: RelayState,
)
    requires
        in_step(state, wire),
        answers(state, event),
        honest(state, event, data),
        sync_step(state, event, next),
    ensures
        in_step(next, wire_next(wire, state, event, data)),
{
    let after = wire_next(wire, state, event, data);
    lemma_in_step_is_prefix(state, wire);
    match (state, event) {
        (RelayState::Reading { .. }, RelayEvent::Read(Ok(_))) => {
            if data.len() == 0 {
                assert(after.received == after.delivered);
            } else {
                assert(after.received == after.delivered + after.buffer.skip(0));
            }
        },
        (RelayState::Writing { pending, .. }, RelayEvent::Written(Ok(n))) => {
            let start = pending.start_index as int;
            assert(after.received == after.delivered + after.buffer.skip(start + n));
            if start + n == pending.size {
                assert(after.received == after.delivered);
            }
        },
        _ => {},
    }
}

/// Bytes that are in step with a state were delivered in order.
proof fn lemma_in_step_is_prefix(state: RelayState, wire: Wire)
    requires
        in_step(state, wire),
    ensures
        wire.delivered.is_prefix_of(wire.received),
{
    match state {
        RelayState::Writing { .. } => {
            assert(wire.delivered == wire.received.subrange(0, wire.delivered.len() as int));
        },
        _ => {},
    }
}

} // verus!
