use portfwd::error::{create_broken_err, is_would_block, is_would_block_err, IoError};
use portfwd::relay::{
    sync_data, write_target, PendingWrite, ReadStep, RelayEvent, RelayState, WriteStep,
    TRANSFER_BUF_CAPACITY,
};
use portfwd::tunnel::TcpTun;
use std::io::ErrorKind;

type Tun = TcpTun<u8>;

fn error(kind: ErrorKind) -> IoError {
    IoError { kind, message: "text".to_string() }
}

fn broken(peer: &str) -> IoError {
    IoError { kind: ErrorKind::BrokenPipe, message: format!("peer {} close the tunnel", peer) }
}

fn writing(count: usize, start_index: usize, size: usize) -> RelayState {
    RelayState::Writing { count, pending: PendingWrite { start_index, size } }
}

/// Sockets in memory: the source gives out `chunks` and then `end`, the target
/// takes `takes` bytes at most at a time, and fails after `limit` bytes.
struct Sockets {
    chunks: Vec<Vec<u8>>,
    end: Option<ErrorKind>,
    takes: usize,
    limit: usize,
    arrived: Vec<u8>,
}

fn run(sockets: &mut Sockets, step: fn(RelayState, RelayEvent) -> RelayState) -> RelayState {
    let mut buffer = [0u8; TRANSFER_BUF_CAPACITY];
    let mut state = RelayState::Reading { count: 0 };
    loop {
        let event = match &state {
            RelayState::Reading { .. } => {
                if sockets.chunks.len() > 0 {
                    let chunk = sockets.chunks.remove(0);
                    buffer[..chunk.len()].copy_from_slice(&chunk);
                    RelayEvent::Read(Ok(chunk.len()))
                } else {
                    RelayEvent::Read(sockets.end.map_or(Ok(0), |kind| Err(error(kind))))
                }
            }
            RelayState::Writing { pending, .. } => {
                let bytes = &buffer[pending.start_index..pending.size];
                if sockets.arrived.len() >= sockets.limit {
                    RelayEvent::Written(Err(error(ErrorKind::ConnectionReset)))
                } else {
                    let n = bytes.len().min(sockets.takes);
                    sockets.arrived.extend_from_slice(&bytes[..n]);
                    RelayEvent::Written(Ok(n))
                }
            }
            RelayState::SourceClosed => RelayEvent::Peer("source".to_string()),
            RelayState::TargetClosed { .. } => RelayEvent::Peer("target".to_string()),
            RelayState::Drained { .. } | RelayState::Failed { .. } => return state,
        };
        state = step(state, event);
    }
}

fn sockets(end: Option<ErrorKind>, takes: usize, limit: usize) -> Sockets {
    let mut chunks = vec![b"hello ".to_vec(), b"world".to_vec()];
    chunks.push((0..4096u32).map(|i| (i % 251) as u8).collect());
    Sockets { chunks, end, takes, limit, arrived: vec![] }
}

fn all_bytes() -> Vec<u8> {
    sockets(None, 1, 1).chunks.concat()
}

#[test]
fn would_block_is_told_apart() {
    assert!(is_would_block(&error(ErrorKind::WouldBlock)));
    assert!(is_would_block_err(&error(ErrorKind::WouldBlock)));
    for kind in vec![ErrorKind::BrokenPipe, ErrorKind::Interrupted, ErrorKind::Other] {
        assert!(!is_would_block(&error(kind)));
        assert!(!is_would_block_err(&error(kind)));
    }
}

#[test]
fn closed_connection_names_its_peer() {
    let e = create_broken_err("10.0.0.1:80");
    assert_eq!(e.kind, ErrorKind::BrokenPipe);
    assert_eq!(e.message, "peer 10.0.0.1:80 close the tunnel");
}

#[test]
fn sync_delivers_every_byte_in_order() {
    for takes in vec![1, 3, 1000, 4096] {
        let mut sockets = sockets(Some(ErrorKind::WouldBlock), takes, usize::MAX);
        let end = run(&mut sockets, sync_data);
        assert_eq!(end, RelayState::Drained { count: 6 + 5 + 4096 });
        assert_eq!(sockets.arrived, all_bytes());
    }
}

#[test]
fn transfer_delivers_every_byte_in_order() {
    for takes in vec![1, 3, 1000, 4096] {
        let mut sockets = sockets(Some(ErrorKind::WouldBlock), takes, usize::MAX);
        let end = run(&mut sockets, Tun::transfer_data);
        assert_eq!(end, RelayState::Drained { count: 6 + 5 + 4096 });
        assert_eq!(sockets.arrived, all_bytes());
    }
}

#[test]
fn end_of_source_fails_the_relay() {
    let mut first = sockets(None, 7, usize::MAX);
    assert_eq!(run(&mut first, sync_data), RelayState::Failed { error: broken("source") });
    assert_eq!(first.arrived, all_bytes());
    let mut second = sockets(None, 7, usize::MAX);
    let end = run(&mut second, Tun::transfer_data);
    assert_eq!(end, RelayState::Failed { error: broken("source") });
    assert_eq!(second.arrived, all_bytes());
}

#[test]
fn failed_read_fails_the_relay() {
    let kind = ErrorKind::ConnectionReset;
    let mut first = sockets(Some(kind), 7, usize::MAX);
    assert_eq!(run(&mut first, sync_data), RelayState::Failed { error: error(kind) });
    let mut second = sockets(Some(kind), 7, usize::MAX);
    assert_eq!(run(&mut second, Tun::transfer_data), RelayState::Failed { error: error(kind) });
}

#[test]
fn failed_write_ends_sync_but_not_transfer() {
    let mut first = sockets(Some(ErrorKind::WouldBlock), 4, 8);
    let failed = RelayState::Failed { error: error(ErrorKind::ConnectionReset) };
    assert_eq!(run(&mut first, sync_data), failed);
    assert_eq!(first.arrived, b"hello worl".to_vec());
    let mut second = sockets(Some(ErrorKind::WouldBlock), 4, 8);
    let end = run(&mut second, Tun::transfer_data);
    assert_eq!(end, RelayState::Drained { count: 6 + 5 + 4096 });
    assert_eq!(second.arrived, first.arrived);
}

#[test]
fn writes_of_a_read_start_anew_after_a_failed_write() {
    let failed = RelayEvent::Written(Err(error(ErrorKind::ConnectionReset)));
    let state = Tun::transfer_data(writing(10, 2, 5), failed);
    assert_eq!(state, RelayState::Reading { count: 15 });
    let state = Tun::transfer_data(state, RelayEvent::Read(Ok(3)));
    assert_eq!(state, writing(15, 0, 3));
}

#[test]
fn closed_target_ends_sync_but_not_transfer() {
    let state = sync_data(writing(10, 2, 5), RelayEvent::Written(Ok(0)));
    assert_eq!(state, RelayState::TargetClosed { count: 10, size: 5 });
    let state = sync_data(state, RelayEvent::Peer("p".to_string()));
    assert_eq!(state, RelayState::Failed { error: broken("p") });
    let state = Tun::transfer_data(writing(10, 2, 5), RelayEvent::Written(Ok(0)));
    assert_eq!(state, RelayState::TargetClosed { count: 10, size: 5 });
    let state = Tun::transfer_data(state, RelayEvent::Peer("p".to_string()));
    assert_eq!(state, RelayState::Reading { count: 15 });
}

#[test]
fn interrupted_write_is_a_failure() {
    let state = sync_data(
        writing(0, 0, 5),
        RelayEvent::Written(Err(error(ErrorKind::Interrupted))),
    );
    assert_eq!(state, RelayState::Failed { error: error(ErrorKind::Interrupted) });
}

#[test]
fn partial_writes_go_on_where_they_stopped() {
    let whole = PendingWrite { start_index: 0, size: 9 };
    let rest = PendingWrite { start_index: 4, size: 9 };
    assert_eq!(write_target(whole, Ok(4)), WriteStep::Again(rest));
    assert_eq!(write_target(rest, Ok(5)), WriteStep::Done(Ok(9)));
    assert_eq!(Tun::write_to(whole, Ok(4)), WriteStep::Again(rest));
    assert_eq!(Tun::write_to(rest, Ok(5)), WriteStep::Done(Ok(9)));
    assert_eq!(Tun::write_to(rest, Ok(0)), WriteStep::Closed);
    let e = error(ErrorKind::WouldBlock);
    assert_eq!(Tun::write_to(rest, Err(e)), WriteStep::Done(Err(error(ErrorKind::WouldBlock))));
}

#[test]
fn reads_are_told_apart() {
    let whole = PendingWrite { start_index: 0, size: 12 };
    assert_eq!(Tun::read_write(Ok(12)), ReadStep::Forward(whole));
    assert_eq!(Tun::read_write(Ok(0)), ReadStep::Closed);
    assert_eq!(Tun::read_write(Err(error(ErrorKind::WouldBlock))), ReadStep::Done(Ok(0)));
    let e = error(ErrorKind::Other);
    assert_eq!(Tun::read_write(Err(e)), ReadStep::Done(Err(error(ErrorKind::Other))));
}
