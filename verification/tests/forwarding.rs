use portfwd::addr::SocketAddr;
use portfwd::cluster::{
    accept_next, pool_size, AcceptStep, Accepted, Cluster, EventAction, Filed, ForwardServer,
    LoopStep, StartEvent, StartStep, EVENTS_CAPACITY, POLL_TIMEOUT_MILLIS,
};
use portfwd::error::IoError;
use portfwd::token::{Token, TokenCounter};
use portfwd::tunnel::TcpTun;
use std::io::ErrorKind;
use std::sync::{Arc, Mutex};

type Shared = Mutex<TcpTun<&'static str>>;
type Forwarder = Cluster<&'static str, Shared>;

fn addr(port: u16) -> SocketAddr {
    SocketAddr::V4 { octets: 1, port }
}

fn with_server(tokens: &mut TokenCounter) -> Forwarder {
    let mut cluster = Forwarder::new();
    let bound: Result<&str, i32> = Ok("listener");
    let started = ForwardServer::start(addr(1), addr(2), bound, tokens);
    assert_eq!(cluster.listen(started), Ok(()));
    cluster
}

fn error(kind: ErrorKind) -> IoError {
    IoError { kind, message: "text".to_string() }
}

#[test]
fn one_cpu_is_left_to_the_event_loop() {
    assert_eq!(pool_size(8), 7);
    assert_eq!(pool_size(2), 1);
    assert_eq!(pool_size(1), 1);
    assert_eq!(pool_size(0), 0);
    let cluster = Forwarder::new();
    assert_eq!(cluster.pool_size, pool_size(num_cpus::get()));
    assert!(cluster.pool_size >= 1);
    assert_eq!((EVENTS_CAPACITY, POLL_TIMEOUT_MILLIS), (1024, 2));
}

#[test]
fn new_forwarder_is_empty() {
    let cluster = Forwarder::new();
    assert!(cluster.servers.is_empty());
    assert!(cluster.tunnels.is_empty());
    assert!(matches!(cluster.event_handle(Token(0)), EventAction::Unknown));
}

#[test]
fn addresses_are_taken_in_pairs() {
    let addrs: Vec<String> = vec!["l0", "r0", "l1", "r1"].iter().map(|s| s.to_string()).collect();
    let step = Forwarder::start_with::<i32>(&addrs, StartEvent::Begin);
    assert_eq!(step, StartStep::Listen { addr_i: 0 });
    let listened = StartEvent::Listened { addr_i: 0, result: Ok(()) };
    let step = Forwarder::start_with::<i32>(&addrs, listened);
    assert_eq!(step, StartStep::Listen { addr_i: 2 });
    let listened = StartEvent::Listened { addr_i: 2, result: Ok(()) };
    let step = Forwarder::start_with::<i32>(&addrs, listened);
    assert_eq!(step, StartStep::EventLoop);
    let refused = StartEvent::Listened { addr_i: 0, result: Err(9) };
    assert_eq!(Forwarder::start_with(&addrs, refused), StartStep::Done(Err(9)));
    assert_eq!(Forwarder::start_with::<i32>(&[], StartEvent::Begin), StartStep::EventLoop);
}

#[test]
fn end_of_the_event_loop_is_no_failure() {
    let addrs: Vec<String> = vec!["l0".to_string(), "r0".to_string()];
    let step = Forwarder::start_with(&addrs, StartEvent::LoopEnded(Err(5)));
    assert_eq!(step, StartStep::Done(Ok(())));
    let step = Forwarder::start_with::<i32>(&addrs, StartEvent::LoopEnded(Ok(())));
    assert_eq!(step, StartStep::Done(Ok(())));
}

#[test]
fn servers_of_two_forwarders_have_different_tokens() {
    let mut tokens = TokenCounter::new();
    let first = with_server(&mut tokens);
    let second = with_server(&mut tokens);
    assert_eq!(first.servers[&0].token, Token(0));
    assert_eq!(second.servers[&1].token, Token(1));
    assert!(matches!(second.event_handle(Token(0)), EventAction::Unknown));
}

#[test]
fn servers_are_added_one_by_one() {
    let mut tokens = TokenCounter::new();
    let mut cluster = Forwarder::new();
    for port in vec![1, 2, 3] {
        let bound: Result<&str, i32> = Ok("listener");
        let started = ForwardServer::start(addr(port), addr(port + 10), bound, &mut tokens);
        assert_eq!(cluster.listen(started), Ok(()));
    }
    assert_eq!(cluster.servers.len(), 3);
    assert_eq!(cluster.servers[&2].local_addr, addr(3));
    assert_eq!(cluster.servers[&2].remote_addr, addr(13));
}

#[test]
fn server_draws_a_token_only_if_it_listens() {
    let mut tokens = TokenCounter::new();
    let refused: Result<&str, i32> = Err(98);
    let failed = ForwardServer::start(addr(1), addr(2), refused, &mut tokens);
    assert_eq!(failed.err(), Some(98));
    assert_eq!(tokens.next, 0);
    let bound: Result<&str, i32> = Ok("listener");
    let server = ForwardServer::start(addr(1), addr(2), bound, &mut tokens).unwrap();
    assert_eq!(server.token, Token(0));
    assert_eq!((server.local_addr, server.remote_addr), (addr(1), addr(2)));
    assert_eq!(server.listener, "listener");
    assert_eq!(tokens.next, 1);
}

#[test]
fn failed_server_is_not_added() {
    let mut cluster = Forwarder::new();
    let failed: Result<ForwardServer<&str>, i32> = Err(98);
    assert_eq!(cluster.listen(failed), Err(98));
    assert!(cluster.servers.is_empty());
}

#[test]
fn server_events_reach_the_server() {
    let cluster = with_server(&mut TokenCounter::new());
    match cluster.event_handle(Token(0)) {
        EventAction::Accept(server) => assert_eq!(server.listener, "listener"),
        _ => panic!("not the server"),
    }
    assert!(matches!(cluster.event_handle(Token(1)), EventAction::Unknown));
}

#[test]
fn accepted_connection_becomes_a_tunnel() {
    let server = with_server(&mut TokenCounter::new()).servers.remove(&0).unwrap();
    let mut tokens = TokenCounter::new();
    tokens.next = 10;
    let accepted: Result<&str, i32> = Ok("client");
    let tun = server.accept_connect(accepted, &mut tokens).unwrap();
    assert_eq!((tun.source_token, tun.target_token), (Token(10), Token(11)));
    assert_eq!((tun.source, tun.target), ("client", None));
    assert_eq!((tun.source_addr, tun.target_addr), (addr(1), addr(2)));
    assert_eq!(tokens.next, 12);
    let refused: Result<&str, i32> = Err(4);
    assert_eq!(server.accept_connect(refused, &mut tokens).err(), Some(4));
    assert_eq!(tokens.next, 12);
}

#[test]
fn tunnel_events_reach_the_tunnel() {
    let mut tokens = TokenCounter::new();
    let mut cluster = with_server(&mut tokens);
    let first = match cluster.accept_handle(Token(0), Ok("client"), Mutex::new, &mut tokens) {
        Ok(Accepted::Opened(tun)) => tun,
        _ => panic!("not opened"),
    };
    let second = match cluster.accept_handle(Token(0), Ok("guest"), Mutex::new, &mut tokens) {
        Ok(Accepted::Opened(tun)) => tun,
        _ => panic!("not opened"),
    };
    assert_eq!(first.tun.lock().unwrap().source, "client");
    assert_eq!(second.tun.lock().unwrap().source_token, Token(3));
    assert_eq!((first.source_token, first.target_token), (Token(1), Token(2)));
    assert_eq!((second.source_token, second.target_token), (Token(3), Token(4)));
    assert_eq!(cluster.tunnels.len(), 4);
    for (token, expected) in vec![(1, &first), (2, &first), (3, &second), (4, &second)] {
        match cluster.event_handle(Token(token)) {
            EventAction::Sync(tun) => assert!(Arc::ptr_eq(&tun, expected)),
            _ => panic!("not the tunnel"),
        }
    }
    assert!(matches!(cluster.event_handle(Token(0)), EventAction::Accept(_)));
    assert!(matches!(cluster.event_handle(Token(5)), EventAction::Unknown));
}

#[test]
fn accepting_ends_when_it_would_block_or_fails() {
    let mut tokens = TokenCounter::new();
    let mut cluster = with_server(&mut tokens);
    let blocked = Err(error(ErrorKind::WouldBlock));
    let drained = cluster.accept_handle(Token(0), blocked, Mutex::new, &mut tokens);
    assert!(matches!(drained, Ok(Accepted::Drained)));
    let other = Err(error(ErrorKind::Other));
    let failed = cluster.accept_handle(Token(0), other, Mutex::new, &mut tokens);
    assert_eq!(failed.err(), Some(error(ErrorKind::Other)));
    assert!(cluster.tunnels.is_empty());
    assert_eq!(tokens.next, 1);
}

#[test]
fn accepting_goes_on_after_each_connection() {
    let filed = Arc::new(Filed { source_token: Token(1), target_token: Token(2), tun: "tun" });
    match accept_next(Ok(Accepted::Opened(filed.clone()))) {
        AcceptStep::Again(again) => assert!(Arc::ptr_eq(&again, &filed)),
        AcceptStep::Done(_) => panic!("ended"),
    }
    let drained: Result<Accepted<&str>, IoError> = Ok(Accepted::Drained);
    assert!(matches!(accept_next(drained), AcceptStep::Done(Ok(()))));
    let failed: Result<Accepted<&str>, IoError> = Err(error(ErrorKind::Other));
    match accept_next(failed) {
        AcceptStep::Done(result) => assert_eq!(result, Err(error(ErrorKind::Other))),
        AcceptStep::Again(_) => panic!("went on"),
    }
}

#[test]
fn only_a_failed_poll_ends_the_event_loop() {
    assert_eq!(Forwarder::event_loop::<i32>(Ok(())), LoopStep::Handle);
    assert_eq!(Forwarder::event_loop(Err(4)), LoopStep::Done(Err(4)));
}
