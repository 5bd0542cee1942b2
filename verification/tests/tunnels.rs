use portfwd::addr::SocketAddr;
use portfwd::socket_tun::{
    cache_tun, close_tun_print_err, connect, deregister_tun, register_tun, remove_tun_from_cache,
    sync_ends, when_error, ConnectEvent, ConnectState, Teardown, TunMap,
};
use portfwd::error::IoError;
use portfwd::relay::RelayState;
use portfwd::token::{Token, TokenCounter};
use portfwd::tunnel::{DeregisterStep, RegisterStep, Side, TcpTun};
use std::collections::HashMap;
use std::io::ErrorKind;
use std::sync::Arc;

type Opening = ConnectState<&'static str, i32>;

fn addr(port: u16) -> SocketAddr {
    SocketAddr::V4 { octets: 1, port }
}

fn tunnel(target: Option<&'static str>) -> TcpTun<&'static str> {
    TcpTun {
        source_token: Token(4),
        target_token: Token(5),
        source: "client",
        target,
        source_addr: addr(1),
        target_addr: addr(2),
    }
}

#[test]
fn tunnel_is_established_by_a_connection() {
    let mut tun = tunnel(None);
    assert!(!tun.is_established());
    assert_eq!(tun.establish(Err(7)), Err(7));
    assert!(!tun.is_established());
    assert_eq!(tun.establish(Ok::<_, i32>("remote")), Ok(true));
    assert!(tun.is_established());
    assert_eq!(tun.target, Some("remote"));
    assert_eq!(tun.source, "client");
}

#[test]
fn direction_follows_the_token() {
    let mut tun = tunnel(Some("remote"));
    let (from, to) = tun.ends(Token(4));
    assert_eq!((*from, *to), ("client", "remote"));
    let (from, to) = tun.ends(Token(5));
    assert_eq!((*from, *to), ("remote", "client"));
    *from = "other";
    assert_eq!(tun.target, Some("other"));
}

#[test]
fn both_sockets_are_registered_in_turn() {
    let tun = tunnel(Some("remote"));
    let none: Option<(Side, Result<(), i32>)> = None;
    assert_eq!(tun.register(none), RegisterStep::Register(Side::Source, Token(4)));
    let first = Some((Side::Source, Ok::<(), i32>(())));
    assert_eq!(tun.register(first), RegisterStep::Register(Side::Target, Token(5)));
    let second = Some((Side::Target, Ok::<(), i32>(())));
    assert_eq!(tun.register(second), RegisterStep::Done(Ok(true)));
    assert_eq!(tun.register(Some((Side::Source, Err(3)))), RegisterStep::Done(Err(3)));
    assert_eq!(tun.register(Some((Side::Target, Err(3)))), RegisterStep::Done(Err(3)));
}

#[test]
fn both_sockets_are_deregistered_in_turn() {
    let tun = tunnel(Some("remote"));
    let none: Option<(Side, Result<(), i32>)> = None;
    assert_eq!(tun.deregister(none), DeregisterStep::Deregister(Side::Source));
    let first = Some((Side::Source, Ok::<(), i32>(())));
    assert_eq!(tun.deregister(first), DeregisterStep::Deregister(Side::Target));
    let second = Some((Side::Target, Ok::<(), i32>(())));
    assert_eq!(tun.deregister(second), DeregisterStep::Done(Ok(true)));
    assert_eq!(tun.deregister(Some((Side::Source, Err(3)))), DeregisterStep::Done(Err(3)));
}

#[test]
fn tokens_count_up_and_start_over() {
    let mut tokens = TokenCounter::new();
    assert_eq!(tokens.create_token(), Token(0));
    assert_eq!(tokens.create_token(), Token(1));
    tokens.next = usize::MAX;
    assert_eq!(tokens.create_token(), Token(usize::MAX));
    assert_eq!(tokens.create_token(), Token(0));
}

#[test]
fn cached_tunnel_is_found_from_both_ends_and_removed() {
    let mut map: TunMap<&str> = HashMap::new();
    cache_tun(&mut map, Token(8), Arc::new("a"), Token(9), Arc::new("b"));
    cache_tun(&mut map, Token(1), Arc::new("client"), Token(2), Arc::new("remote"));
    assert_eq!(map.len(), 4);
    let srv = map[&1].clone();
    assert_eq!((srv.source_token, srv.target_token), (Token(1), Token(2)));
    assert_eq!((*srv.source, *srv.target), ("client", "remote"));
    let cli = map[&2].clone();
    assert_eq!((cli.source_token, cli.target_token), (Token(2), Token(1)));
    assert_eq!((*cli.source, *cli.target), ("remote", "client"));
    assert!(Arc::ptr_eq(&srv.source, &cli.target));
    remove_tun_from_cache(&mut map, &cli);
    assert!(!map.contains_key(&1) && !map.contains_key(&2));
    assert!(map.contains_key(&8) && map.contains_key(&9));
}

#[test]
fn view_of_a_tunnel_shares_its_sockets_when_cloned() {
    let mut map: TunMap<&str> = HashMap::new();
    cache_tun(&mut map, Token(1), Arc::new("client"), Token(2), Arc::new("remote"));
    let copy = (*map[&1]).clone();
    assert!(Arc::ptr_eq(&copy.source, &map[&1].source));
    assert_eq!(copy.target_token, Token(2));
}

#[test]
fn failed_tunnel_is_given_up() {
    let mut map: TunMap<&str> = HashMap::new();
    cache_tun(&mut map, Token(1), Arc::new("client"), Token(2), Arc::new("remote"));
    let tun = map[&1].clone();
    let steps = when_error(&mut map, &tun);
    assert!(map.is_empty());
    let leaving =
        vec![Teardown::Deregister(Side::Source), Teardown::Deregister(Side::Target)];
    let closing =
        vec![Teardown::Report, Teardown::Shutdown(Side::Source), Teardown::Shutdown(Side::Target)];
    assert_eq!(steps, [leaving.clone(), closing.clone()].concat());
    assert_eq!(deregister_tun(), leaving);
    assert_eq!(close_tun_print_err(), closing);
}

#[test]
fn only_a_failed_relay_gives_its_tunnel_up() {
    let mut map: TunMap<&str> = HashMap::new();
    cache_tun(&mut map, Token(1), Arc::new("client"), Token(2), Arc::new("remote"));
    cache_tun(&mut map, Token(3), Arc::new("guest"), Token(4), Arc::new("remote"));
    let tun = map[&2].clone();
    let steps = sync_ends(&mut map, &tun, &RelayState::Drained { count: 7 });
    assert_eq!(steps, vec![]);
    assert_eq!(map.len(), 4);
    let error = IoError { kind: ErrorKind::WouldBlock, message: "text".to_string() };
    let steps = sync_ends(&mut map, &tun, &RelayState::Failed { error });
    assert_eq!(steps.len(), 5);
    assert_eq!(steps[0], Teardown::Deregister(Side::Source));
    assert_eq!(steps[4], Teardown::Shutdown(Side::Target));
    assert!(!map.contains_key(&1) && !map.contains_key(&2));
    assert!(map.contains_key(&3) && map.contains_key(&4));
}

#[test]
fn giving_up_a_tunnel_leaves_an_opening_alone() {
    let mut map: TunMap<&str> = HashMap::new();
    let mut tokens = TokenCounter::new();
    tokens.next = 2;
    cache_tun(&mut map, Token(0), Arc::new("client"), Token(1), Arc::new("remote"));
    let guest = Arc::new("guest");
    let mut state: Opening = ConnectState::Connecting;
    let event = ConnectEvent::Connect(Ok(Arc::new("r")));
    state = connect(&mut map, &mut tokens, &guest, state, event);
    let tun = map[&0].clone();
    remove_tun_from_cache(&mut map, &tun);
    for _ in 0..2 {
        state = connect(&mut map, &mut tokens, &guest, state, ConnectEvent::Register(Ok(())));
    }
    assert_eq!(state, ConnectState::Connected);
    assert_eq!(map.len(), 2);
    assert_eq!(map[&2].target_token, Token(3));
    assert_eq!(map[&3].target_token, Token(2));
}

#[test]
fn opened_tunnel_is_filed_after_both_registrations() {
    let mut map: TunMap<&str> = HashMap::new();
    let mut tokens = TokenCounter::new();
    tokens.next = 6;
    let srv = Arc::new("client");
    let state: Opening = ConnectState::Connecting;
    let event = ConnectEvent::Connect(Ok(Arc::new("remote")));
    let state = connect(&mut map, &mut tokens, &srv, state, event);
    let registering = |side: Side| -> Opening {
        ConnectState::Registering {
            side,
            stream_cli: Arc::new("remote"),
            token_srv: Token(6),
            token_cli: Token(7),
        }
    };
    assert_eq!(state, registering(Side::Source));
    assert_eq!(tokens.next, 8);
    let state = connect(&mut map, &mut tokens, &srv, state, ConnectEvent::Register(Ok(())));
    assert_eq!(state, registering(Side::Target));
    assert!(map.is_empty());
    let state = connect(&mut map, &mut tokens, &srv, state, ConnectEvent::Register(Ok(())));
    assert_eq!(state, ConnectState::Connected);
    assert_eq!(map[&6].target_token, Token(7));
    assert_eq!(*map[&7].source, "remote");
    assert_eq!(tokens.next, 8);
}

#[test]
fn openings_side_by_side_keep_the_table_paired() {
    let mut map: TunMap<&str> = HashMap::new();
    let mut tokens = TokenCounter::new();
    let clients = vec![Arc::new("c0"), Arc::new("c1")];
    let remotes = vec!["r0", "r1"];
    let mut states: Vec<Opening> = vec![ConnectState::Connecting, ConnectState::Connecting];
    for round in 0..3 {
        for i in 0..2 {
            let event = if round == 0 {
                ConnectEvent::Connect(Ok(Arc::new(remotes[i])))
            } else {
                ConnectEvent::Register(Ok(()))
            };
            let state = states.remove(0);
            states.push(connect(&mut map, &mut tokens, &clients[i], state, event));
        }
    }
    assert_eq!(states, vec![ConnectState::Connected, ConnectState::Connected]);
    assert_eq!(map.len(), 4);
    for (token, tun) in &map {
        assert_eq!(tun.source_token, Token(*token));
        let other = &map[&tun.target_token.0];
        assert_eq!(other.target_token, tun.source_token);
        assert!(Arc::ptr_eq(&other.source, &tun.target));
        assert!(Arc::ptr_eq(&other.target, &tun.source));
    }
    assert_eq!((*map[&0].source, *map[&0].target), ("c0", "r0"));
    assert_eq!((*map[&3].source, *map[&3].target), ("r1", "c1"));
}

#[test]
fn unopened_tunnel_leaves_no_trace() {
    let mut map: TunMap<&str> = HashMap::new();
    let mut tokens = TokenCounter::new();
    let srv = Arc::new("client");
    let state: Opening = ConnectState::Connecting;
    let state = connect(&mut map, &mut tokens, &srv, state, ConnectEvent::Connect(Err(5)));
    assert_eq!(state, ConnectState::Refused { error: 5 });
    assert_eq!(tokens.next, 0);
    for side in vec![Side::Source, Side::Target] {
        let state: Opening = ConnectState::Registering {
            side,
            stream_cli: Arc::new("remote"),
            token_srv: Token(1),
            token_cli: Token(2),
        };
        let state = connect(&mut map, &mut tokens, &srv, state, ConnectEvent::Register(Err(5)));
        assert_eq!(state, ConnectState::Failed { error: 5 });
    }
    assert!(map.is_empty());
}

#[test]
fn registration_gives_back_both_tokens() {
    let none: Option<(Side, Result<(), i32>)> = None;
    let step = register_tun(Token(1), Token(2), none);
    assert_eq!(step, RegisterStep::Register(Side::Source, Token(1)));
    let step = register_tun(Token(1), Token(2), Some((Side::Target, Ok::<(), i32>(()))));
    assert_eq!(step, RegisterStep::Done(Ok((Token(1), Token(2)))));
}
