use portfwd::addr::SocketAddr;
use portfwd::cmd_line::{join_pair, parse_socket_addrs, split_pair, InputArgs};

/// Reads `a.b.c.d:port`.
fn parse(text: &str) -> Result<SocketAddr, String> {
    let invalid = || "invalid socket address syntax".to_string();
    let (ip, port) = text.split_once(':').ok_or_else(invalid)?;
    let mut octets: u32 = 0;
    for part in ip.split('.') {
        let part: u8 = part.parse().map_err(|_| invalid())?;
        octets = octets << 8 | part as u32;
    }
    Ok(SocketAddr::V4 { octets, port: port.parse().map_err(|_| invalid())? })
}

const LOCAL: SocketAddr = SocketAddr::V4 { octets: 0x7f00_0001, port: 8080 };
const REMOTE: SocketAddr = SocketAddr::V4 { octets: 0xc0a8_0064, port: 80 };

#[test]
fn documented_example_is_read() {
    let first = parse_socket_addrs("127.0.0.1:8080,192.168.0.100:80", parse);
    assert_eq!(first, Ok((LOCAL, REMOTE)));
    let second = parse_socket_addrs("0.0.0.0:1080,192.168.0.100:1080", parse);
    let any = SocketAddr::V4 { octets: 0, port: 1080 };
    let remote = SocketAddr::V4 { octets: 0xc0a8_0064, port: 1080 };
    assert_eq!(second, Ok((any, remote)));
    let args = InputArgs { local_remote: vec![first.unwrap(), second.unwrap()] };
    assert_eq!(args.local_remote.len(), 2);
}

#[test]
fn addresses_are_passed_on_as_parsed() {
    let v6 = SocketAddr::V6 { segments: 1, port: 53, flowinfo: 2, scope_id: 3 };
    let named = |text: &str| -> Result<SocketAddr, String> {
        if text == "[::1]:53" {
            Ok(v6)
        } else {
            parse(text)
        }
    };
    assert_eq!(parse_socket_addrs("[::1]:53,127.0.0.1:8080", named), Ok((v6, LOCAL)));
}

#[test]
fn missing_comma_is_refused() {
    let message = "must be local addr, remote addr pair".to_string();
    assert_eq!(parse_socket_addrs("127.0.0.1:8080", parse), Err(message.clone()));
    assert_eq!(parse_socket_addrs("", parse), Err(message));
}

#[test]
fn bad_address_is_refused_with_its_message() {
    let message = "invalid socket address syntax".to_string();
    assert_eq!(parse_socket_addrs("x,127.0.0.1:8080", parse), Err(message.clone()));
    assert_eq!(parse_socket_addrs("127.0.0.1:8080,x", parse), Err(message.clone()));
    assert_eq!(parse_socket_addrs("127.0.0.1:8080,", parse), Err(message));
}

#[test]
fn local_failure_comes_first() {
    let named = |text: &str| -> Result<SocketAddr, String> { Err(format!("bad {}", text)) };
    assert_eq!(parse_socket_addrs("a,b", named), Err("bad a".to_string()));
    let local_only = |text: &str| -> Result<SocketAddr, String> {
        assert_eq!(text, "a");
        Err("bad".to_string())
    };
    assert_eq!(parse_socket_addrs("a,b", local_only), Err("bad".to_string()));
    assert_eq!(join_pair(Err("l".to_string()), Err("r".to_string())), Err("l".to_string()));
    assert_eq!(join_pair(Ok(LOCAL), Err("r".to_string())), Err("r".to_string()));
    assert_eq!(join_pair(Ok(LOCAL), Ok(REMOTE)), Ok((LOCAL, REMOTE)));
}

#[test]
fn surplus_after_second_comma_is_ignored() {
    let pair = parse_socket_addrs("127.0.0.1:8080,192.168.0.100:80,nonsense,,", parse);
    assert_eq!(pair, Ok((LOCAL, REMOTE)));
    let bad = parse_socket_addrs("127.0.0.1:8080,x", parse);
    assert_eq!(parse_socket_addrs("127.0.0.1:8080,x,192.168.0.100:80", parse), bad);
}

#[test]
fn swapped_pair_is_read_swapped() {
    let pair = parse_socket_addrs("192.168.0.100:80,127.0.0.1:8080", parse);
    assert_eq!(pair, Ok((REMOTE, LOCAL)));
}

#[test]
fn pieces_may_be_empty_or_not_ascii() {
    assert_eq!(split_pair("plain"), None);
    assert_eq!(split_pair(","), Some(("", "")));
    assert_eq!(split_pair("a,"), Some(("a", "")));
    assert_eq!(split_pair(",b"), Some(("", "b")));
    assert_eq!(split_pair("h\u{e9}llo,w\u{f6}rld,x"), Some(("h\u{e9}llo", "w\u{f6}rld")));
}
