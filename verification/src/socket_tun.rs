//! Tunnels kept in a table, once for each of their two sockets.

use crate::relay::RelayState;
use crate::token::{token_after, Token, TokenCounter};
use crate::tunnel::{RegisterStep, Side};
use std::collections::HashMap;
use std::sync::Arc;
use vstd::prelude::*;

verus! {

broadcast use vstd::std_specs::hash::group_hash_axioms;

/// A tunnel as seen from one of its sockets: what `source` receives goes to
/// `target`.
#[derive(Debug)]
pub struct SocketTun<S> {
    pub source_token: Token,
    pub target_token: Token,
    pub source: Arc<S>,
    pub target: Arc<S>,
}

impl<S> Clone for SocketTun<S> {
    fn clone(&self) -> (r: SocketTun<S>)
        ensures
            r == *self,
    {
        SocketTun {
            source_token: self.source_token,
            target_token: self.target_token,
            source: self.source.clone(),
            target: self.target.clone(),
        }
    }
}

/// The tunnels by the number of their source's token.
pub type TunMap<S> = HashMap<usize, Arc<SocketTun<S>>>;

/// The tunnel as seen from the socket `source`.
pub open spec fn tun_from<S>(
    source_token: Token,
    source: Arc<S>,
    target_token: Token,
    target: Arc<S>,
) -> SocketTun<S> {
    SocketTun { source_token, target_token, source, target }
}

/// The table after a tunnel is filed under the tokens of both of its sockets.
pub open spec fn with_tun<S>(
    tuns: Map<usize, Arc<SocketTun<S>>>,
    token_srv: Token,
    stream_srv: Arc<S>,
    token_cli: Token,
    stream_cli: Arc<S>,
) -> Map<usize, Arc<SocketTun<S>>> {
    tuns.insert(
        token_srv.0,
        Arc::new(tun_from(token_srv, stream_srv, token_cli, stream_cli)),
    ).insert(token_cli.0, Arc::new(tun_from(token_cli, stream_cli, token_srv, stream_srv)))
}

/// The table after both views of `tun` are taken out.
pub open spec fn without_tun<S>(
    tuns: Map<usize, Arc<SocketTun<S>>>,
    tun: SocketTun<S>,
) -> Map<usize, Arc<SocketTun<S>>> {
    tuns.remove(tun.source_token.0).remove(tun.target_token.0)
}

/// Files a tunnel under the tokens of both of its sockets, each as the source.
pub fn cache_tun<S>(
    tun_map: &mut TunMap<S>,
    token_srv: Token,
    stream_srv: Arc<S>,
    token_cli: Token,
    stream_cli: Arc<S>,
)
    ensures
        final(tun_map)@ == with_tun(
            old(tun_map)@,
            token_srv,
            stream_srv,
            token_cli,
            stream_cli,
        ),
{
    let tun_srv = SocketTun {
        source_token: token_srv,
        target_token: token_cli,
        source: stream_srv.clone(),
        target: stream_cli.clone(),
    };
    let tun_cli = SocketTun {
        source_token: token_cli,
        target_token: token_srv,
        source: stream_cli,
        target: stream_srv,
    };
    tun_map.insert(token_srv.0, Arc::new(tun_srv));
    tun_map.insert(token_cli.0, Arc::new(tun_cli));
}

/// Takes both views of a tunnel out of the table.
pub fn remove_tun_from_cache<S>(tun_map: &mut TunMap<S>, tun_any: &SocketTun<S>)
    ensures
        final(tun_map)@ == without_tun(old(tun_map)@, *tun_any),
{
    tun_map.remove(&tun_any.source_token.0);
    tun_map.remove(&tun_any.target_token.0);
}

/// Where the opening of a tunnel for the client behind `stream_srv` stands.
#[derive(Debug, PartialEq, Eq)]
pub enum ConnectState<S, E> {
    /// Connect to the remote.
    Connecting,
    /// Register the client's socket (`Source`) under `token_srv` or the
    /// remote's (`Target`) under `token_cli`, for reading.
    Registering { side: Side, stream_cli: Arc<S>, token_srv: Token, token_cli: Token },
    /// The remote cannot be reached: shut the client's connection down both
    /// ways. The opening has failed.
    Refused { error: E },
    /// The tunnel stands and is in the table.
    Connected,
    /// The opening has failed.
    Failed { error: E },
}

/// What came of the operation that the opening of a tunnel asked for.
#[derive(Debug)]
pub enum ConnectEvent<S, E> {
    /// The outcome of connecting to the remote.
    Connect(Result<Arc<S>, E>),
    /// The outcome of the registration.
    Register(Result<(), E>),
}

/// `event` is the outcome of the operation that is due in `state`.
pub open spec fn connect_answers<S, E>(
    state: ConnectState<S, E>,
    event: ConnectEvent<S, E>,
) -> bool {
    match (state, event) {
        (ConnectState::Connecting, ConnectEvent::Connect(_)) => true,
        (ConnectState::Registering { .. }, ConnectEvent::Register(_)) => true,
        _ => false,
    }
}

/// Where the opening stands after `event`, the next two tokens being number
/// `next_token` and the one after it.
pub open spec fn connect_next<S, E>(
    next_token: usize,
    state: ConnectState<S, E>,
    event: ConnectEvent<S, E>,
) -> ConnectState<S, E> {
    match (state, event) {
        (ConnectState::Connecting, ConnectEvent::Connect(Ok(stream_cli))) => {
            ConnectState::Registering {
                side: Side::Source,
                stream_cli,
                token_srv: Token(next_token),
                token_cli: Token(token_after(next_token)),
            }
        },
        (ConnectState::Connecting, ConnectEvent::Connect(Err(error))) => ConnectState::Refused {
            error,
        },
        (
            ConnectState::Registering { side: Side::Source, stream_cli, token_srv, token_cli },
            ConnectEvent::Register(Ok(_)),
        ) => ConnectState::Registering { side: Side::Target, stream_cli, token_srv, token_cli },
        (
            ConnectState::Registering { side: Side::Target, .. },
            ConnectEvent::Register(Ok(_)),
        ) => ConnectState::Connected,
        (ConnectState::Registering { .. }, ConnectEvent::Register(Err(error))) => {
            ConnectState::Failed { error }
        },
        _ => state,
    }
}

/// The number of the next token after `event`: connecting draws two.
pub open spec fn tokens_after_connect<S, E>(
    next_token: usize,
    state: ConnectState<S, E>,
    event: ConnectEvent<S, E>,
) -> usize {
    match (state, event) {
        (ConnectState::Connecting, ConnectEvent::Connect(Ok(_))) => token_after(
            token_after(next_token),
        ),
        _ => next_token,
    }
}

/// The table after `event`: the last registration files the tunnel.
pub open spec fn table_after_connect<S, E>(
    tuns: Map<usize, Arc<SocketTun<S>>>,
    stream_srv: Arc<S>,
    state: ConnectState<S, E>,
    event: ConnectEvent<S, E>,
) -> Map<usize, Arc<SocketTun<S>>> {
    match (state, event) {
        (
            ConnectState::Registering { side: Side::Target, stream_cli, token_srv, token_cli },
            ConnectEvent::Register(Ok(_)),
        ) => with_tun(tuns, token_srv, stream_srv, token_cli, stream_cli),
        _ => tuns,
    }
}

/// Registers the client's socket, then the remote's, under tokens of their own,
/// and stops at the first failure. `previous` is the outcome of the last
/// registration, if any.
pub fn register_tun<E>(
    token_srv: Token,
    token_client: Token,
    previous: Option<(Side, Result<(), E>)>,
) -> (r: RegisterStep<(Token, Token), E>)
    ensures
        r == match previous {
            None => RegisterStep::Register(Side::Source, token_srv),
            Some((_, Err(e))) => RegisterStep::Done(Err(e)),
            Some((Side::Source, Ok(_))) => RegisterStep::Register(Side::Target, token_client),
            Some((Side::Target, Ok(_))) => RegisterStep::Done(Ok((token_srv, token_client))),
        },
{
    match previous {
        None => RegisterStep::Register(Side::Source, token_srv),
        Some((_, Err(e))) => RegisterStep::Done(Err(e)),
        Some((Side::Source, Ok(_))) => RegisterStep::Register(Side::Target, token_client),
        Some((Side::Target, Ok(_))) => RegisterStep::Done(Ok((token_srv, token_client))),
    }
}

/// One step of opening a tunnel for the client behind `stream_srv`: connect to
/// the remote, register both sockets, file the tunnel in the table.
pub fn connect<S, E>(
    tun_map: &mut TunMap<S>,
    tokens: &mut TokenCounter,
    stream_srv: &Arc<S>,
    state: ConnectState<S, E>,
    event: ConnectEvent<S, E>,
) -> (next: ConnectState<S, E>)
    requires
        connect_answers(state, event),
    ensures
        next == connect_next(old(tokens).next, state, event),
        final(tokens).next == tokens_after_connect(old(tokens).next, state, event),
        final(tun_map)@ == table_after_connect(old(tun_map)@, *stream_srv, state, event),
{
    match (state, event) {
        (ConnectState::Connecting, ConnectEvent::Connect(Ok(stream_cli))) => {
            let token_srv = tokens.create_token();
            let token_cli = tokens.create_token();
            ConnectState::Registering { side: Side::Source, stream_cli, token_srv, token_cli }
        },
        (ConnectState::Connecting, ConnectEvent::Connect(Err(error))) => ConnectState::Refused {
            error,
        },
        (
            ConnectState::Registering { side, stream_cli, token_srv, token_cli },
            ConnectEvent::Register(result),
        ) => match register_tun(token_srv, token_cli, Some((side, result))) {
            RegisterStep::Register(side, _) => ConnectState::Registering {
                side,
                stream_cli,
                token_srv,
                token_cli,
            },
            RegisterStep::Done(Ok((token_srv, token_cli))) => {
                cache_tun(tun_map, token_srv, stream_srv.clone(), token_cli, stream_cli);
                ConnectState::Connected
            },
            RegisterStep::Done(Err(error)) => ConnectState::Failed { error },
        },
        // No event but the outcome of the operation that is due gets here.
        (state, _) => state,
    }
}

/// One thing to do when a tunnel is given up. What comes of it does not matter.
#[derive(Clone, Copy, Debug, PartialEq, Eq, Structural)]
pub enum Teardown {
    /// Deregister this socket.
    Deregister(Side),
    /// Report the failure, with the addresses of both peers.
    Report,
    /// Shut this connection down both ways.
    Shutdown(Side),
}

/// The steps that take a tunnel's sockets from the poller, in their order.
pub fn deregister_tun() -> (r: Vec<Teardown>)
    ensures
        r@ == seq![Teardown::Deregister(Side::Source), Teardown::Deregister(Side::Target)],
{
    vec![Teardown::Deregister(Side::Source), Teardown::Deregister(Side::Target)]
}

/// The steps that report a failed tunnel and close it, in their order.
pub fn close_tun_print_err() -> (r: Vec<Teardown>)
    ensures
        r@ == seq![
            Teardown::Report,
            Teardown::Shutdown(Side::Source),
            Teardown::Shutdown(Side::Target),
        ],
{
    vec![Teardown::Report, Teardown::Shutdown(Side::Source), Teardown::Shutdown(Side::Target)]
}

/// Everything to do with the sockets of a tunnel that is given up, in order.
pub open spec fn teardown() -> Seq<Teardown> {
    seq![
        Teardown::Deregister(Side::Source),
        Teardown::Deregister(Side::Target),
        Teardown::Report,
        Teardown::Shutdown(Side::Source),
        Teardown::Shutdown(Side::Target),
    ]
}

/// Gives up a tunnel that failed: it leaves the table at once, and the steps
/// returned are due in their order.
pub fn when_error<S>(tun_map: &mut TunMap<S>, tun: &SocketTun<S>) -> (r: Vec<Teardown>)
    ensures
        final(tun_map)@ == without_tun(old(tun_map)@, *tun),
        r@ == teardown(),
{
    remove_tun_from_cache(tun_map, tun);
    let mut steps = deregister_tun();
    let mut closing = close_tun_print_err();
    steps.append(&mut closing);
    steps
}

/// The table after a relay through `tun` has come to `end`.
pub open spec fn table_after_sync<S>(
    tuns: Map<usize, Arc<SocketTun<S>>>,
    tun: SocketTun<S>,
    end: RelayState,
) -> Map<usize, Arc<SocketTun<S>>> {
    if end is Failed {
        without_tun(tuns, tun)
    } else {
        tuns
    }
}

/// What is to be done after a relay has come to `end`.
pub open spec fn steps_after_sync(end: RelayState) -> Seq<Teardown> {
    if end is Failed {
        teardown()
    } else {
        Seq::empty()
    }
}

/// Ends the copying of `sync_data` through a tunnel: one that failed is given
/// up, one that is drained stays as it is.
pub fn sync_ends<S>(tun_map: &mut TunMap<S>, tun: &SocketTun<S>, end: &RelayState) -> (r: Vec<
    Teardown,
>)
    requires
        end is Drained || end is Failed,
    ensures
        final(tun_map)@ == table_after_sync(old(tun_map)@, *tun, *end),
        r@ == steps_after_sync(*end),
{
    match end {
        RelayState::Failed { .. } => when_error(tun_map, tun),
        _ => Vec::new(),
    }
}

/// Every tunnel is in the table under both of its tokens, each view the other
/// one turned round.
pub open spec fn paired<S>(tuns: Map<usize, Arc<SocketTun<S>>>) -> bool {
    forall|k: usize| #[trigger]
        tuns.contains_key(k) ==> {
            let tun = tuns[k];
            &&& tun.source_token.0 == k
            &&& tun.target_token.0 != k
            &&& tuns.contains_key(tun.target_token.0)
            &&& *tuns[tun.target_token.0] == tun_from(
                tun.target_token,
                tun.target,
                tun.source_token,
                tun.source,
            )
        }
}

/// Filing a tunnel under two fresh tokens keeps the table paired, and leaves
/// every other tunnel where it was.
pub proof fn caching_keeps_pairs<S>(
    tuns: Map<usize, Arc<SocketTun<S>>>,
    token_srv: Token,
    stream_srv: Arc<S>,
    token_cli: Token,
    stream_cli: Arc<S>,
)
    requires
        paired(tuns),
        token_srv != token_cli,
        !tuns.contains_key(token_srv.0),
        !tuns.contains_key(token_cli.0),
    ensures
        paired(with_tun(tuns, token_srv, stream_srv, token_cli, stream_cli)),
        tuns.submap_of(with_tun(tuns, token_srv, stream_srv, token_cli, stream_cli)),
{
}

/// The table is paired, its tokens were drawn before `next_token`, and so were
/// those that are waiting to be filed: the tokens in `reserved`, and the two of
/// the opening in `state`. No token is waiting twice.
pub open spec fn orderly<S, E>(
    tuns: Map<usize, Arc<SocketTun<S>>>,
    next_token: usize,
    reserved: Set<usize>,
    state: ConnectState<S, E>,
) -> bool {
    &&& paired(tuns)
    &&& forall|k: usize| #[trigger] tuns.contains_key(k) ==> k < next_token
    &&& forall|k: usize| #[trigger]
        reserved.contains(k) ==> k < next_token && !tuns.contains_key(k)
    &&& state matches ConnectState::Registering { token_srv, token_cli, .. } ==> {
        &&& token_srv != token_cli
        &&& token_srv.0 < next_token && token_cli.0 < next_token
        &&& !tuns.contains_key(token_srv.0) && !tuns.contains_key(token_cli.0)
        &&& !reserved.contains(token_srv.0) && !reserved.contains(token_cli.0)
    }
}

/// However many tunnels are being opened at once, a step of one opening keeps
/// the table paired and every waiting token free. This holds until the tokens
/// run out. `reserved` are the tokens of the other openings.
pub proof fn opening_keeps_order<S, E>(
    tuns: Map<usize, Arc<SocketTun<S>>>,
    next_token: usize,
    reserved: Set<usize>,
    stream_srv: Arc<S>,
    state: ConnectState<S, E>,
    event: ConnectEvent<S, E>,
)
    requires
        orderly(tuns, next_token, reserved, state),
        connect_answers(state, event),
        next_token + 2 <= usize::MAX,
    ensures
        orderly(
            table_after_connect(tuns, stream_srv, state, event),
            tokens_after_connect(next_token, state, event),
            reserved,
            connect_next(next_token, state, event),
        ),
        tuns.submap_of(table_after_connect(tuns, stream_srv, state, event)),
{
    match state {
        ConnectState::Registering { stream_cli, token_srv, token_cli, .. } => {
            caching_keeps_pairs(tuns, token_srv, stream_srv, token_cli, stream_cli);
        },
        _ => {},
    }
}

/// Giving up a tunnel of the table disturbs no opening: the table stays paired
/// and every waiting token free.
pub proof fn removal_keeps_order<S, E>(
    tuns: Map<usize, Arc<SocketTun<S>>>,
    next_token: usize,
    reserved: Set<usize>,
    state: ConnectState<S, E>,
    k: usize,
)
    requires
        orderly(tuns, next_token, reserved, state),
        tuns.contains_key(k),
    ensures
        orderly(without_tun(tuns, *tuns[k]), next_token, reserved, state),
{
}

/// Tokens drawn for other purposes disturb no opening, until they run out.
pub proof fn drawing_keeps_order<S, E>(
    tuns: Map<usize, Arc<SocketTun<S>>>,
    next_token: usize,
    later: usize,
    reserved: Set<usize>,
    state: ConnectState<S, E>,
)
    requires
        orderly(tuns, next_token, reserved, state),
        next_token <= later,
    ensures
        orderly(tuns, later, reserved, state),
{
}

/// A tunnel that could not be opened leaves no trace in the table, and one that
/// was is found under both of its tokens.
pub proof fn only_open_tunnels_are_filed<S, E>(
    tuns: Map<usize, Arc<SocketTun<S>>>,
    next_token: usize,
    stream_srv: Arc<S>,
    state: ConnectState<S, E>,
    event: ConnectEvent<S, E>,
)
    requires
        connect_answers(state, event),
    ensures
        match connect_next(next_token, state, event) {
            ConnectState::Connected => state matches ConnectState::Registering {
                stream_cli,
                token_srv,
                token_cli,
                ..
            } && table_after_connect(tuns, stream_srv, state, event) == with_tun(
                tuns,
                token_srv,
                stream_srv,
                token_cli,
                stream_cli,
            ),
            _ => table_after_connect(tuns, stream_srv, state, event) == tuns,
        },
{
}

/// Taking out a tunnel found in a paired table keeps it paired, and leaves
/// every tunnel that has neither of the two tokens where it was.
pub proof fn removal_keeps_pairs<S>(tuns: Map<usize, Arc<SocketTun<S>>>, k: usize)
    requires
        paired(tuns),
        tuns.contains_key(k),
    ensures
        paired(without_tun(tuns, *tuns[k])),
        !without_tun(tuns, *tuns[k]).contains_key(k),
        !without_tun(tuns, *tuns[k]).contains_key(tuns[k].target_token.0),
        forall|other: usize|
            other != k && other != tuns[k].target_token.0 && tuns.contains_key(other)
                ==> without_tun(tuns, *tuns[k]).contains_key(other) && without_tun(tuns, *tuns[k])[other]
                == tuns[other],
{
}

/// Taking out either view of a tunnel undoes its filing under fresh tokens.
pub proof fn removal_undoes_caching<S>(
    tuns: Map<usize, Arc<SocketTun<S>>>,
    token_srv: Token,
    stream_srv: Arc<S>,
    token_cli: Token,
    stream_cli: Arc<S>,
)
    requires
        !tuns.contains_key(token_srv.0),
        !tuns.contains_key(token_cli.0),
    ensures
        without_tun(
            with_tun(tuns, token_srv, stream_srv, token_cli, stream_cli),
            tun_from(token_srv, stream_srv, token_cli, stream_cli),
        ) == tuns,
        without_tun(
            with_tun(tuns, token_srv, stream_srv, token_cli, stream_cli),
            tun_from(token_cli, stream_cli, token_srv, stream_srv),
        ) == tuns,
{
}

} // verus!
