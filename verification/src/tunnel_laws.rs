//! What the operations on tunnels promise of their results.

use crate::relay::RelayState;
use crate::socket_tun::{
    cache_tun, close_tun_print_err, connect, connect_answers, deregister_tun, register_tun,
    remove_tun_from_cache, sync_ends, when_error, ConnectEvent, ConnectState, SocketTun, Teardown,
    TunMap,
};
use crate::token::{Token, TokenCounter};
use crate::tunnel::{DeregisterStep, RegisterStep, Side, TcpTun};
use std::sync::Arc;
use vstd::prelude::*;

verus! {

/// A tunnel is established exactly when it has a connection to the remote.
pub proof fn established_means_connected<S>(tun: TcpTun<S>, r: bool)
    requires
        call_ensures(TcpTun::<S>::is_established, (&tun,), r),
    ensures
        r <==> exists|stream: S| tun.target == Some(stream),
{
    if tun.target is Some {
        assert(tun.target == Some(tun.target->Some_0));
    }
}

/// A connection to the remote is taken in as it is, and a failure to connect is
/// passed on and changes nothing. Nothing else of the tunnel ever changes.
pub proof fn establishing_takes_the_connection<S, E>(
    tun: &mut TcpTun<S>,
    connected: Result<S, E>,
    r: Result<bool, E>,
)
    requires
        call_ensures(TcpTun::<S>::establish::<E>, (tun, connected), r),
    ensures
        connected matches Ok(stream) ==> r == Ok::<bool, E>(true) && final(tun).target == Some(
            stream,
        ),
        connected matches Err(e) ==> r == Err::<bool, E>(e) && final(tun).target == old(tun).target,
        final(tun).source == old(tun).source,
        final(tun).source_token == old(tun).source_token,
        final(tun).target_token == old(tun).target_token,
        final(tun).source_addr == old(tun).source_addr,
        final(tun).target_addr == old(tun).target_addr,
{
}

/// Data goes from the client to the remote on the client's token and from the
/// remote to the client on any other, so never from a socket to itself.
pub proof fn data_goes_to_the_other_end<S>(
    tun: &mut TcpTun<S>,
    from_token: Token,
    from: &mut S,
    to: &mut S,
)
    requires
        old(tun).target is Some,
        call_ensures(TcpTun::<S>::ends, (tun, from_token), (from, to)),
    ensures
        from_token == old(tun).source_token ==> *old(from) == old(tun).source && Some(*old(to))
            == old(tun).target && final(tun).source == *final(from) && final(tun).target == Some(
            *final(to),
        ),
        from_token != old(tun).source_token ==> *old(to) == old(tun).source && Some(*old(from))
            == old(tun).target && final(tun).source == *final(to) && final(tun).target == Some(
            *final(from),
        ),
        final(tun).source_token == old(tun).source_token,
        final(tun).target_token == old(tun).target_token,
        final(tun).source_addr == old(tun).source_addr,
        final(tun).target_addr == old(tun).target_addr,
{
}

/// The registration of a tunnel succeeds only after the client's socket was
/// registered under its token and then the remote's under its own. The first
/// failure ends it.
pub proof fn both_sockets_are_registered<S, E>(
    tun: TcpTun<S>,
    e: E,
    side: Side,
    begin: RegisterStep<bool, E>,
    after_source: RegisterStep<bool, E>,
    after_target: RegisterStep<bool, E>,
    after_failure: RegisterStep<bool, E>,
)
    requires
        call_ensures(TcpTun::<S>::register::<E>, (&tun, None), begin),
        call_ensures(TcpTun::<S>::register::<E>, (&tun, Some((Side::Source, Ok(())))), after_source),
        call_ensures(TcpTun::<S>::register::<E>, (&tun, Some((Side::Target, Ok(())))), after_target),
        call_ensures(TcpTun::<S>::register::<E>, (&tun, Some((side, Err(e)))), after_failure),
    ensures
        begin matches RegisterStep::Register(first, token) && first == Side::Source && token
            == tun.source_token,
        after_source matches RegisterStep::Register(second, token) && second == Side::Target
            && token == tun.target_token,
        after_target matches RegisterStep::Done(Ok(done)) && done,
        after_failure matches RegisterStep::Done(Err(failure)) && failure == e,
        call_requires(TcpTun::<S>::register::<E>, (&tun, None)),
        call_requires(TcpTun::<S>::register::<E>, (&tun, Some((side, Err(e))))),
        tun.target is Some ==> call_requires(
            TcpTun::<S>::register::<E>,
            (&tun, Some((side, Ok(())))),
        ),
{
}

/// The deregistration of a tunnel succeeds only after the client's socket was
/// deregistered and then the remote's. The first failure ends it.
pub proof fn both_sockets_are_deregistered<S, E>(
    tun: TcpTun<S>,
    e: E,
    side: Side,
    begin: DeregisterStep<E>,
    after_source: DeregisterStep<E>,
    after_target: DeregisterStep<E>,
    after_failure: DeregisterStep<E>,
)
    requires
        call_ensures(TcpTun::<S>::deregister::<E>, (&tun, None), begin),
        call_ensures(
            TcpTun::<S>::deregister::<E>,
            (&tun, Some((Side::Source, Ok(())))),
            after_source,
        ),
        call_ensures(
            TcpTun::<S>::deregister::<E>,
            (&tun, Some((Side::Target, Ok(())))),
            after_target,
        ),
        call_ensures(TcpTun::<S>::deregister::<E>, (&tun, Some((side, Err(e)))), after_failure),
    ensures
        begin matches DeregisterStep::Deregister(first) && first == Side::Source,
        after_source matches DeregisterStep::Deregister(second) && second == Side::Target,
        after_target matches DeregisterStep::Done(Ok(done)) && done,
        after_failure matches DeregisterStep::Done(Err(failure)) && failure == e,
        call_requires(TcpTun::<S>::deregister::<E>, (&tun, None)),
        call_requires(TcpTun::<S>::deregister::<E>, (&tun, Some((side, Err(e))))),
        tun.target is Some ==> call_requires(
            TcpTun::<S>::deregister::<E>,
            (&tun, Some((side, Ok(())))),
        ),
{
}

/// The registration of a tunnel that is being opened asks for the client's
/// socket under the first token, then for the remote's under the second, and
/// gives both tokens back. The first failure ends it.
pub proof fn opening_registers_both_sockets<E>(
    token_srv: Token,
    token_cli: Token,
    e: E,
    side: Side,
    begin: RegisterStep<(Token, Token), E>,
    after_source: RegisterStep<(Token, Token), E>,
    after_target: RegisterStep<(Token, Token), E>,
    after_failure: RegisterStep<(Token, Token), E>,
)
    requires
        call_ensures(register_tun::<E>, (token_srv, token_cli, None), begin),
        call_ensures(
            register_tun::<E>,
            (token_srv, token_cli, Some((Side::Source, Ok(())))),
            after_source,
        ),
        call_ensures(
            register_tun::<E>,
            (token_srv, token_cli, Some((Side::Target, Ok(())))),
            after_target,
        ),
        call_ensures(register_tun::<E>, (token_srv, token_cli, Some((side, Err(e)))), after_failure),
    ensures
        begin matches RegisterStep::Register(first, token) && first == Side::Source && token
            == token_srv,
        after_source matches RegisterStep::Register(second, token) && second == Side::Target
            && token == token_cli,
        after_target matches RegisterStep::Done(Ok(tokens)) && tokens.0 == token_srv && tokens.1
            == token_cli,
        after_failure matches RegisterStep::Done(Err(failure)) && failure == e,
{
}

/// The opening of a tunnel for the client behind `stream_srv` may go from `state`
/// to `next` on `event`.
pub open spec fn opening_goes<S, E>(
    stream_srv: Arc<S>,
    state: ConnectState<S, E>,
    event: ConnectEvent<S, E>,
    next: ConnectState<S, E>,
) -> bool {
    exists|tun_map: &mut TunMap<S>, tokens: &mut TokenCounter|
        call_ensures(connect::<S, E>, (tun_map, tokens, &stream_srv, state, event), next)
}

/// `states` and `events` are a course that the opening of a tunnel for the client
/// behind `stream_srv` may take from its beginning.
pub open spec fn is_opening<S, E>(
    stream_srv: Arc<S>,
    states: Seq<ConnectState<S, E>>,
    events: Seq<ConnectEvent<S, E>>,
) -> bool {
    &&& states.len() == events.len() + 1
    &&& states[0] is Connecting
    &&& forall|i: int|
        0 <= i < events.len() ==> connect_answers(#[trigger] states[i], events[i]) && opening_goes(
            stream_srv,
            states[i],
            events[i],
            states[i + 1],
        )
}

/// A tunnel is open only after the remote was connected to, the client's socket
/// was registered and then the remote's, all of it with success, and both
/// sockets under tokens that stayed the same and differ.
pub proof fn open_tunnel_has_both_sockets_registered<S, E>(
    stream_srv: Arc<S>,
    states: Seq<ConnectState<S, E>>,
    events: Seq<ConnectEvent<S, E>>,
)
    requires
        is_opening(stream_srv, states, events),
        states.last() is Connected,
    ensures
        events.len() == 3,
        events[0] matches ConnectEvent::Connect(Ok(stream)) && {
            &&& states[1] matches ConnectState::Registering { side, stream_cli, token_srv, token_cli }
            &&& side == Side::Source
            &&& stream_cli == stream
            &&& token_srv != token_cli
            &&& events[1] matches ConnectEvent::Register(Ok(_))
            &&& states[2] == (ConnectState::<S, E>::Registering {
                side: Side::Target,
                stream_cli,
                token_srv,
                token_cli,
            })
            &&& events[2] matches ConnectEvent::Register(Ok(_))
        },
{
    let n = events.len();
    if n > 0 {
        lemma_opening_step(stream_srv, states[0], events[0], states[1]);
    }
    if n > 1 {
        lemma_opening_step(stream_srv, states[1], events[1], states[2]);
    }
    if n > 2 {
        lemma_opening_step(stream_srv, states[2], events[2], states[3]);
    }
    if n > 3 {
        assert(connect_answers(states[3], events[3]));
    }
}

/// An opening in which nothing fails comes to a tunnel in three steps.
pub proof fn opening_succeeds_unless_something_fails<S, E>(
    stream_srv: Arc<S>,
    states: Seq<ConnectState<S, E>>,
    events: Seq<ConnectEvent<S, E>>,
)
    requires
        is_opening(stream_srv, states, events),
        forall|i: int|
            0 <= i < events.len() ==> match #[trigger] events[i] {
                ConnectEvent::Connect(result) => result is Ok,
                ConnectEvent::Register(result) => result is Ok,
            },
    ensures
        events.len() <= 3,
        events.len() == 3 <==> states.last() is Connected,
        events.len() < 3 ==> states.last() is Connecting || states.last() is Registering,
{
    let n = events.len();
    if n > 0 {
        lemma_opening_step(stream_srv, states[0], events[0], states[1]);
    }
    if n > 1 {
        lemma_opening_step(stream_srv, states[1], events[1], states[2]);
    }
    if n > 2 {
        lemma_opening_step(stream_srv, states[2], events[2], states[3]);
    }
    if n > 3 {
        assert(connect_answers(states[3], events[3]));
    }
}

/// The first failure ends an opening with that very failure: as refused if the
/// remote could not be reached, so that the client is shut down only then.
pub proof fn opening_ends_at_the_first_failure<S, E>(
    stream_srv: Arc<S>,
    states: Seq<ConnectState<S, E>>,
    events: Seq<ConnectEvent<S, E>>,
    k: int,
)
    requires
        is_opening(stream_srv, states, events),
        0 <= k < events.len(),
    ensures
        events[k] matches ConnectEvent::Connect(Err(e)) ==> states[k + 1] == (ConnectState::<
            S,
            E,
        >::Refused { error: e }) && events.len() == k + 1,
        events[k] matches ConnectEvent::Register(Err(e)) ==> states[k + 1] == (ConnectState::<
            S,
            E,
        >::Failed { error: e }) && events.len() == k + 1,
        states[k + 1] matches ConnectState::Refused { error } ==> events[k] == ConnectEvent::<
            S,
            E,
        >::Connect(Err(error)),
        states[k + 1] matches ConnectState::Failed { error } ==> events[k] == ConnectEvent::<
            S,
            E,
        >::Register(Err(error)),
{
    assert(connect_answers(states[k], events[k]));
    if k + 1 < events.len() {
        assert(connect_answers(states[k + 1], events[k + 1]));
    }
}

/// What one step of an opening makes of its event.
proof fn lemma_opening_step<S, E>(
    stream_srv: Arc<S>,
    state: ConnectState<S, E>,
    event: ConnectEvent<S, E>,
    next: ConnectState<S, E>,
)
    requires
        connect_answers(state, event),
        opening_goes(stream_srv, state, event, next),
    ensures
        exists|next_token: usize|
            next == #[trigger] crate::socket_tun::connect_next(next_token, state, event),
{
    let (tun_map, tokens) = choose|tun_map: &mut TunMap<S>, tokens: &mut TokenCounter|
        call_ensures(connect::<S, E>, (tun_map, tokens, &stream_srv, state, event), next);
    assert(next == crate::socket_tun::connect_next(tokens.next, state, event));
}

/// `connect` takes every outcome of the operation that is due.
pub proof fn opening_takes_every_outcome<S, E>(
    tun_map: &mut TunMap<S>,
    tokens: &mut TokenCounter,
    stream_srv: Arc<S>,
    connected: Result<Arc<S>, E>,
    registered: Result<(), E>,
    side: Side,
    stream_cli: Arc<S>,
    token_srv: Token,
    token_cli: Token,
)
    ensures
        call_requires(
            connect::<S, E>,
            (
                tun_map,
                tokens,
                &stream_srv,
                ConnectState::Connecting,
                ConnectEvent::Connect(connected),
            ),
        ),
        call_requires(
            connect::<S, E>,
            (
                tun_map,
                tokens,
                &stream_srv,
                ConnectState::Registering { side, stream_cli, token_srv, token_cli },
                ConnectEvent::Register(registered),
            ),
        ),
{
}

/// Connecting to the remote draws the next two tokens, the first for the client's
/// socket, which is registered first. The table waits.
pub proof fn connecting_draws_two_tokens<S, E>(
    tun_map: &mut TunMap<S>,
    tokens: &mut TokenCounter,
    stream_srv: Arc<S>,
    stream: Arc<S>,
    next: ConnectState<S, E>,
)
    requires
        call_ensures(
            connect::<S, E>,
            (
                tun_map,
                tokens,
                &stream_srv,
                ConnectState::Connecting,
                ConnectEvent::Connect(Ok(stream)),
            ),
            next,
        ),
    ensures
        next matches ConnectState::Registering { side, stream_cli, token_srv, token_cli } && {
            &&& side == Side::Source
            &&& stream_cli == stream
            &&& token_srv.0 == old(tokens).next
            &&& token_cli != token_srv
            &&& old(tokens).next < usize::MAX ==> token_cli.0 == old(tokens).next + 1
            &&& old(tokens).next == usize::MAX ==> token_cli.0 == 0
            &&& token_cli.0 < usize::MAX ==> final(tokens).next == token_cli.0 + 1
            &&& token_cli.0 == usize::MAX ==> final(tokens).next == 0
        },
        final(tun_map)@ == old(tun_map)@,
{
}

/// Every other step of an opening draws no token, and only the one that makes
/// the tunnel stand changes the table: it adds the two views of the tunnel, each
/// under the token of its source, and nothing else.
pub proof fn opening_files_both_views<S, E>(
    tun_map: &mut TunMap<S>,
    tokens: &mut TokenCounter,
    stream_srv: Arc<S>,
    side: Side,
    stream_cli: Arc<S>,
    token_srv: Token,
    token_cli: Token,
    registered: Result<(), E>,
    next: ConnectState<S, E>,
)
    requires
        token_srv != token_cli,
        call_ensures(
            connect::<S, E>,
            (
                tun_map,
                tokens,
                &stream_srv,
                ConnectState::Registering { side, stream_cli, token_srv, token_cli },
                ConnectEvent::Register(registered),
            ),
            next,
        ),
    ensures
        final(tokens).next == old(tokens).next,
        next is Connected <==> side == Side::Target && registered is Ok,
        side == Side::Source && registered is Ok ==> next == (ConnectState::<S, E>::Registering {
            side: Side::Target,
            stream_cli,
            token_srv,
            token_cli,
        }),
        registered matches Err(e) ==> next == (ConnectState::<S, E>::Failed { error: e }),
        !(next is Connected) ==> final(tun_map)@ == old(tun_map)@,
        next is Connected ==> {
            &&& final(tun_map)@.contains_key(token_srv.0)
            &&& final(tun_map)@[token_srv.0].source_token == token_srv
            &&& final(tun_map)@[token_srv.0].target_token == token_cli
            &&& final(tun_map)@[token_srv.0].source == stream_srv
            &&& final(tun_map)@[token_srv.0].target == stream_cli
            &&& final(tun_map)@.contains_key(token_cli.0)
            &&& final(tun_map)@[token_cli.0].source_token == token_cli
            &&& final(tun_map)@[token_cli.0].target_token == token_srv
            &&& final(tun_map)@[token_cli.0].source == stream_cli
            &&& final(tun_map)@[token_cli.0].target == stream_srv
            &&& final(tun_map)@.remove(token_srv.0).remove(token_cli.0) == old(tun_map)@.remove(
                token_srv.0,
            ).remove(token_cli.0)
        },
{
}

/// A remote that cannot be reached costs no token and leaves the table alone.
pub proof fn refused_opening_costs_nothing<S, E>(
    tun_map: &mut TunMap<S>,
    tokens: &mut TokenCounter,
    stream_srv: Arc<S>,
    e: E,
    next: ConnectState<S, E>,
)
    requires
        call_ensures(
            connect::<S, E>,
            (tun_map, tokens, &stream_srv, ConnectState::Connecting, ConnectEvent::Connect(Err(e))),
            next,
        ),
    ensures
        next matches ConnectState::Refused { error } && error == e,
        final(tun_map)@ == old(tun_map)@,
        final(tokens).next == old(tokens).next,
{
}

/// A cached tunnel is found under the token of either socket, seen from that
/// socket, and every other entry of the table stays as it was.
pub proof fn cached_tunnel_is_seen_from_both_ends<S>(
    tun_map: &mut TunMap<S>,
    token_srv: Token,
    stream_srv: Arc<S>,
    token_cli: Token,
    stream_cli: Arc<S>,
)
    requires
        call_ensures(cache_tun::<S>, (tun_map, token_srv, stream_srv, token_cli, stream_cli), ()),
    ensures
        token_srv != token_cli ==> {
            &&& final(tun_map)@.contains_key(token_srv.0)
            &&& final(tun_map)@[token_srv.0].source_token == token_srv
            &&& final(tun_map)@[token_srv.0].target_token == token_cli
            &&& final(tun_map)@[token_srv.0].source == stream_srv
            &&& final(tun_map)@[token_srv.0].target == stream_cli
        },
        final(tun_map)@.contains_key(token_cli.0),
        final(tun_map)@[token_cli.0].source_token == token_cli,
        final(tun_map)@[token_cli.0].target_token == token_srv,
        final(tun_map)@[token_cli.0].source == stream_cli,
        final(tun_map)@[token_cli.0].target == stream_srv,
        final(tun_map)@.remove(token_srv.0).remove(token_cli.0) == old(tun_map)@.remove(
            token_srv.0,
        ).remove(token_cli.0),
{
}

/// A copy of a view of a tunnel has the same sockets under the same tokens.
pub proof fn copied_view_is_the_same<S>(tun: SocketTun<S>, r: SocketTun<S>)
    requires
        call_ensures(<SocketTun<S> as Clone>::clone, (&tun,), r),
    ensures
        r.source_token == tun.source_token,
        r.target_token == tun.target_token,
        r.source == tun.source,
        r.target == tun.target,
{
}

/// A tunnel that is removed is found under neither of its tokens, and every other
/// entry of the table stays as it was.
pub proof fn removed_tunnel_is_gone_from_both_ends<S>(
    tun_map: &mut TunMap<S>,
    tun: SocketTun<S>,
    k: usize,
)
    requires
        call_ensures(remove_tun_from_cache::<S>, (tun_map, &tun), ()),
    ensures
        final(tun_map)@.contains_key(k) <==> old(tun_map)@.contains_key(k) && k
            != tun.source_token.0 && k != tun.target_token.0,
        final(tun_map)@.contains_key(k) ==> final(tun_map)@[k] == old(tun_map)@[k],
{
}

/// Giving up a tunnel takes it out of the table under both tokens, leaves every
/// other entry alone, takes both sockets from the poller, then reports, and then
/// shuts both connections down, the client's always before the remote's.
pub proof fn failed_tunnel_is_given_up<S>(
    tun_map: &mut TunMap<S>,
    tun: SocketTun<S>,
    r: Vec<Teardown>,
    leaving: Vec<Teardown>,
    closing: Vec<Teardown>,
    k: usize,
)
    requires
        call_ensures(when_error::<S>, (tun_map, &tun), r),
        call_ensures(deregister_tun, (), leaving),
        call_ensures(close_tun_print_err, (), closing),
    ensures
        final(tun_map)@.contains_key(k) <==> old(tun_map)@.contains_key(k) && k
            != tun.source_token.0 && k != tun.target_token.0,
        final(tun_map)@.contains_key(k) ==> final(tun_map)@[k] == old(tun_map)@[k],
        r@.len() == 5,
        r@[0] == Teardown::Deregister(Side::Source),
        r@[1] == Teardown::Deregister(Side::Target),
        r@[2] == Teardown::Report,
        r@[3] == Teardown::Shutdown(Side::Source),
        r@[4] == Teardown::Shutdown(Side::Target),
        leaving@.len() == 2,
        r@ == leaving@ + closing@,
{
}

/// A relay that failed costs the tunnel its place in the table and both its
/// connections. One that is drained costs it nothing.
pub proof fn only_failure_costs_a_tunnel_its_place<S>(
    tun_map: &mut TunMap<S>,
    tun: SocketTun<S>,
    end: RelayState,
    r: Vec<Teardown>,
    k: usize,
)
    requires
        end is Drained || end is Failed,
        call_ensures(sync_ends::<S>, (tun_map, &tun, &end), r),
    ensures
        call_requires(sync_ends::<S>, (tun_map, &tun, &end)),
        end is Drained ==> r@.len() == 0 && final(tun_map)@ == old(tun_map)@,
        end is Failed ==> {
            &&& r@.len() == 5
            &&& r@[0] == Teardown::Deregister(Side::Source)
            &&& r@[1] == Teardown::Deregister(Side::Target)
            &&& r@[2] == Teardown::Report
            &&& r@[3] == Teardown::Shutdown(Side::Source)
            &&& r@[4] == Teardown::Shutdown(Side::Target)
            &&& final(tun_map)@.contains_key(k) <==> old(tun_map)@.contains_key(k) && k
                != tun.source_token.0 && k != tun.target_token.0
            &&& final(tun_map)@.contains_key(k) ==> final(tun_map)@[k] == old(tun_map)@[k]
        },
{
}

} // verus!
