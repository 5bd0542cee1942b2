//! What the operations of the forwarder promise of their results.

use crate::addr::SocketAddr;
use crate::cluster::{
    accept_next, pool_size, AcceptStep, Accepted, Cluster, EventAction, Filed, ForwardServer,
    LoopStep, StartEvent, StartStep,
};
use crate::error::IoError;
use crate::token::{Token, TokenCounter};
use crate::tunnel::TcpTun;
use std::io::ErrorKind;
use std::sync::Arc;
use vstd::prelude::*;

verus! {

/// One CPU is left to the event loop where there is more than one, and none goes
/// to waste.
pub proof fn one_cpu_is_left_to_the_event_loop(cpus: usize, r: usize)
    requires
        call_ensures(pool_size, (cpus,), r),
    ensures
        cpus > 1 ==> r + 1 == cpus,
        cpus <= 1 ==> r == cpus,
        cpus >= 1 ==> r >= 1,
{
}

/// A new forwarder has nothing to forward yet, and a worker for each CPU but the
/// one of the event loop.
pub proof fn new_forwarder_has_workers_only<L, T>(r: Cluster<L, T>, token: Token)
    requires
        call_ensures(Cluster::<L, T>::new, (), r),
    ensures
        !r.servers@.contains_key(token.0),
        !r.tunnels@.contains_key(token.0),
        exists|cpus: usize|
            #[trigger] call_ensures(num_cpus::get, (), cpus) && (cpus > 1 ==> r.pool_size + 1
                == cpus) && (cpus <= 1 ==> r.pool_size == cpus),
        r.pool_size >= 1,
{
    let cpus = choose|cpus: usize|
        call_ensures(num_cpus::get, (), cpus) && r.pool_size == #[trigger] crate::cluster::workers(
            cpus,
        );
    assert(call_ensures(num_cpus::get, (), cpus));
}

/// A token is the number that the counter shows, which then goes up by one, and
/// back to zero after the last.
pub proof fn drawing_a_token_moves_the_counter(tokens: &mut TokenCounter, r: Token)
    requires
        call_ensures(TokenCounter::create_token, (tokens,), r),
    ensures
        r.0 == old(tokens).next,
        old(tokens).next < usize::MAX ==> final(tokens).next == old(tokens).next + 1,
        old(tokens).next == usize::MAX ==> final(tokens).next == 0,
        final(tokens).next != r.0,
{
}

/// The first token of a new counter is number zero.
pub proof fn tokens_begin_at_zero(counter: TokenCounter, tokens: &mut TokenCounter, r: Token)
    requires
        call_ensures(TokenCounter::new, (), counter),
        *old(tokens) == counter,
        call_ensures(TokenCounter::create_token, (tokens,), r),
    ensures
        r.0 == 0,
        final(tokens).next == 1,
{
}

/// A server that listens keeps the addresses that it was started with and draws
/// one token. One that does not passes the failure on and draws none.
pub proof fn started_server_keeps_its_addresses<L, E>(
    local_addr: SocketAddr,
    remote_addr: SocketAddr,
    bound: Result<L, E>,
    tokens: &mut TokenCounter,
    r: Result<ForwardServer<L>, E>,
)
    requires
        call_ensures(ForwardServer::<L>::start::<E>, (local_addr, remote_addr, bound, tokens), r),
    ensures
        bound matches Ok(listener) ==> {
            &&& r matches Ok(server)
            &&& server.local_addr == local_addr
            &&& server.remote_addr == remote_addr
            &&& server.listener == listener
            &&& server.token.0 == old(tokens).next
            &&& old(tokens).next < usize::MAX ==> final(tokens).next == old(tokens).next + 1
            &&& old(tokens).next == usize::MAX ==> final(tokens).next == 0
        },
        bound matches Err(e) ==> (r matches Err(failure) && failure == e) && final(tokens).next
            == old(tokens).next,
{
}

/// A connection is forwarded to the remote address of the server that accepted
/// it: the tunnel made of it has the accepted stream as its source, no target
/// yet, the server's addresses, and two tokens of its own.
pub proof fn accepted_connection_goes_to_the_servers_remote<L, S, E>(
    server: ForwardServer<L>,
    stream: S,
    tokens: &mut TokenCounter,
    r: Result<TcpTun<S>, E>,
)
    requires
        call_ensures(ForwardServer::<L>::accept_connect::<S, E>, (&server, Ok(stream), tokens), r),
    ensures
        r matches Ok(tun) && {
            &&& tun.source == stream
            &&& tun.target is None
            &&& tun.source_addr == server.local_addr
            &&& tun.target_addr == server.remote_addr
            &&& tun.source_token.0 == old(tokens).next
            &&& tun.target_token != tun.source_token
            &&& old(tokens).next < usize::MAX ==> tun.target_token.0 == old(tokens).next + 1
            &&& old(tokens).next == usize::MAX ==> tun.target_token.0 == 0
            &&& tun.target_token.0 < usize::MAX ==> final(tokens).next == tun.target_token.0 + 1
            &&& tun.target_token.0 == usize::MAX ==> final(tokens).next == 0
        },
{
}

/// A failure to accept a connection is passed on and draws no token.
pub proof fn unaccepted_connection_costs_nothing<L, S, E>(
    server: ForwardServer<L>,
    e: E,
    tokens: &mut TokenCounter,
    r: Result<TcpTun<S>, E>,
)
    requires
        call_ensures(ForwardServer::<L>::accept_connect::<S, E>, (&server, Err(e), tokens), r),
    ensures
        r matches Err(failure) && failure == e,
        final(tokens).next == old(tokens).next,
{
}

/// The start takes every outcome of the step that is due, where every local
/// address has its remote.
pub proof fn start_takes_every_outcome<L, T, E>(
    addrs: &[String],
    addr_i: usize,
    listened: Result<(), E>,
    ended: Result<(), E>,
)
    requires
        addrs@.len() % 2 == 0,
    ensures
        call_requires(Cluster::<L, T>::start_with::<E>, (addrs, StartEvent::Begin)),
        call_requires(Cluster::<L, T>::start_with::<E>, (addrs, StartEvent::LoopEnded(ended))),
        addr_i < addrs@.len() && addr_i % 2 == 0 ==> call_requires(
            Cluster::<L, T>::start_with::<E>,
            (addrs, StartEvent::Listened { addr_i, result: listened }),
        ),
{
}

/// Whatever the pair, a failure to listen ends the start with that very failure,
/// and nothing else ends it with one. What ends the event loop is no failure.
pub proof fn failed_listen_ends_the_start<L, T, E>(
    addrs: &[String],
    event: StartEvent<E>,
    r: StartStep<E>,
)
    requires
        call_ensures(Cluster::<L, T>::start_with::<E>, (addrs, event), r),
    ensures
        event matches StartEvent::Listened { result: Err(e), .. } ==> (r matches StartStep::Done(
            Err(failure),
        ) && failure == e),
        r matches StartStep::Done(Err(e)) ==> (event matches StartEvent::Listened {
            result: Err(failure),
            ..
        } && failure == e),
        event is LoopEnded <==> (r matches StartStep::Done(result) && result is Ok),
{
}

/// While nothing fails, the start goes from one pair to the next, from the first
/// to the last, and then to the event loop.
pub proof fn start_goes_from_pair_to_pair<L, T, E>(
    addrs: &[String],
    event: StartEvent<E>,
    r: StartStep<E>,
)
    requires
        call_ensures(Cluster::<L, T>::start_with::<E>, (addrs, event), r),
    ensures
        event is Begin && addrs@.len() > 0 ==> (r matches StartStep::Listen { addr_i } && addr_i
            == 0),
        event is Begin && addrs@.len() == 0 ==> r is EventLoop,
        event matches StartEvent::Listened { addr_i: last, result: Ok(_) } ==> {
            &&& last + 2 < addrs@.len() ==> (r matches StartStep::Listen { addr_i } && addr_i
                == last + 2)
            &&& last + 2 >= addrs@.len() ==> r is EventLoop
        },
        r matches StartStep::Listen { addr_i } ==> addr_i + 1 < addrs@.len(),
{
    assert(addrs@.len() == addrs.len());
}

/// `event` is an outcome of `step`.
pub open spec fn comes_of<E>(step: StartStep<E>, event: StartEvent<E>) -> bool {
    match step {
        StartStep::Listen { addr_i } => event matches StartEvent::Listened { addr_i: i, .. } && i
            == addr_i,
        StartStep::EventLoop => event is LoopEnded,
        StartStep::Done(_) => false,
    }
}

/// `events` and `steps` are a course that the start may take from its beginning:
/// `steps[i]` is what follows `events[i]`.
pub open spec fn is_start<L, T, E>(
    addrs: &[String],
    events: Seq<StartEvent<E>>,
    steps: Seq<StartStep<E>>,
) -> bool {
    &&& events.len() == steps.len() > 0
    &&& events[0] is Begin
    &&& forall|i: int|
        0 <= i < steps.len() ==> call_ensures(
            Cluster::<L, T>::start_with::<E>,
            (addrs, events[i]),
            #[trigger] steps[i],
        )
    &&& forall|i: int| 1 <= i < steps.len() ==> comes_of(steps[i - 1], #[trigger] events[i])
}

/// The event loop runs only if every pair was listened on with success, each once
/// and in its turn.
pub proof fn event_loop_waits_for_every_server<L, T, E>(
    addrs: &[String],
    events: Seq<StartEvent<E>>,
    steps: Seq<StartStep<E>>,
    j: nat,
)
    requires
        addrs@.len() % 2 == 0,
        is_start::<L, T, E>(addrs, events, steps),
        j < steps.len(),
        steps[j as int] is EventLoop,
    ensures
        2 * j == addrs@.len(),
        forall|i: int|
            1 <= i <= j ==> (#[trigger] events[i] matches StartEvent::Listened {
                addr_i,
                result: Ok(_),
            } && addr_i == 2 * (i - 1)),
{
    lemma_start_course::<L, T, E>(addrs, events, steps, j);
}

/// Until a step is no `Listen`, the `j`-th one listens on the `j`-th pair.
proof fn lemma_start_course<L, T, E>(
    addrs: &[String],
    events: Seq<StartEvent<E>>,
    steps: Seq<StartStep<E>>,
    j: nat,
)
    requires
        addrs@.len() % 2 == 0,
        is_start::<L, T, E>(addrs, events, steps),
        j < steps.len(),
        steps[j as int] is EventLoop || steps[j as int] is Listen,
    ensures
        steps[j as int] matches StartStep::Listen { addr_i } ==> addr_i == 2 * j && 2 * j
            < addrs@.len(),
        steps[j as int] is EventLoop ==> 2 * j == addrs@.len(),
        forall|i: int|
            1 <= i <= j ==> (#[trigger] events[i] matches StartEvent::Listened {
                addr_i,
                result: Ok(_),
            } && addr_i == 2 * (i - 1)),
    decreases j,
{
    let step = steps[j as int];
    start_goes_from_pair_to_pair::<L, T, E>(addrs, events[j as int], step);
    failed_listen_ends_the_start::<L, T, E>(addrs, events[j as int], step);
    if j > 0 {
        assert(comes_of(steps[j - 1], events[j as int]));
        lemma_start_course::<L, T, E>(addrs, events, steps, (j - 1) as nat);
    }
}

/// A started server is found under its token, and no other server or tunnel is
/// touched. A failure to start is passed on and changes nothing.
pub proof fn listening_adds_one_server<L, T, E>(
    cluster: &mut Cluster<L, T>,
    started: Result<ForwardServer<L>, E>,
    r: Result<(), E>,
)
    requires
        call_ensures(Cluster::<L, T>::listen::<E>, (cluster, started), r),
    ensures
        started matches Ok(server) ==> {
            &&& r is Ok
            &&& final(cluster).servers@.contains_key(server.token.0)
            &&& final(cluster).servers@[server.token.0] == server
            &&& final(cluster).servers@.remove(server.token.0) == old(cluster).servers@.remove(
                server.token.0,
            )
        },
        started matches Err(e) ==> (r matches Err(failure) && failure == e)
            && final(cluster).servers@ == old(cluster).servers@,
        final(cluster).tunnels@ == old(cluster).tunnels@,
        final(cluster).pool_size == old(cluster).pool_size,
{
}

/// An event reaches the server or the tunnel that has its token, a server first,
/// and is unknown only where there is neither.
pub proof fn event_reaches_whom_it_concerns<'a, L, T>(
    cluster: &'a Cluster<L, T>,
    token: Token,
    r: EventAction<'a, L, T>,
)
    requires
        call_ensures(Cluster::<L, T>::event_handle, (cluster, token), r),
    ensures
        r is Accept <==> cluster.servers@.contains_key(token.0),
        r matches EventAction::Accept(server) ==> *server == cluster.servers@[token.0],
        r is Sync <==> !cluster.servers@.contains_key(token.0) && cluster.tunnels@.contains_key(
            token.0,
        ),
        r matches EventAction::Sync(tun) ==> tun == cluster.tunnels@[token.0],
        r is Unknown <==> !cluster.servers@.contains_key(token.0) && !cluster.tunnels@.contains_key(
            token.0,
        ),
{
}

/// A connection accepted from a server becomes a tunnel from that connection to
/// the server's remote address. The tunnel is filed, and handed back, under two
/// tokens of its own, and nothing else is touched.
pub proof fn accepted_connection_is_filed_under_both_tokens<L, T, S, W: Fn(TcpTun<S>) -> T>(
    cluster: &mut Cluster<L, T>,
    srv: Token,
    stream: S,
    share: W,
    tokens: &mut TokenCounter,
    r: Result<Accepted<T>, IoError>,
)
    requires
        old(cluster).servers@.contains_key(srv.0),
        call_ensures(
            Cluster::<L, T>::accept_handle::<S, W>,
            (cluster, srv, Ok(stream), share, tokens),
            r,
        ),
    ensures
        r matches Ok(Accepted::Opened(filed)) && {
            &&& filed.source_token.0 == old(tokens).next
            &&& filed.target_token != filed.source_token
            &&& old(tokens).next < usize::MAX ==> filed.target_token.0 == old(tokens).next + 1
            &&& old(tokens).next == usize::MAX ==> filed.target_token.0 == 0
            &&& filed.target_token.0 < usize::MAX ==> final(tokens).next == filed.target_token.0 + 1
            &&& filed.target_token.0 == usize::MAX ==> final(tokens).next == 0
            &&& final(cluster).tunnels@.contains_key(filed.source_token.0)
            &&& final(cluster).tunnels@[filed.source_token.0] == filed
            &&& final(cluster).tunnels@.contains_key(filed.target_token.0)
            &&& final(cluster).tunnels@[filed.target_token.0] == filed
            &&& final(cluster).tunnels@.remove(filed.source_token.0).remove(filed.target_token.0)
                == old(cluster).tunnels@.remove(filed.source_token.0).remove(filed.target_token.0)
            &&& exists|tun: TcpTun<S>|
                {
                    &&& #[trigger] call_ensures(share, (tun,), filed.tun)
                    &&& tun.source == stream
                    &&& tun.target is None
                    &&& tun.source_addr == old(cluster).servers@[srv.0].local_addr
                    &&& tun.target_addr == old(cluster).servers@[srv.0].remote_addr
                    &&& tun.source_token == filed.source_token
                    &&& tun.target_token == filed.target_token
                }
        },
        final(cluster).servers@ == old(cluster).servers@,
        final(cluster).pool_size == old(cluster).pool_size,
{
    let tun = cluster.servers@[srv.0].new_tunnel(stream, tokens.next);
    assert(r matches Ok(Accepted::Opened(filed)) && call_ensures(share, (tun,), filed.tun));
}

/// Every outcome of accepting a connection from a server that is there is taken
/// in, whatever the tunnel is shared by.
pub proof fn accepting_takes_every_outcome<L, T, S, W: Fn(TcpTun<S>) -> T>(
    cluster: &mut Cluster<L, T>,
    srv: Token,
    accepted: Result<S, IoError>,
    share: W,
    tokens: &mut TokenCounter,
)
    requires
        old(cluster).servers@.contains_key(srv.0),
        forall|tun: TcpTun<S>| call_requires(share, (tun,)),
    ensures
        call_requires(
            Cluster::<L, T>::accept_handle::<S, W>,
            (cluster, srv, accepted, share, tokens),
        ),
{
}

/// An attempt to accept that would block ends the accepting in good order, any
/// other failure is passed on, and neither changes anything.
pub proof fn unaccepted_connection_changes_nothing<L, T, S, W: Fn(TcpTun<S>) -> T>(
    cluster: &mut Cluster<L, T>,
    srv: Token,
    e: IoError,
    share: W,
    tokens: &mut TokenCounter,
    r: Result<Accepted<T>, IoError>,
)
    requires
        old(cluster).servers@.contains_key(srv.0),
        call_ensures(
            Cluster::<L, T>::accept_handle::<S, W>,
            (cluster, srv, Err(e), share, tokens),
            r,
        ),
    ensures
        e.kind == ErrorKind::WouldBlock <==> r is Ok,
        r matches Ok(accepted) ==> accepted is Drained,
        r matches Err(failure) ==> failure == e,
        final(cluster).servers@ == old(cluster).servers@,
        final(cluster).tunnels@ == old(cluster).tunnels@,
        final(cluster).pool_size == old(cluster).pool_size,
        final(tokens).next == old(tokens).next,
{
}

/// Accepting goes on after every connection, and ends in good order when there
/// are no more, or with the failure that was met.
pub proof fn accepting_goes_on_until_drained<T>(
    handled: Result<Accepted<T>, IoError>,
    r: AcceptStep<T>,
)
    requires
        call_ensures(accept_next::<T>, (handled,), r),
    ensures
        r is Again <==> (handled matches Ok(accepted) && accepted is Opened),
        r matches AcceptStep::Again(tun) ==> (handled matches Ok(Accepted::Opened(opened))
            && opened == tun),
        r matches AcceptStep::Done(Ok(_)) ==> (handled matches Ok(accepted) && accepted is Drained),
        r matches AcceptStep::Done(Err(e)) ==> (handled matches Err(failure) && failure == e),
{
}

/// The event loop goes on after every poll that succeeds, and ends with the
/// failure of one that fails.
pub proof fn event_loop_ends_at_a_failed_poll<L, T, E>(polled: Result<(), E>, r: LoopStep<E>)
    requires
        call_ensures(Cluster::<L, T>::event_loop::<E>, (polled,), r),
    ensures
        r is Handle <==> polled is Ok,
        r matches LoopStep::Done(Err(e)) ==> (polled matches Err(failure) && failure == e),
        !(r matches LoopStep::Done(Ok(_))),
{
}

/// Nothing is lost between accepting a connection and the events for it: once a
/// forwarder whose tokens are its own has accepted a connection, events for
/// either token of the new tunnel lead to it, and all others to whom they led
/// before. This holds until the tokens run out.
pub proof fn accepted_tunnel_gets_its_events<L, T, S, W: Fn(TcpTun<S>) -> T>(
    cluster: &mut Cluster<L, T>,
    srv: Token,
    stream: S,
    share: W,
    tokens: &mut TokenCounter,
    filed: Arc<Filed<T>>,
    other: Token,
)
    requires
        old(cluster).servers@.contains_key(srv.0),
        old(cluster).wf(old(tokens).next),
        old(tokens).next + 2 <= usize::MAX,
        call_ensures(
            Cluster::<L, T>::accept_handle::<S, W>,
            (cluster, srv, Ok(stream), share, tokens),
            Ok(Accepted::Opened(filed)),
        ),
    ensures
        final(cluster).wf(final(tokens).next),
        final(cluster).action(filed.source_token) == EventAction::<L, T>::Sync(filed),
        final(cluster).action(filed.target_token) == EventAction::<L, T>::Sync(filed),
        other != filed.source_token && other != filed.target_token ==> final(cluster).action(other)
            == old(cluster).action(other),
{
}

} // verus!
