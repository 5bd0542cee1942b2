//! The forwarder: its listening servers and its open tunnels.

use crate::addr::SocketAddr;
use crate::error::{is_would_block_err, IoError};
use std::io::ErrorKind;
use crate::token::{token_after, Token, TokenCounter};
use crate::tunnel::TcpTun;
use std::collections::HashMap;
use std::sync::Arc;
use vstd::prelude::*;

verus! {

broadcast use vstd::std_specs::hash::group_hash_axioms;

/// The most events that one poll reports.
pub const EVENTS_CAPACITY: usize = 1024;

/// How long one poll waits for an event, in milliseconds. Without a limit, a
/// thread that wants the poller would wait for it forever.
pub const POLL_TIMEOUT_MILLIS: u64 = 2;

/// `num_cpus::get`, the number of CPUs that this process may use. Claimed of it
/// is that there is always at least one; how many more depends on the machine.
pub assume_specification[ num_cpus::get ]() -> (cpus: usize)
    ensures
        cpus >= 1,
;

/// The number of worker threads on a machine with `cpus` CPUs: one CPU is left
/// to the event loop, where there is more than one.
pub open spec fn workers(cpus: usize) -> usize {
    if cpus > 1 {
        (cpus - 1) as usize
    } else {
        cpus
    }
}

/// The number of worker threads on a machine with `cpus` CPUs.
pub fn pool_size(cpus: usize) -> (r: usize)
    ensures
        r == workers(cpus),
{
    if cpus > 1 {
        cpus - 1
    } else {
        cpus
    }
}

/// A listening socket, and where the connections that it accepts are forwarded.
#[derive(Debug)]
pub struct ForwardServer<L> {
    pub local_addr: SocketAddr,
    pub remote_addr: SocketAddr,
    pub listener: L,
    pub token: Token,
}

impl<L> ForwardServer<L> {
    /// Takes in the outcome of listening on `local_addr`. Only a server that
    /// listens draws a token.
    pub fn start<E>(
        local_addr: SocketAddr,
        remote_addr: SocketAddr,
        bound: Result<L, E>,
        tokens: &mut TokenCounter,
    ) -> (r: Result<ForwardServer<L>, E>)
        ensures
            match bound {
                Ok(listener) => {
                    &&& r == Ok::<ForwardServer<L>, E>(
                        ForwardServer {
                            local_addr,
                            remote_addr,
                            listener,
                            token: Token(old(tokens).next),
                        },
                    )
                    &&& final(tokens).next == token_after(old(tokens).next)
                },
                Err(e) => r == Err::<ForwardServer<L>, E>(e) && *final(tokens) == *old(tokens),
            },
    {
        match bound {
            Ok(listener) => {
                let token = tokens.create_token();
                Ok(ForwardServer { local_addr, remote_addr, listener, token })
            },
            Err(e) => Err(e),
        }
    }

    /// The tunnel for a connection accepted by this server, not yet connected
    /// to the remote.
    pub open spec fn new_tunnel<S>(&self, stream: S, next_token: usize) -> TcpTun<S> {
        TcpTun {
            source_token: Token(next_token),
            target_token: Token(token_after(next_token)),
            source: stream,
            target: None,
            source_addr: self.local_addr,
            target_addr: self.remote_addr,
        }
    }

    /// Takes in the outcome of accepting a connection.
    pub fn accept_connect<S, E>(&self, accepted: Result<S, E>, tokens: &mut TokenCounter) -> (r:
        Result<TcpTun<S>, E>)
        ensures
            match accepted {
                Ok(stream) => {
                    &&& r == Ok::<TcpTun<S>, E>(self.new_tunnel(stream, old(tokens).next))
                    &&& final(tokens).next == token_after(token_after(old(tokens).next))
                },
                Err(e) => r == Err::<TcpTun<S>, E>(e) && *final(tokens) == *old(tokens),
            },
    {
        match accepted {
            Ok(stream) => {
                let source_token = tokens.create_token();
                let target_token = tokens.create_token();
                Ok(
                    TcpTun {
                        source_token,
                        target_token,
                        source: stream,
                        target: None,
                        source_addr: self.local_addr,
                        target_addr: self.remote_addr,
                    },
                )
            },
            Err(e) => Err(e),
        }
    }
}

/// A tunnel on file: its tokens, and the tunnel in the form that the worker
/// threads share.
#[derive(Debug)]
pub struct Filed<T> {
    pub source_token: Token,
    pub target_token: Token,
    pub tun: T,
}

/// The forwarder's state. `L` is a listening socket, `T` a tunnel that the
/// worker threads share.
#[derive(Debug)]
pub struct Cluster<L, T> {
    /// The servers by the number of their token.
    pub servers: HashMap<usize, ForwardServer<L>>,
    /// The tunnels, each by the numbers of both of its tokens.
    pub tunnels: HashMap<usize, Arc<Filed<T>>>,
    /// The number of worker threads.
    pub pool_size: usize,
}

/// What to do on the way from the addresses to the end of the forwarder.
#[derive(Debug, PartialEq, Eq)]
pub enum StartStep<E> {
    /// Listen on the address at `addr_i` for the remote at the index after it.
    Listen { addr_i: usize },
    /// Every server listens: run the event loop.
    EventLoop,
    /// The forwarder has ended.
    Done(Result<(), E>),
}

/// What came of the last step.
#[derive(Debug)]
pub enum StartEvent<E> {
    /// There was none: the forwarder starts.
    Begin,
    /// The outcome of listening on the address at `addr_i`.
    Listened { addr_i: usize, result: Result<(), E> },
    /// The event loop has ended.
    LoopEnded(Result<(), E>),
}

/// What an event asks for.
#[derive(Debug)]
pub enum EventAction<'a, L, T> {
    /// Accept connections from this server until there are no more.
    Accept(&'a ForwardServer<L>),
    /// Have a worker copy what arrived for this token through the tunnel.
    Sync(Arc<Filed<T>>),
    /// Nothing has this token.
    Unknown,
}

/// What came of accepting a connection.
#[derive(Debug)]
pub enum Accepted<T> {
    /// Have a worker connect this tunnel to its remote, and accept again.
    Opened(Arc<Filed<T>>),
    /// There are no more connections to accept.
    Drained,
}

/// What to do on the way through the connections that wait at a server.
#[derive(Debug)]
pub enum AcceptStep<T> {
    /// Have a worker connect this tunnel to its remote, and accept again.
    Again(Arc<Filed<T>>),
    /// The event has been handled.
    Done(Result<(), IoError>),
}

/// What to do on the way through the event loop.
#[derive(Debug, PartialEq, Eq)]
pub enum LoopStep<E> {
    /// Handle each event that was reported, whatever comes of it, and poll again.
    Handle,
    /// The event loop has ended.
    Done(Result<(), E>),
}

/// Decides what follows an attempt to accept a connection: the next one, until
/// there are no more or one fails.
pub fn accept_next<T>(handled: Result<Accepted<T>, IoError>) -> (r: AcceptStep<T>)
    ensures
        r == match handled {
            Ok(Accepted::Opened(tun)) => AcceptStep::Again(tun),
            Ok(Accepted::Drained) => AcceptStep::Done(Ok(())),
            Err(e) => AcceptStep::Done(Err(e)),
        },
{
    match handled {
        Ok(Accepted::Opened(tun)) => AcceptStep::Again(tun),
        Ok(Accepted::Drained) => AcceptStep::Done(Ok(())),
        Err(e) => AcceptStep::Done(Err(e)),
    }
}

impl<L, T> Cluster<L, T> {
    /// Every server and tunnel has tokens of its own, drawn from a counter that
    /// has come to `next`. A tunnel is filed under exactly its own two, and both
    /// lead to it.
    pub open spec fn wf(&self, next: usize) -> bool {
        &&& forall|k: usize| #[trigger]
            self.servers@.contains_key(k) ==> k < next && self.servers@[k].token == Token(k)
                && !self.tunnels@.contains_key(k)
        &&& forall|k: usize| #[trigger]
            self.tunnels@.contains_key(k) ==> {
                let filed = self.tunnels@[k];
                &&& k < next
                &&& filed.source_token != filed.target_token
                &&& k == filed.source_token.0 || k == filed.target_token.0
                &&& self.tunnels@.contains_key(filed.source_token.0)
                &&& self.tunnels@[filed.source_token.0] == filed
                &&& self.tunnels@.contains_key(filed.target_token.0)
                &&& self.tunnels@[filed.target_token.0] == filed
            }
    }

    /// A forwarder without servers or tunnels, with as many workers as the
    /// machine has CPUs to spare.
    pub fn new() -> (r: Cluster<L, T>)
        ensures
            forall|next: usize| r.wf(next),
            r.servers@ == Map::<usize, ForwardServer<L>>::empty(),
            r.tunnels@ == Map::<usize, Arc<Filed<T>>>::empty(),
            r.pool_size >= 1,
            exists|cpus: usize|
                call_ensures(num_cpus::get, (), cpus) && r.pool_size == #[trigger] workers(cpus),
    {
        let cpus = num_cpus::get();
        Cluster {
            servers: HashMap::new(),
            tunnels: HashMap::new(),
            pool_size: pool_size(cpus),
        }
    }

    /// Listens on each pair of `forward_addrs`, which holds a local and a remote
    /// address in turn, stops at the first failure, and then runs the event loop.
    /// What ends the event loop is no failure of the forwarder.
    pub fn start_with<E>(forward_addrs: &[String], event: StartEvent<E>) -> (r: StartStep<E>)
        requires
            match event {
                StartEvent::Begin => forward_addrs@.len() != 1,
                StartEvent::Listened { addr_i, result } => addr_i < forward_addrs@.len() && (result
                    is Ok ==> forward_addrs@.len() != addr_i + 3),
                StartEvent::LoopEnded(_) => true,
            },
        ensures
            r == start_next(forward_addrs@.len(), event),
            r matches StartStep::Listen { addr_i } ==> addr_i + 1 < forward_addrs@.len(),
    {
        match event {
            StartEvent::Begin => {
                if forward_addrs.len() == 0 {
                    StartStep::EventLoop
                } else {
                    StartStep::Listen { addr_i: 0 }
                }
            },
            StartEvent::Listened { addr_i, result: Ok(_) } => {
                if forward_addrs.len() - addr_i <= 2 {
                    StartStep::EventLoop
                } else {
                    StartStep::Listen { addr_i: addr_i + 2 }
                }
            },
            StartEvent::Listened { result: Err(e), .. } => StartStep::Done(Err(e)),
            StartEvent::LoopEnded(_) => StartStep::Done(Ok(())),
        }
    }

    /// Takes in a server that was started, or the failure to start it.
    pub fn listen<E>(&mut self, started: Result<ForwardServer<L>, E>) -> (r: Result<(), E>)
        ensures
            match started {
                Ok(server) => r == Ok::<(), E>(()) && old(self).adds(server, final(self)),
                Err(e) => r == Err::<(), E>(e) && final(self).same_as(old(self)),
            },
    {
        match started {
            Ok(server) => {
                self.servers.insert(server.token.0, server);
                Ok(())
            },
            Err(e) => Err(e),
        }
    }

    /// Decides what follows a poll: only a poll that fails ends the event loop.
    pub fn event_loop<E>(polled: Result<(), E>) -> (r: LoopStep<E>)
        ensures
            r == match polled {
                Ok(_) => LoopStep::Handle,
                Err(e) => LoopStep::Done(Err(e)),
            },
    {
        match polled {
            Ok(_) => LoopStep::Handle,
            Err(e) => LoopStep::Done(Err(e)),
        }
    }

    /// Whom an event for `token` concerns: a server first, then a tunnel.
    pub fn event_handle<'a>(&'a self, token: Token) -> (r: EventAction<'a, L, T>)
        ensures
            r == self.action(token),
    {
        match self.servers.get(&token.0) {
            Some(srv) => EventAction::Accept(srv),
            None => match self.tunnels.get(&token.0) {
                Some(tun) => EventAction::Sync(tun.clone()),
                None => EventAction::Unknown,
            },
        }
    }

    /// Takes in the outcome of accepting a connection from the server with the
    /// token `srv`: a tunnel for it is filed under both of its tokens. `share`
    /// makes the tunnel ready for use by several threads.
    pub fn accept_handle<S, W: Fn(TcpTun<S>) -> T>(
        &mut self,
        srv: Token,
        accepted: Result<S, IoError>,
        share: W,
        tokens: &mut TokenCounter,
    ) -> (r: Result<Accepted<T>, IoError>)
        requires
            old(self).servers@.contains_key(srv.0),
            forall|tun: TcpTun<S>| call_requires(share, (tun,)),
        ensures
            match accepted {
                Ok(stream) => {
                    let tun = old(self).servers@[srv.0].new_tunnel(stream, old(tokens).next);
                    &&& r matches Ok(Accepted::Opened(shared))
                    &&& call_ensures(share, (tun,), shared.tun)
                    &&& old(self).opens(tun, shared, final(self))
                    &&& final(tokens).next == token_after(token_after(old(tokens).next))
                },
                Err(e) => {
                    &&& r == if e.kind == ErrorKind::WouldBlock {
                        Ok::<Accepted<T>, IoError>(Accepted::Drained)
                    } else {
                        Err(e)
                    }
                    &&& final(self).same_as(old(self))
                    &&& *final(tokens) == *old(tokens)
                },
            },
            old(self).wf(old(tokens).next) && old(tokens).next + 2 <= usize::MAX ==> final(self).wf(
                final(tokens).next,
            ),
    {
        let server = self.servers.get(&srv.0).unwrap();
        match server.accept_connect(accepted, tokens) {
            Ok(tun) => {
                let source_token = tun.source_token;
                let target_token = tun.target_token;
                let shared = Arc::new(Filed { source_token, target_token, tun: share(tun) });
                self.tunnels.insert(source_token.0, shared.clone());
                self.tunnels.insert(target_token.0, shared.clone());
                Ok(Accepted::Opened(shared))
            },
            Err(e) => {
                if is_would_block_err(&e) {
                    Ok(Accepted::Drained)
                } else {
                    Err(e)
                }
            },
        }
    }

    /// `other` holds the same servers and tunnels.
    pub open spec fn same_as(&self, other: &Self) -> bool {
        &&& self.servers@ == other.servers@
        &&& self.tunnels@ == other.tunnels@
        &&& self.pool_size == other.pool_size
    }

    /// `after` is this forwarder with the tunnel `tun` filed under both of its
    /// tokens as `shared`.
    pub open spec fn opens<S>(&self, tun: TcpTun<S>, shared: Arc<Filed<T>>, after: &Self) -> bool {
        &&& shared.source_token == tun.source_token
        &&& shared.target_token == tun.target_token
        &&& after.tunnels@ == self.tunnels@.insert(tun.source_token.0, shared).insert(
            tun.target_token.0,
            shared,
        )
        &&& after.servers@ == self.servers@
        &&& after.pool_size == self.pool_size
    }

    /// `after` is this forwarder with `server`, under its token.
    pub open spec fn adds(&self, server: ForwardServer<L>, after: &Self) -> bool {
        &&& after.servers@ == self.servers@.insert(server.token.0, server)
        &&& after.tunnels@ == self.tunnels@
        &&& after.pool_size == self.pool_size
    }

    /// What an event for `token` asks for.
    pub open spec fn action<'a>(&'a self, token: Token) -> EventAction<'a, L, T> {
        if self.servers@.contains_key(token.0) {
            EventAction::Accept(&self.servers@[token.0])
        } else if self.tunnels@.contains_key(token.0) {
            EventAction::Sync(self.tunnels@[token.0])
        } else {
            EventAction::Unknown
        }
    }
}

/// What follows `event` on the way from `len` addresses to the end.
pub open spec fn start_next<E>(len: nat, event: StartEvent<E>) -> StartStep<E> {
    match event {
        StartEvent::Begin => next_pair(len, 0),
        StartEvent::Listened { addr_i, result: Ok(_) } => next_pair(len, addr_i + 2),
        StartEvent::Listened { result: Err(e), .. } => StartStep::Done(Err(e)),
        StartEvent::LoopEnded(_) => StartStep::Done(Ok(())),
    }
}

/// The step that listens on the pair at `addr_i`, or the one after the last.
pub open spec fn next_pair<E>(len: nat, addr_i: int) -> StartStep<E> {
    if addr_i < len {
        StartStep::Listen { addr_i: addr_i as usize }
    } else {
        StartStep::EventLoop
    }
}

/// The step that comes after `j` pairs were listened on without a failure.
pub open spec fn nth_start_step<E>(len: nat, j: nat) -> StartStep<E>
    decreases j,
{
    if j == 0 {
        start_next(len, StartEvent::Begin)
    } else {
        match nth_start_step::<E>(len, (j - 1) as nat) {
            StartStep::Listen { addr_i } => start_next(
                len,
                StartEvent::Listened { addr_i, result: Ok(()) },
            ),
            step => step,
        }
    }
}

/// Without a failure, the addresses are listened on pair by pair from the first
/// to the last, and then the event loop runs.
pub proof fn every_pair_is_listened_on<E>(len: nat, j: nat)
    requires
        len % 2 == 0,
        len <= usize::MAX,
    ensures
        2 * j < len ==> nth_start_step::<E>(len, j) == (StartStep::<E>::Listen {
            addr_i: (2 * j) as usize,
        }),
        2 * j >= len ==> nth_start_step::<E>(len, j) == StartStep::<E>::EventLoop,
    decreases j,
{
    if j > 0 {
        every_pair_is_listened_on::<E>(len, (j - 1) as nat);
    }
}

/// Events for a new tunnel, under either of its tokens, reach that tunnel, and
/// all others reach whom they reached before. The tunnel drew its tokens from a
/// counter that had come to `next`. Every server and tunnel still has a token of
/// its own. This holds until the tokens run out.
pub proof fn tunnel_events_reach_it<L, T, S>(
    before: Cluster<L, T>,
    next: usize,
    tun: TcpTun<S>,
    shared: Arc<Filed<T>>,
    after: Cluster<L, T>,
    other: Token,
)
    requires
        before.wf(next),
        next + 2 <= usize::MAX,
        tun.source_token == Token(next),
        tun.target_token == Token(token_after(next)),
        before.opens(tun, shared, &after),
    ensures
        after.wf(token_after(token_after(next))),
        after.action(tun.source_token) == EventAction::<L, T>::Sync(shared),
        after.action(tun.target_token) == EventAction::<L, T>::Sync(shared),
        other != tun.source_token && other != tun.target_token ==> after.action(other)
            == before.action(other),
        before.action(tun.source_token) is Unknown,
        before.action(tun.target_token) is Unknown,
{
}

/// Whatever comes of accepting a connection, every tunnel stays filed under
/// exactly its own two tokens, both leading to it, none of them is a server's,
/// and the servers stay as they are. A new tunnel drew its tokens from a counter
/// that had come to `next` and now is at `later`. This holds until the tokens run
/// out.
pub proof fn accepting_keeps_tunnels_paired<L, T, S>(
    before: Cluster<L, T>,
    next: usize,
    tun: TcpTun<S>,
    shared: Arc<Filed<T>>,
    after: Cluster<L, T>,
    later: usize,
)
    requires
        before.wf(next),
        (after.same_as(&before) && later == next) || {
            &&& next + 2 <= usize::MAX
            &&& tun.source_token == Token(next)
            &&& tun.target_token == Token(token_after(next))
            &&& before.opens(tun, shared, &after)
            &&& later == token_after(token_after(next))
        },
    ensures
        after.wf(later),
        after.servers@ == before.servers@,
{
}

/// Events for a new server reach that server, and all others reach whom they
/// reached before. The server drew its token from a counter that had come to
/// `next`. Every server and tunnel still has a token of its own. This holds until
/// the tokens run out.
pub proof fn server_events_reach_it<L, T>(
    before: Cluster<L, T>,
    next: usize,
    server: ForwardServer<L>,
    after: Cluster<L, T>,
    other: Token,
)
    requires
        before.wf(next),
        next < usize::MAX,
        server.token == Token(next),
        before.adds(server, &after),
    ensures
        after.wf(token_after(next)),
        after.action(server.token) == EventAction::<L, T>::Accept(&server),
        other != server.token ==> after.action(other) == before.action(other),
        before.action(server.token) is Unknown,
{
}

/// Tokens drawn elsewhere from the same counter disturb no forwarder, until they
/// run out.
pub proof fn drawing_keeps_tokens_apart<L, T>(cluster: Cluster<L, T>, next: usize, later: usize)
    requires
        cluster.wf(next),
        next <= later,
    ensures
        cluster.wf(later),
{
}

/// A forwarder that takes on one server after another, each with the next token,
/// holds all of them and no others beside those it had. `states[i]` is the
/// forwarder before `servers[i]` is added. This holds until the tokens run out.
pub proof fn every_server_is_added<L, T>(
    states: Seq<Cluster<L, T>>,
    servers: Seq<ForwardServer<L>>,
    next: usize,
)
    requires
        states.len() == servers.len() + 1,
        next + servers.len() <= usize::MAX,
        states[0].wf(next),
        forall|i: int|
            0 <= i < servers.len() ==> (#[trigger] servers[i]).token.0 == next + i
                && states[i].adds(servers[i], &states[i + 1]),
    ensures
        states.last().wf((next + servers.len()) as usize),
        forall|i: int|
            0 <= i < servers.len() ==> states.last().servers@.contains_key(
                (#[trigger] servers[i]).token.0,
            ) && states.last().servers@[servers[i].token.0] == servers[i],
        forall|k: usize| #[trigger]
            states.last().servers@.contains_key(k) ==> states[0].servers@.contains_key(k) || next
                <= k < next + servers.len(),
        states.last().tunnels@ == states[0].tunnels@,
    decreases servers.len(),
{
    if servers.len() > 0 {
        let n = servers.len() - 1;
        let earlier = states.drop_last();
        assert forall|i: int| 0 <= i < n implies (#[trigger] servers.drop_last()[i]).token.0 == next
            + i && earlier[i].adds(servers.drop_last()[i], &earlier[i + 1]) by {
            assert(servers.drop_last()[i] == servers[i]);
        }
        every_server_is_added(earlier, servers.drop_last(), next);
        assert(servers[n].token.0 == next + n);
        assert(states[n].adds(servers[n], &states[n + 1]));
        assert forall|i: int| 0 <= i < servers.len() implies states.last().servers@.contains_key(
            (#[trigger] servers[i]).token.0,
        ) && states.last().servers@[servers[i].token.0] == servers[i] by {
            if i < n {
                assert(servers.drop_last()[i] == servers[i]);
            }
        }
    }
}

} // verus!
