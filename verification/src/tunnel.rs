//! Tunnels: a client's connection and the one opened for it to the remote.

use crate::addr::SocketAddr;
use crate::error::{create_broken_err, is_would_block_err, IoError};
use crate::relay::{
    read_next, transfer_answers, transfer_step, write_next, write_target, PendingWrite, ReadStep,
    RelayEvent, RelayState, WriteStep, TRANSFER_BUF_CAPACITY,
};
use crate::token::Token;
use vstd::prelude::*;

verus! {

/// One of the two sockets of a tunnel.
#[derive(Clone, Copy, Debug, PartialEq, Eq, Structural)]
pub enum Side {
    Source,
    Target,
}

/// What to do on the way to having both sockets of a tunnel registered.
#[derive(Debug, PartialEq, Eq)]
pub enum RegisterStep<T, E> {
    /// Register this socket under this token, for reading.
    Register(Side, Token),
    /// The registration is over.
    Done(Result<T, E>),
}

/// What to do on the way to having both sockets of a tunnel deregistered.
#[derive(Debug, PartialEq, Eq)]
pub enum DeregisterStep<E> {
    /// Deregister this socket.
    Deregister(Side),
    /// The deregistration is over.
    Done(Result<bool, E>),
}

/// A tunnel of the forwarder: the client's socket, and the remote's once the
/// connection to it stands.
#[derive(Debug)]
pub struct TcpTun<S> {
    pub source_token: Token,
    pub target_token: Token,
    pub source: S,
    pub target: Option<S>,
    pub source_addr: SocketAddr,
    pub target_addr: SocketAddr,
}

impl<S> TcpTun<S> {
    /// Whether the connection to the remote stands.
    pub fn is_established(&self) -> (r: bool)
        ensures
            r == (self.target is Some),
    {
        self.target.is_some()
    }

    /// Takes in the outcome of connecting to `target_addr`.
    pub fn establish<E>(&mut self, connected: Result<S, E>) -> (r: Result<bool, E>)
        ensures
            match connected {
                Ok(stream) => r == Ok::<bool, E>(true) && *final(self) == (TcpTun {
                    target: Some(stream),
                    ..*old(self)
                }),
                Err(e) => r == Err::<bool, E>(e) && *final(self) == *old(self),
            },
    {
        match connected {
            Ok(stream) => {
                self.target = Some(stream);
                Ok(true)
            },
            Err(e) => Err(e),
        }
    }

    /// The sockets that data on the one named by `from_token` goes from and to.
    pub fn ends(&mut self, from_token: Token) -> (r: (&mut S, &mut S))
        requires
            old(self).target is Some,
        ensures
            from_token == old(self).source_token ==> {
                &&& *r.0 == old(self).source
                &&& Some(*r.1) == old(self).target
                &&& *final(self) == (TcpTun {
                    source: *final(r.0),
                    target: Some(*final(r.1)),
                    ..*old(self)
                })
            },
            from_token != old(self).source_token ==> {
                &&& Some(*r.0) == old(self).target
                &&& *r.1 == old(self).source
                &&& *final(self) == (TcpTun {
                    source: *final(r.1),
                    target: Some(*final(r.0)),
                    ..*old(self)
                })
            },
    {
        if from_token == self.source_token {
            (&mut self.source, self.target.as_mut().unwrap())
        } else {
            (self.target.as_mut().unwrap(), &mut self.source)
        }
    }

    /// Registers the client's socket, then the remote's, and stops at the first
    /// failure. `previous` is the outcome of the last registration, if any.
    pub fn register<E>(&self, previous: Option<(Side, Result<(), E>)>) -> (r: RegisterStep<bool, E>)
        requires
            previous matches Some((Side::Source, Ok(_))) ==> self.target is Some,
        ensures
            r == match previous {
                None => RegisterStep::Register(Side::Source, self.source_token),
                Some((_, Err(e))) => RegisterStep::Done(Err(e)),
                Some((Side::Source, Ok(_))) => RegisterStep::Register(
                    Side::Target,
                    self.target_token,
                ),
                Some((Side::Target, Ok(_))) => RegisterStep::Done(Ok(true)),
            },
    {
        match previous {
            None => RegisterStep::Register(Side::Source, self.source_token),
            Some((_, Err(e))) => RegisterStep::Done(Err(e)),
            Some((Side::Source, Ok(_))) => RegisterStep::Register(Side::Target, self.target_token),
            Some((Side::Target, Ok(_))) => RegisterStep::Done(Ok(true)),
        }
    }

    /// Deregisters the client's socket, then the remote's, and stops at the
    /// first failure. `previous` is the outcome of the last deregistration.
    pub fn deregister<E>(&self, previous: Option<(Side, Result<(), E>)>) -> (r: DeregisterStep<E>)
        requires
            previous matches Some((Side::Source, Ok(_))) ==> self.target is Some,
        ensures
            r == match previous {
                None => DeregisterStep::Deregister(Side::Source),
                Some((_, Err(e))) => DeregisterStep::Done(Err(e)),
                Some((Side::Source, Ok(_))) => DeregisterStep::Deregister(Side::Target),
                Some((Side::Target, Ok(_))) => DeregisterStep::Done(Ok(true)),
            },
    {
        match previous {
            None => DeregisterStep::Deregister(Side::Source),
            Some((_, Err(e))) => DeregisterStep::Done(Err(e)),
            Some((Side::Source, Ok(_))) => DeregisterStep::Deregister(Side::Target),
            Some((Side::Target, Ok(_))) => DeregisterStep::Done(Ok(true)),
        }
    }

    /// One step of copying what one end of the tunnel sends to the other, until
    /// there is nothing to read. A read that would block ends the copying in
    /// good order, any other failed read or the end of the connection that is
    /// read ends it in `Failed`. What becomes of the writes does not matter.
    pub fn transfer_data(state: RelayState, event: RelayEvent) -> (next: RelayState)
        requires
            transfer_answers(state, event),
        ensures
            transfer_step(state, event, next),
            next matches RelayState::Writing { pending, .. } ==> pending.wf(),
    {
        match (state, event) {
            (RelayState::Reading { count }, RelayEvent::Read(result)) => {
                match Self::read_write(result) {
                    ReadStep::Forward(pending) => RelayState::Writing { count, pending },
                    ReadStep::Closed => RelayState::SourceClosed,
                    ReadStep::Done(Ok(_)) => RelayState::Drained { count },
                    ReadStep::Done(Err(error)) => RelayState::Failed { error },
                }
            },
            (RelayState::Writing { count, pending }, RelayEvent::Written(result)) => {
                match Self::write_to(pending, result) {
                    WriteStep::Again(rest) => RelayState::Writing { count, pending: rest },
                    WriteStep::Closed => RelayState::TargetClosed { count, size: pending.size },
                    WriteStep::Done(_) => RelayState::Reading { count: count + pending.size },
                }
            },
            (RelayState::TargetClosed { count, size }, RelayEvent::Peer(_)) => {
                RelayState::Reading { count: count + size }
            },
            (_, RelayEvent::Peer(peer)) => {
                RelayState::Failed { error: create_broken_err(peer.as_str()) }
            },
            // No event but the outcome of the operation that is due gets here.
            (state, _) => state,
        }
    }

    /// Decides what follows a read, which took in no more than the buffer holds.
    pub fn read_write(result: Result<usize, IoError>) -> (r: ReadStep)
        requires
            result matches Ok(count) ==> count <= TRANSFER_BUF_CAPACITY,
        ensures
            r == read_next(result),
            r matches ReadStep::Forward(pending) ==> pending.wf(),
    {
        match result {
            Ok(current_count) => {
                if current_count > 0 {
                    ReadStep::Forward(PendingWrite { start_index: 0, size: current_count })
                } else {
                    ReadStep::Closed
                }
            },
            Err(err) => {
                if is_would_block_err(&err) {
                    ReadStep::Done(Ok(0))
                } else {
                    ReadStep::Done(Err(err))
                }
            },
        }
    }

    /// Decides what follows a write of the range `pending`.
    pub fn write_to(pending: PendingWrite, result: Result<usize, IoError>) -> (r: WriteStep)
        requires
            pending.wf(),
        ensures
            r == write_next(pending, result),
            r matches WriteStep::Again(rest) ==> rest.wf(),
    {
        write_target(pending, result)
    }
}

} // verus!
