//! The blocking bridge.
//!
//! A blocking caller has no scheduler to run a transport on, so each
//! connection gets one of its own: single-threaded, built when the connection
//! is, owned by its context and gone with it. The scheduler is only ever lent
//! out, to drive one operation of that context at a time.
//!
//! A connection is made in two steps with the dial between them. One of the
//! `connect` functions builds the scheduler and returns a [`Connecting`]. The
//! caller dials the address on that scheduler, against a timer where a timeout
//! is set, and hands what came of it to [`Connecting::complete`].
//!
//! These functions are for a thread that runs no scheduler yet: tokio lets no
//! scheduler be driven, or dropped, from inside another.

use vstd::prelude::*;
use core::fmt::Debug;
use core::time::Duration;
use std::io::Error;
use tokio::runtime::Runtime;
use crate::client::{attach_slave, attached};
use crate::failure::{timed_out, viewed};
use crate::race::{settle, settled, Raced};
use crate::slave::Slave;

verus! {

/// `tokio::runtime::Runtime`, the scheduler; opaque.
#[verifier::external_type_specification]
#[verifier::external_body]
pub struct ExRuntime(Runtime);

/// Builds a scheduler that runs on the calling thread alone, with its I/O and
/// time drivers enabled, by `tokio::runtime::Builder`. Whether the operating
/// system grants what the scheduler needs is not known beforehand, so nothing
/// is claimed of the outcome.
#[verifier::external_body]
fn new_scheduler() -> (built: Result<Runtime, Error>) {
    tokio::runtime::Builder::new_current_thread().enable_io().enable_time().build()
}

/// A connection that has its scheduler and awaits its transport.
#[derive(Debug)]
pub struct Connecting<A> {
    runtime: Runtime,
    address: A,
    slave: Slave,
    timeout: Option<Duration>,
}

/// What a [`Connecting`] holds.
pub struct ConnectingView<A> {
    /// The scheduler to dial on.
    pub runtime: Runtime,
    /// The address to dial.
    pub address: A,
    /// The slave that the context will address.
    pub slave: Slave,
    /// How long the dial, and each later operation, may take.
    pub timeout: Option<Duration>,
}

impl<A> View for Connecting<A> {
    type V = ConnectingView<A>;

    closed spec fn view(&self) -> ConnectingView<A> {
        ConnectingView {
            runtime: self.runtime,
            address: self.address,
            slave: self.slave,
            timeout: self.timeout,
        }
    }
}

/// A client context together with the scheduler that drives it.
#[derive(Debug)]
pub struct Context<T> {
    runtime: Runtime,
    async_ctx: crate::client::Context<T>,
    timeout: Option<Duration>,
}

/// What a [`Context`] holds.
pub struct ContextView<T> {
    /// The scheduler that drives every operation of the context.
    pub runtime: Runtime,
    /// The client context that is driven.
    pub context: crate::client::ContextView<T>,
    /// How long each operation may take.
    pub timeout: Option<Duration>,
}

impl<T> View for Context<T> {
    type V = ContextView<T>;

    closed spec fn view(&self) -> ContextView<T> {
        ContextView { runtime: self.runtime, context: self.async_ctx@, timeout: self.timeout }
    }
}

/// What the first step comes to once the scheduler was asked for: a pending
/// connection that holds the scheduler, or the failure to build one.
pub open spec fn prepared<A>(
    built: Result<Runtime, Error>,
    address: A,
    slave: Slave,
    timeout: Option<Duration>,
) -> Result<ConnectingView<A>, Error> {
    match built {
        Ok(runtime) => Ok(ConnectingView { runtime, address, slave, timeout }),
        Err(failure) => Err(failure),
    }
}

/// The context that a dialled transport is wrapped into, with the scheduler
/// and the timeout of the pending connection; a failure stays as it is.
pub open spec fn wrapped<A, T>(connecting: ConnectingView<A>, dialed: Result<T, Error>) -> Result<
    ContextView<T>,
    Error,
> {
    match dialed {
        Ok(transport) => Ok(
            ContextView {
                runtime: connecting.runtime,
                context: attached(transport, connecting.slave),
                timeout: connecting.timeout,
            },
        ),
        Err(failure) => Err(failure),
    }
}

/// What the second step comes to once the dial was raced: what the race
/// settles to, wrapped.
pub open spec fn completed<A, T>(
    connecting: ConnectingView<A>,
    raced: Raced<Result<T, Error>>,
) -> Result<ContextView<T>, Error> {
    wrapped(connecting, settled(raced))
}

impl<A> ConnectingView<A> {
    /// The same pending connection, for another slave.
    pub open spec fn to_slave(self, slave: Slave) -> ConnectingView<A> {
        ConnectingView { slave, ..self }
    }
}

impl<T> ContextView<T> {
    /// The same context, addressed to another slave.
    pub open spec fn to_slave(self, slave: Slave) -> ContextView<T> {
        ContextView {
            context: crate::client::ContextView { slave, ..self.context },
            ..self
        }
    }
}

/// Takes the outcome of building a scheduler into a pending connection. A
/// failure to build one is returned as it was raised.
pub fn with_scheduler<A>(
    built: Result<Runtime, Error>,
    address: A,
    slave: Slave,
    timeout: Option<Duration>,
) -> (outcome: Result<Connecting<A>, Error>)
    ensures
        viewed(outcome) == prepared(built, address, slave, timeout),
{
    match built {
        Ok(runtime) => Ok(Connecting { runtime, address, slave, timeout }),
        Err(failure) => Err(failure),
    }
}

/// Starts a connection for broadcast messages, to no slave in particular and
/// without a timeout.
pub fn connect<A>(socket_addr: A) -> (outcome: Result<Connecting<A>, Error>)
    ensures
        exists|built: Result<Runtime, Error>|
            viewed(outcome) == #[trigger] prepared(built, socket_addr, Slave::broadcast(), None),
        outcome matches Ok(connecting) ==> connecting@.address == socket_addr
            && connecting@.slave == Slave::broadcast() && connecting@.timeout is None,
{
    connect_slave(socket_addr, Slave::broadcast())
}

/// Starts a connection for broadcast messages, to no slave in particular, with
/// a timeout.
pub fn connect_with_timeout<A>(socket_addr: A, timeout: Option<Duration>) -> (outcome: Result<
    Connecting<A>,
    Error,
>)
    ensures
        exists|built: Result<Runtime, Error>|
            viewed(outcome) == #[trigger] prepared(
                built,
                socket_addr,
                Slave::broadcast(),
                timeout,
            ),
        outcome matches Ok(connecting) ==> connecting@.address == socket_addr
            && connecting@.slave == Slave::broadcast() && connecting@.timeout == timeout,
{
    connect_slave_with_timeout(socket_addr, Slave::broadcast(), timeout)
}

/// Starts a connection to a slave, without a timeout.
pub fn connect_slave<A>(socket_addr: A, slave: Slave) -> (outcome: Result<Connecting<A>, Error>)
    ensures
        exists|built: Result<Runtime, Error>|
            viewed(outcome) == #[trigger] prepared(built, socket_addr, slave, None),
        outcome matches Ok(connecting) ==> connecting@.address == socket_addr
            && connecting@.slave == slave && connecting@.timeout is None,
{
    connect_slave_with_timeout(socket_addr, slave, None)
}

/// Starts a connection to a slave, with a timeout. The scheduler of the
/// connection is built here; where that fails the failure is returned and
/// nothing is dialled.
pub fn connect_slave_with_timeout<A>(
    socket_addr: A,
    slave: Slave,
    timeout: Option<Duration>,
) -> (outcome: Result<Connecting<A>, Error>)
    ensures
        exists|built: Result<Runtime, Error>|
            viewed(outcome) == #[trigger] prepared(built, socket_addr, slave, timeout),
        outcome matches Ok(connecting) ==> connecting@.address == socket_addr
            && connecting@.slave == slave && connecting@.timeout == timeout,
{
    with_scheduler(new_scheduler(), socket_addr, slave, timeout)
}

impl<A> Connecting<A> {
    /// The scheduler to dial on.
    pub fn runtime(&self) -> (runtime: &Runtime)
        ensures
            *runtime == self@.runtime,
    {
        &self.runtime
    }

    /// The address to dial.
    pub fn address(&self) -> (address: &A)
        ensures
            *address == self@.address,
    {
        &self.address
    }

    /// The slave that the context will address.
    pub fn slave(&self) -> (slave: Slave)
        ensures
            slave == self@.slave,
    {
        self.slave
    }

    /// How long the dial may take: with `None` it runs to its end, with a
    /// duration it is raced against a timer of that length.
    pub fn timeout(&self) -> (timeout: Option<Duration>)
        ensures
            timeout == self@.timeout,
    {
        self.timeout
    }

    /// Completes the connection from what came of the dial. A transport is
    /// attached and wrapped with the scheduler and the timeout. A failure of
    /// the dial is returned as it was raised. Where the timer came first the
    /// failure reports a timeout. On failure the scheduler goes with the
    /// pending connection, and no context is returned.
    pub fn complete<T>(self, raced: Raced<Result<T, Error>>) -> (outcome: Result<
        Context<T>,
        Error,
    >) where T: Send + Debug + 'static
        requires
            raced.answers(self@.timeout),
        ensures
            viewed(outcome) == completed(self@, raced),
            raced is Elapsed ==> (outcome matches Err(failure) && timed_out(failure)),
            self@.timeout is None ==> (raced matches Raced::Finished(dialed) && viewed(outcome)
                == wrapped(self@, dialed)),
    {
        match settle(raced) {
            Ok(transport) => Ok(
                Context {
                    runtime: self.runtime,
                    async_ctx: attach_slave(transport, self.slave),
                    timeout: self.timeout,
                },
            ),
            Err(failure) => Err(failure),
        }
    }
}

impl<T> Context<T> {
    /// The scheduler that drives the operations of this context.
    pub fn runtime(&self) -> (runtime: &Runtime)
        ensures
            *runtime == self@.runtime,
    {
        &self.runtime
    }

    /// The client context that is driven.
    pub fn async_ctx(&self) -> (context: &crate::client::Context<T>)
        ensures
            context@ == self@.context,
    {
        &self.async_ctx
    }

    /// The slave that outgoing frames are addressed to.
    pub fn slave(&self) -> (slave: Slave)
        ensures
            slave == self@.context.slave,
    {
        self.async_ctx.slave()
    }

    /// How long each operation may take: with `None` it runs to its end, with
    /// a duration it is raced against a timer of that length.
    pub fn timeout(&self) -> (timeout: Option<Duration>)
        ensures
            timeout == self@.timeout,
    {
        self.timeout
    }

    /// Lends out the scheduler and the client context side by side, to drive
    /// one operation of the context on the scheduler. Scheduler and timeout
    /// stay with the context, whatever the operation does to the client.
    pub fn parts(&mut self) -> (parts: (&Runtime, &mut crate::client::Context<T>))
        ensures
            *parts.0 == old(self)@.runtime,
            parts.1@ == old(self)@.context,
            final(self)@ == (ContextView {
                runtime: old(self)@.runtime,
                context: final(parts.1)@,
                timeout: old(self)@.timeout,
            }),
    {
        (&self.runtime, &mut self.async_ctx)
    }

    /// Settles an operation of this context that was driven on its scheduler.
    /// A result that the operation gave itself is handed on untouched; where
    /// the timer came first the failure reports a timeout. A context without a
    /// timeout sets no timer, so it makes up no failure of its own, however
    /// long the operation takes.
    pub fn settle<R>(&self, raced: Raced<Result<R, Error>>) -> (result: Result<R, Error>)
        requires
            raced.answers(self@.timeout),
        ensures
            result == settled(raced),
            raced is Elapsed ==> (result matches Err(failure) && timed_out(failure)),
            self@.timeout is None ==> (raced matches Raced::Finished(done) && result == done),
    {
        settle(raced)
    }
}

/// The slave is all that tells two connections to one address apart. Whatever
/// came of building the scheduler, and whatever came of the dial, connecting
/// to one slave comes to what connecting to another does, with the other slave
/// in its place: the same failure, or the same scheduler, transport and
/// timeout. Connecting with no slave named is connecting to the broadcast
/// slave, so this holds of it too.
pub proof fn lemma_connections_differ_by_slave_only<A, T>(
    built: Result<Runtime, Error>,
    address: A,
    timeout: Option<Duration>,
    connecting: ConnectingView<A>,
    raced: Raced<Result<T, Error>>,
    slave: Slave,
)
    ensures
        prepared(built, address, slave, timeout) == match prepared(
            built,
            address,
            Slave::broadcast(),
            timeout,
        ) {
            Ok(pending) => Ok(pending.to_slave(slave)),
            Err(failure) => Err(failure),
        },
        completed(connecting.to_slave(slave), raced) == match completed(connecting, raced) {
            Ok(context) => Ok(context.to_slave(slave)),
            Err(failure) => Err(failure),
        },
{
}

} // verus!
