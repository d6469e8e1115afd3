//! Attaching a client context to a transport.
//!
//! Attachment is pure construction: the context takes the transport over and
//! remembers the slave; no byte moves before the first exchange. A context has
//! one owner, so no second exchange can start on it while one is under way,
//! and the transport is released when the context goes.

use vstd::prelude::*;
use core::fmt::Debug;
use std::io::Error;
use crate::slave::Slave;

verus! {

/// A client bound to one transport and to the slave that its frames go to.
#[derive(Debug)]
pub struct Context<T> {
    transport: T,
    slave: Slave,
}

/// What a [`Context`] holds.
pub struct ContextView<T> {
    /// The transport that carries the exchanges.
    pub transport: T,
    /// The slave that outgoing frames are addressed to.
    pub slave: Slave,
}

impl<T> View for Context<T> {
    type V = ContextView<T>;

    closed spec fn view(&self) -> ContextView<T> {
        ContextView { transport: self.transport, slave: self.slave }
    }
}

/// The context that comes of binding a transport to a slave.
pub open spec fn attached<T>(transport: T, slave: Slave) -> ContextView<T> {
    ContextView { transport, slave }
}

/// The context that comes of binding a transport with no slave named.
pub open spec fn attached_by_default<T>(transport: T) -> ContextView<T> {
    ContextView { transport, slave: Slave::tcp_device() }
}

/// What a connection attempt comes to: a context on the transport that was
/// dialled, or the failure of the dial as it was raised.
pub open spec fn connected<T>(dialed: Result<T, Error>, slave: Slave) -> Result<
    ContextView<T>,
    Error,
> {
    match dialed {
        Ok(transport) => Ok(attached(transport, slave)),
        Err(failure) => Err(failure),
    }
}

impl<T> Context<T> {
    /// The slave that outgoing frames are addressed to.
    pub fn slave(&self) -> (slave: Slave)
        ensures
            slave == self@.slave,
    {
        self.slave
    }

    /// The transport, to look at.
    pub fn transport(&self) -> (transport: &T)
        ensures
            *transport == self@.transport,
    {
        &self.transport
    }

    /// The transport, to carry an exchange. The slave stays as it is, whatever
    /// the exchange does to the transport.
    pub fn transport_mut(&mut self) -> (transport: &mut T)
        ensures
            *transport == old(self)@.transport,
            final(self)@ == (ContextView { transport: *final(transport), slave: old(self)@.slave }),
    {
        &mut self.transport
    }
}

/// Attaches a new client context to a transport, addressed to the slave that
/// stands for a directly connected device.
pub fn attach<T>(transport: T) -> (context: Context<T>) where
    T: Send + Debug + 'static,

    ensures
        context@ == attached_by_default(transport),
{
    attach_slave(transport, Slave::tcp_device())
}

/// Attaches a new client context to a transport, addressed to the given slave.
pub fn attach_slave<T>(transport: T, slave: Slave) -> (context: Context<T>) where
    T: Send + Debug + 'static,

    ensures
        context@ == attached(transport, slave),
{
    Context { transport, slave }
}

/// Completes a connection to a directly connected device from the outcome of
/// dialling it: see [`connect_slave`].
pub fn connect<T>(dialed: Result<T, Error>) -> (outcome: Result<Context<T>, Error>) where
    T: Send + Debug + 'static,

    ensures
        crate::failure::viewed(outcome) == connected(dialed, Slave::tcp_device()),
{
    connect_slave(dialed, Slave::tcp_device())
}

/// Completes a connection to a slave from the outcome of dialling it. The
/// transport that was dialled is attached; a failure of the dial is returned
/// as it was raised, and no context with it.
pub fn connect_slave<T>(dialed: Result<T, Error>, slave: Slave) -> (outcome: Result<
    Context<T>,
    Error,
>) where T: Send + Debug + 'static
    ensures
        crate::failure::viewed(outcome) == connected(dialed, slave),
{
    match dialed {
        Ok(transport) => Ok(attach_slave(transport, slave)),
        Err(failure) => Err(failure),
    }
}

/// Attaching with no slave named is attaching to the slave of a directly
/// connected device: given the same transport, the two contexts are one and
/// the same, and every frame that either sends carries the same identifier.
pub proof fn lemma_attach_is_attach_slave_by_default<T>(transport: T)
    ensures
        attached_by_default(transport) == attached(transport, Slave::tcp_device()),
        attached_by_default(transport).slave@.spec_id() == attached(
            transport,
            Slave::tcp_device(),
        ).slave@.spec_id(),
{
}

} // verus!
