//! Transport attachment and blocking bridge for a fieldbus client.
//!
//! A [`client::Context`] binds one byte-stream transport to one [`Slave`], the
//! device that outgoing frames are addressed to. The [`sync`] module pairs such
//! a context with a scheduler of its own, so that a blocking caller can drive
//! every exchange to completion, optionally racing it against a timer.
//!
//! The library decides; it moves no byte itself. The caller dials the
//! transport and drives the exchanges, and hands the outcome of each to the
//! function that settles it.

pub mod client;
pub mod failure;
pub mod race;
pub mod slave;
pub mod sync;

pub use client::{attach, attach_slave, connect, connect_slave, Context};
pub use race::{settle, Raced};
pub use slave::{Slave, SlaveAddress, SlaveId};
