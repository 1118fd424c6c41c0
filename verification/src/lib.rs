//! A rate limiter for iterators.
//!
//! A [`Ticker`] owns a sequence and hands out one element of it per tick. The
//! ticks come from a [`Daemon`]: a small periodic task that waits one interval,
//! sends one tick, and stops as soon as the handle is gone. Handle and daemon
//! share no memory; they talk over two one-way lines and nothing else.
//!
//! This crate holds the daemon's rounds and the handle's advance. It starts no
//! thread of its own: [`Ticker::new`] hands the daemon back, and the host runs
//! [`Daemon::step`] until the daemon has stopped, usually on a thread it
//! spawns for that purpose.

pub mod channel;
pub mod daemon;
pub mod handle;

pub use channel::{Delivery, ShutdownWait, TickWait};
pub use daemon::{Daemon, Round};
pub use handle::{advance, Disconnected, TickIter, Ticker};
