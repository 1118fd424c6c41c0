//! The lines between the daemon and the handle.
//!
//! Both lines are `std::sync::mpsc` channels that carry `()`: the tick line
//! runs from the daemon to the handle and queues without bound, the shutdown
//! line runs the other way and is used once. What a call on a line returns
//! depends on the clock and on what the other end has done, so none of the
//! functions here promises anything about its result: each only names, as a
//! plain value, which of the documented outcomes the call had.

use std::sync::mpsc::{Receiver, RecvTimeoutError, Sender};
use std::time::Duration;
use vstd::prelude::*;

verus! {

/// `std::sync::mpsc::Receiver`, carried through as an opaque value.
#[verifier::external_type_specification]
#[verifier::external_body]
#[verifier::reject_recursive_types(T)]
pub struct ExReceiver<T>(Receiver<T>);

/// `std::sync::mpsc::Sender`, carried through as an opaque value.
#[verifier::external_type_specification]
#[verifier::external_body]
#[verifier::reject_recursive_types(T)]
pub struct ExSender<T>(Sender<T>);

/// How a wait for the next tick ended.
#[derive(Clone, Copy, Debug, PartialEq, Eq, Structural)]
pub enum TickWait {
    /// A tick was taken off the line.
    Arrived,
    /// The line is empty and its sending end is gone.
    Disconnected,
}

/// How a wait of one interval on the shutdown line ended.
#[derive(Clone, Copy, Debug, PartialEq, Eq, Structural)]
pub enum ShutdownWait {
    /// The interval ran out with nothing on the line.
    Elapsed,
    /// The shutdown signal was taken off the line.
    Signalled,
    /// The sending end went away without a signal.
    Disconnected,
}

/// What became of a message handed to a line.
#[derive(Clone, Copy, Debug, PartialEq, Eq, Structural)]
pub enum Delivery {
    /// The receiving end was still there and the message is queued.
    Delivered,
    /// The receiving end is gone; the message will never be read.
    Refused,
}

/// Opens a line with `std::sync::mpsc::channel` and returns its two ends.
/// Nothing is claimed about the ends.
#[verifier::external_body]
pub(crate) fn open_line() -> (ends: (Sender<()>, Receiver<()>)) {
    std::sync::mpsc::channel::<()>()
}

/// Puts one message on a line with `Sender::send` and reports whether the
/// line took it. Nothing is claimed about which of the two it is. The call is
/// taken not to unwind: `send` never blocks, and its documentation names no
/// panic.
#[verifier::external_body]
pub(crate) fn post(line: &Sender<()>) -> (delivery: Delivery)
    opens_invariants none
    no_unwind
{
    match line.send(()) {
        Ok(()) => Delivery::Delivered,
        Err(_) => Delivery::Refused,
    }
}

/// Blocks in `Receiver::recv` until a tick can be taken off the line or the
/// line has hung up. Nothing is claimed about which of the two it is.
#[verifier::external_body]
pub(crate) fn await_tick(line: &Receiver<()>) -> (wait: TickWait) {
    match line.recv() {
        Ok(()) => TickWait::Arrived,
        Err(_) => TickWait::Disconnected,
    }
}

/// Waits in `Receiver::recv_timeout` with `interval` as the timeout and
/// reports which of its three documented outcomes the call had. Nothing is
/// claimed about which one it is.
#[verifier::external_body]
pub(crate) fn await_shutdown(line: &Receiver<()>, interval: Duration) -> (wait: ShutdownWait) {
    match line.recv_timeout(interval) {
        Ok(()) => ShutdownWait::Signalled,
        Err(RecvTimeoutError::Timeout) => ShutdownWait::Elapsed,
        Err(RecvTimeoutError::Disconnected) => ShutdownWait::Disconnected,
    }
}

} // verus!
