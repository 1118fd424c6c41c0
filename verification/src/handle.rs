//! The handle: the owner of the sequence, which lets one element through per
//! tick.

use crate::channel::{await_tick, open_line, post, TickWait};
use crate::daemon::Daemon;
use std::sync::mpsc::{Receiver, Sender};
use std::time::Duration;
use vstd::prelude::*;
use vstd::std_specs::iter::IteratorSpec;

verus! {

/// The tick line hung up: the daemon is gone and no tick is left to read.
///
/// This is not the end of the sequence, and never passes for it.
#[derive(Clone, Copy, Debug, PartialEq, Eq, Structural)]
pub struct Disconnected;

/// What a sequence yields when it is asked once: the first of the elements
/// that remain, or `None` at its end.
pub open spec fn next_of<T>(remaining: Seq<T>) -> Option<T> {
    if remaining.len() > 0 {
        Some(remaining[0])
    } else {
        None
    }
}

/// What remains of a sequence after it was asked once: all but the first
/// element, and nothing where nothing was left.
pub open spec fn rest_of<T>(remaining: Seq<T>) -> Seq<T> {
    if remaining.len() > 0 {
        remaining.drop_first()
    } else {
        remaining
    }
}

/// What remains of a sequence after it was asked `asked` times in a row.
pub open spec fn rest_after<T>(remaining: Seq<T>, asked: nat) -> Seq<T>
    decreases asked,
{
    if asked == 0 {
        remaining
    } else {
        rest_of(rest_after(remaining, (asked - 1) as nat))
    }
}

/// Lets `src` move on by one element if a tick arrived, and leaves it alone if
/// the line hung up.
///
/// The tick is spent whether or not the sequence has an element left: the end
/// of the sequence is found out after the tick, not before it. Where the
/// sequence keeps the iterator laws, an empty one stays empty, so every later
/// tick finds the end again.
pub fn advance<I: Iterator>(src: &mut I, tick: TickWait) -> (out: Result<
    Option<I::Item>,
    Disconnected,
>)
    ensures
        tick is Arrived <==> out is Ok,
        tick is Disconnected ==> *final(src) == *old(src),
        (*final(src)).obeys_prophetic_iter_laws() == (*old(src)).obeys_prophetic_iter_laws(),
        tick is Arrived && (*old(src)).obeys_prophetic_iter_laws() ==> {
            &&& out == Ok::<Option<I::Item>, Disconnected>(next_of((*old(src)).remaining()))
            &&& (*final(src)).remaining() == rest_of((*old(src)).remaining())
        },
{
    match tick {
        TickWait::Arrived => Ok(src.next()),
        TickWait::Disconnected => Err(Disconnected),
    }
}

/// Ticks spent in a row hand the sequence out in order, one element each.
///
/// After `asked` ticks that arrived, the first `asked` elements are gone and
/// no others, so the next tick yields element number `asked`; once the
/// sequence is through, nothing is left and every further tick yields `None`.
pub proof fn lemma_ticks_in_a_row<T>(remaining: Seq<T>, asked: nat)
    ensures
        rest_after(remaining, asked) == if asked <= remaining.len() {
            remaining.skip(asked as int)
        } else {
            Seq::<T>::empty()
        },
        next_of(rest_after(remaining, asked)) == if asked < remaining.len() {
            Some(remaining[asked as int])
        } else {
            None
        },
    decreases asked,
{
    if asked == 0 {
        assert(remaining.skip(0) =~= remaining);
    } else {
        let before = (asked - 1) as nat;
        lemma_ticks_in_a_row(remaining, before);
        if asked <= remaining.len() {
            assert(remaining.skip(before as int).drop_first() =~= remaining.skip(asked as int));
        } else if before == remaining.len() {
            assert(remaining.skip(before as int) =~= Seq::<T>::empty());
        }
    }
}

/// A rate limiter over the sequence `I`.
///
/// It owns the sequence, the receiving end of the tick line and the sending
/// end of the shutdown line. The sequence is reached through the handle only.
/// When the handle is dropped it sends the shutdown signal, once, and does not
/// wait for the daemon to go.
pub struct Ticker<I: Iterator> {
    src: I,
    recv: Receiver<()>,
    kill: Sender<()>,
}

impl<I: Iterator> Ticker<I> {
    /// The sequence as it stands.
    pub closed spec fn source(&self) -> I {
        self.src
    }

    /// The two line ends that the handle holds: the receiving end of the tick
    /// line and the sending end of the shutdown line.
    pub closed spec fn lines(&self) -> (Receiver<()>, Sender<()>) {
        (self.recv, self.kill)
    }

    /// Makes a handle over `src` and the daemon that ticks for it once every
    /// `interval`.
    ///
    /// The daemon is handed back for the host to run: the handle yields
    /// nothing until [`Daemon::step`] has sent a tick. No interval is refused;
    /// with an interval of zero every wait runs out at once, and the daemon
    /// ticks as fast as it is stepped.
    pub fn new(src: I, interval: Duration) -> (made: (Ticker<I>, Daemon))
        ensures
            made.0.source() == src,
            made.1.is_running(),
            made.1.interval() == interval,
    {
        let (send, recv) = open_line();
        let (kill, kill_recv) = open_line();
        (Ticker { src, recv, kill }, Daemon::new(send, kill_recv, interval))
    }

    /// Turns the handle into its iterating form. It is the same handle: the
    /// sequence is untouched, the line ends are carried over, no signal is
    /// sent.
    pub fn into_iter(self) -> (iter: TickIter<I>)
        ensures
            iter.source() == self.source(),
            iter.lines() == self.lines(),
    {
        TickIter { ticker: self }
    }
}

impl<I: Iterator> Drop for Ticker<I> {
    /// Sends the shutdown signal. A daemon that has already gone is no fault.
    /// Whatever became of the signal, the sequence is not moved on and the
    /// line ends are the handle's own until it is gone.
    fn drop(&mut self)
        ensures
            final(self).source() == old(self).source(),
            final(self).lines() == old(self).lines(),
        opens_invariants none
        no_unwind
    {
        let _ = post(&self.kill);
    }
}

/// The iterating form of a [`Ticker`]: each call of [`TickIter::next`] waits
/// for one tick and then moves the sequence on by one element.
pub struct TickIter<I: Iterator> {
    ticker: Ticker<I>,
}

impl<I: Iterator> TickIter<I> {
    /// The sequence as it stands.
    pub closed spec fn source(&self) -> I {
        self.ticker.src
    }

    /// The two line ends of the handle inside.
    pub closed spec fn lines(&self) -> (Receiver<()>, Sender<()>) {
        self.ticker.lines()
    }

    /// Blocks until a tick arrives, then returns the next element of the
    /// sequence, or `None` at its end.
    ///
    /// Whether a tick arrives lies with the daemon. If the line hangs up
    /// instead, the call fails and the sequence is left alone. Otherwise the
    /// result is what [`advance`] gives for a tick that arrived. Either way
    /// the handle keeps its line ends.
    pub fn next(&mut self) -> (out: Result<Option<I::Item>, Disconnected>)
        ensures
            final(self).lines() == old(self).lines(),
            out is Err ==> final(self).source() == old(self).source(),
            final(self).source().obeys_prophetic_iter_laws() == old(
                self,
            ).source().obeys_prophetic_iter_laws(),
            out is Ok && old(self).source().obeys_prophetic_iter_laws() ==> {
                &&& out == Ok::<Option<I::Item>, Disconnected>(
                    next_of(old(self).source().remaining()),
                )
                &&& final(self).source().remaining() == rest_of(old(self).source().remaining())
            },
    {
        let tick = await_tick(&self.ticker.recv);
        advance(&mut self.ticker.src, tick)
    }
}

} // verus!
