//! The timer daemon: one tick per interval until told to stop.

use crate::channel::{await_shutdown, post, Delivery, ShutdownWait};
use std::sync::mpsc::{Receiver, Sender};
use std::time::Duration;
use vstd::prelude::*;

verus! {

/// What one round of the daemon came to.
#[derive(Clone, Copy, Debug, PartialEq, Eq, Structural)]
pub enum Round {
    /// The interval ran out and the tick line took a tick.
    Ticked,
    /// The interval ran out, but nobody is left to read ticks.
    ReceiverGone,
    /// The shutdown signal came.
    Signalled,
    /// The shutdown line hung up without a signal.
    Orphaned,
    /// The daemon had stopped before: it waited for nothing and sent nothing.
    Retired,
}

impl Round {
    /// Only a round that delivered its tick is followed by another wait.
    pub open spec fn keeps_running(self) -> bool {
        self is Ticked
    }

    /// The round that a wait ends by itself; `None` where a tick is due.
    pub open spec fn after_wait(wait: ShutdownWait) -> Option<Round> {
        match wait {
            ShutdownWait::Elapsed => None,
            ShutdownWait::Signalled => Some(Round::Signalled),
            ShutdownWait::Disconnected => Some(Round::Orphaned),
        }
    }

    /// The round that ends with the attempt to send its tick.
    pub open spec fn after_send(sent: Delivery) -> Round {
        match sent {
            Delivery::Delivered => Round::Ticked,
            Delivery::Refused => Round::ReceiverGone,
        }
    }

    /// Whether the daemon goes on to another round after this one.
    pub fn goes_on(&self) -> (go: bool)
        ensures
            go == self.keeps_running(),
    {
        match self {
            Round::Ticked => true,
            _ => false,
        }
    }

    /// Decides what follows a wait on the shutdown line: a signal or a hang-up
    /// ends the round and the daemon; a wait that ran out ends nothing yet,
    /// because its tick is still to be sent.
    pub fn conclude_wait(wait: ShutdownWait) -> (round: Option<Round>)
        ensures
            round == Round::after_wait(wait),
    {
        match wait {
            ShutdownWait::Elapsed => None,
            ShutdownWait::Signalled => Some(Round::Signalled),
            ShutdownWait::Disconnected => Some(Round::Orphaned),
        }
    }

    /// Decides what follows the attempt to send a tick: a failed send is never
    /// tried again, it ends the daemon.
    pub fn conclude_send(sent: Delivery) -> (round: Round)
        ensures
            round == Round::after_send(sent),
    {
        match sent {
            Delivery::Delivered => Round::Ticked,
            Delivery::Refused => Round::ReceiverGone,
        }
    }
}

/// The timer daemon of one [`Ticker`](crate::handle::Ticker).
///
/// While it runs it owns the sending end of the tick line and the receiving
/// end of the shutdown line. When it stops it lets go of both, so the handle,
/// once it has read the ticks still queued, finds the tick line hung up.
pub struct Daemon {
    lines: Option<(Sender<()>, Receiver<()>)>,
    interval: Duration,
}

impl Daemon {
    /// The timeout of each wait on the shutdown line.
    pub closed spec fn interval(&self) -> Duration {
        self.interval
    }

    /// The line ends that the daemon holds: the sending end of the tick line
    /// and the receiving end of the shutdown line, or nothing once it has
    /// stopped.
    pub closed spec fn held(&self) -> Option<(Sender<()>, Receiver<()>)> {
        self.lines
    }

    /// Whether the daemon still holds its lines.
    pub open spec fn is_running(&self) -> bool {
        self.held() is Some
    }

    /// Whether `round` can be what a daemon does next: a stopped daemon only
    /// retires, a running one never does.
    pub open spec fn admits(running: bool, round: Round) -> bool {
        running != (round is Retired)
    }

    /// A running daemon on the given ends.
    pub(crate) fn new(ticks: Sender<()>, shutdown: Receiver<()>, interval: Duration) -> (daemon: Daemon)
        ensures
            daemon.held() == Some((ticks, shutdown)),
            daemon.interval() == interval,
    {
        Daemon { lines: Some((ticks, shutdown)), interval }
    }

    /// Whether the daemon has not stopped yet.
    pub fn running(&self) -> (running: bool)
        ensures
            running == self.is_running(),
    {
        self.lines.is_some()
    }

    /// Runs one round: waits on the shutdown line for one interval and, if
    /// nothing came, sends one tick.
    ///
    /// Which round it is lies with the clock and with the handle. Whatever it
    /// is, the daemon runs on exactly if the tick was delivered, and then on
    /// the lines it had; otherwise it lets go of them. A daemon that had
    /// stopped does nothing at all.
    pub fn step(&mut self) -> (round: Round)
        ensures
            Daemon::admits(old(self).is_running(), round),
            final(self).is_running() == round.keeps_running(),
            round.keeps_running() ==> final(self).held() == old(self).held(),
            !round.keeps_running() ==> final(self).held() is None,
            final(self).interval() == old(self).interval(),
    {
        let round = match &self.lines {
            None => Round::Retired,
            Some((ticks, shutdown)) => {
                match Round::conclude_wait(await_shutdown(shutdown, self.interval)) {
                    Some(round) => round,
                    None => Round::conclude_send(post(ticks)),
                }
            },
        };
        if !round.goes_on() {
            self.lines = None;
        }
        round
    }
}

/// Whether the daemon is running when round `i` of `rounds` begins, the rounds
/// being counted from the daemon's start.
pub open spec fn running_before(rounds: Seq<Round>, i: int) -> bool {
    i == 0 || rounds[i - 1].keeps_running()
}

/// Whether `rounds` can be what successive calls of [`Daemon::step`] return
/// for one daemon, from its start onwards.
pub open spec fn is_run(rounds: Seq<Round>) -> bool {
    forall|i: int|
        0 <= i < rounds.len() ==> Daemon::admits(#[trigger] running_before(rounds, i), rounds[i])
}

/// A run stays a run when one more step is taken: whatever `step` returns for
/// a daemon that has gone through `rounds` may be put at their end.
pub proof fn lemma_run_grows(rounds: Seq<Round>, round: Round)
    requires
        is_run(rounds),
        Daemon::admits(running_before(rounds, rounds.len() as int), round),
    ensures
        is_run(rounds.push(round)),
{
    let longer = rounds.push(round);
    assert forall|i: int| 0 <= i < longer.len() implies Daemon::admits(
        #[trigger] running_before(longer, i),
        longer[i],
    ) by {
        if i < rounds.len() {
            assert(running_before(longer, i) == running_before(rounds, i));
        }
    }
}

/// A stop is final. Once a round of a run has not delivered its tick, every
/// later round is `Retired`: the daemon waits for nothing and sends nothing,
/// however often it is stepped again.
pub proof fn lemma_stop_is_final(rounds: Seq<Round>, i: int, j: int)
    requires
        is_run(rounds),
        0 <= i < j < rounds.len(),
        !rounds[i].keeps_running(),
    ensures
        rounds[j] is Retired,
    decreases j - i,
{
    if i + 1 < j {
        lemma_stop_is_final(rounds, i, j - 1);
    }
    assert(!running_before(rounds, j));
}

/// The ticks of a run come first. Every round before a round that delivered a
/// tick delivered one too, so the `n`-th tick is sent by the `n`-th round and
/// after `n` waits that ran out.
pub proof fn lemma_ticks_come_first(rounds: Seq<Round>, i: int, j: int)
    requires
        is_run(rounds),
        0 <= i < j < rounds.len(),
        rounds[j] is Ticked,
    ensures
        rounds[i] is Ticked,
{
    if !rounds[i].keeps_running() {
        lemma_stop_is_final(rounds, i, j);
    }
}

/// Shutdown stops the daemon within the round. A wait that ends with the
/// signal, or with the shutdown line hung up, ends the round then and there:
/// no tick is sent, and the daemon does not run on.
pub proof fn lemma_shutdown_stops(wait: ShutdownWait)
    requires
        !(wait is Elapsed),
    ensures
        Round::after_wait(wait) is Some,
        !Round::after_wait(wait)->0.keeps_running(),
        forall|sent: Delivery| Round::after_wait(wait)->0 != Round::after_send(sent),
{
}


} // verus!
