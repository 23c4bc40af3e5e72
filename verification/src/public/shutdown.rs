//! The shutdown bus: one signal for many waiters.
//!
//! Every long-lived task holds a receiver and stops when the signal is up.
//! The side that raises the signal waits until every receiver has been
//! released. The signal is monotonic: once up it stays up.

use vstd::prelude::*;

verus! {

/// The bus as a mathematical value.
pub struct SignalView {
    /// The shutdown signal is up.
    pub signalled: bool,
    /// The sending side is gone.
    pub closed: bool,
    /// Receivers handed out and not yet released.
    pub receivers: nat,
}

/// The operations on the bus.
pub enum SignalOp {
    Subscribe,
    Release,
    Shutdown,
    Close,
}

impl SignalView {
    /// The bus as `new` leaves it: signal down, sender alive, one receiver.
    pub open spec fn initial() -> SignalView {
        SignalView { signalled: false, closed: false, receivers: 1 }
    }

    /// A waiter is let go: the signal is up or nobody is left to raise it.
    pub open spec fn released(self) -> bool {
        self.signalled || self.closed
    }

    /// Every receiver has been released.
    pub open spec fn drained(self) -> bool {
        self.receivers == 0
    }

    pub open spec fn subscribe(self) -> SignalView {
        SignalView { receivers: self.receivers + 1, ..self }
    }

    pub open spec fn release(self) -> SignalView {
        SignalView { receivers: if self.receivers > 0 { (self.receivers - 1) as nat } else { 0 }, ..self }
    }

    pub open spec fn shutdown(self) -> SignalView {
        SignalView { signalled: true, ..self }
    }

    pub open spec fn close(self) -> SignalView {
        SignalView { closed: true, ..self }
    }

    pub open spec fn apply(self, op: SignalOp) -> SignalView {
        match op {
            SignalOp::Subscribe => self.subscribe(),
            SignalOp::Release => self.release(),
            SignalOp::Shutdown => self.shutdown(),
            SignalOp::Close => self.close(),
        }
    }

    /// The bus after `n` receivers were released.
    pub open spec fn release_n(self, n: nat) -> SignalView
        decreases n,
    {
        if n == 0 {
            self
        } else {
            self.release_n((n - 1) as nat).release()
        }
    }

    /// The bus after `ops`, applied from the first to the last.
    pub open spec fn apply_all(self, ops: Seq<SignalOp>) -> SignalView
        decreases ops.len(),
    {
        if ops.len() == 0 {
            self
        } else {
            self.apply_all(ops.drop_last()).apply(ops.last())
        }
    }
}

/// The state of one shutdown bus.
#[derive(Debug)]
pub struct Signal {
    signalled: bool,
    closed: bool,
    receivers: usize,
}

impl View for Signal {
    type V = SignalView;

    closed spec fn view(&self) -> SignalView {
        SignalView { signalled: self.signalled, closed: self.closed, receivers: self.receivers as nat }
    }
}

impl Signal {
    /// A bus with the signal down and one receiver handed out.
    pub fn new() -> (signal: Self)
        ensures
            signal@ == SignalView::initial(),
    {
        Signal { signalled: false, closed: false, receivers: 1 }
    }

    /// Accounts for one more receiver. It may be taken before or after the
    /// signal.
    pub fn subscribe(&mut self)
        requires
            old(self)@.receivers < usize::MAX,
        ensures
            final(self)@ == old(self)@.subscribe(),
    {
        self.receivers = self.receivers + 1;
    }

    /// Accounts for a receiver that was dropped. Returns whether it was the
    /// last one outstanding.
    pub fn release(&mut self) -> (drained: bool)
        ensures
            final(self)@ == old(self)@.release(),
            drained == final(self)@.drained(),
    {
        if self.receivers > 0 {
            self.receivers = self.receivers - 1;
        }
        self.receivers == 0
    }

    /// Raises the signal. Returns whether every receiver has been released
    /// already, in which case the caller need not wait. Raising it again
    /// changes nothing.
    pub fn shutdown(&mut self) -> (drained: bool)
        ensures
            final(self)@ == old(self)@.shutdown(),
            drained == old(self)@.drained(),
    {
        self.signalled = true;
        self.receivers == 0
    }

    /// Records that the sending side is gone.
    pub fn close(&mut self)
        ensures
            final(self)@ == old(self)@.close(),
    {
        self.closed = true;
    }

    /// Polls the bus for a waiter: `true` lets it go, because the signal is
    /// up or the sender is gone; which of the two is not told. A waiter
    /// suspends while this returns `false`.
    pub fn wait_on(&self) -> (released: bool)
        ensures
            released == self@.released(),
    {
        self.signalled || self.closed
    }

    /// Receivers handed out and not yet released.
    pub fn receivers(&self) -> (receivers: usize)
        ensures
            receivers == self@.receivers,
    {
        self.receivers
    }

    /// Polls the bus for the side that raised the signal: `true` when no
    /// receiver is outstanding.
    pub fn drained(&self) -> (drained: bool)
        ensures
            drained == self@.drained(),
    {
        self.receivers == 0
    }
}

/// No operation lowers the signal: a bus that lets a waiter go lets every
/// later waiter go at once, whatever happened in between.
pub proof fn lemma_shutdown_monotonic(signal: SignalView, ops: Seq<SignalOp>)
    requires
        signal.released(),
    ensures
        signal.apply_all(ops).released(),
    decreases ops.len(),
{
    if ops.len() > 0 {
        lemma_shutdown_monotonic(signal, ops.drop_last());
    }
}

/// Raising the signal twice is raising it once.
pub proof fn lemma_shutdown_idempotent(signal: SignalView)
    ensures
        signal.shutdown().shutdown() == signal.shutdown(),
        signal.shutdown().released(),
{
}

/// Raising the signal waits for every receiver: it leaves the count of
/// receivers as it is, and the bus is drained after as many releases as
/// receivers are outstanding, not before.
pub proof fn lemma_shutdown_waits_for_receivers(signal: SignalView, n: nat)
    ensures
        signal.shutdown().receivers == signal.receivers,
        signal.release_n(n).signalled == signal.signalled,
        signal.release_n(n).receivers == if n <= signal.receivers {
            signal.receivers - n
        } else {
            0
        },
        signal.release_n(n).drained() <==> n >= signal.receivers,
    decreases n,
{
    if n > 0 {
        lemma_shutdown_waits_for_receivers(signal, (n - 1) as nat);
    }
}

} // verus!
