//! A cooperative stop signal from one controller to one actor.
use vstd::prelude::*;
use tokio::sync::oneshot::Receiver as OneshotReceiver;
use tokio::sync::oneshot::Sender as OneshotSender;
use crate::mailbox::oneshot::oneshot_channel;
use crate::mailbox::oneshot::oneshot_send;
use crate::mailbox::oneshot::oneshot_take;
use crate::mailbox::Received;

verus! {

/// A Stopper provides a way to send a stop signal to a single actor.
#[derive(Debug)]
pub struct Stopper {
    tx: Option<OneshotSender<()>>,
}

/// Stop is the receiver counterpart to [`Stopper`].
#[derive(Debug)]
pub struct Stop {
    pub rx: OneshotReceiver<()>,
}

/// Whether what the signal's channel shows means "stop". A signal that was
/// sent and a controller that went away without sending both do; only a
/// channel on which nothing has happened yet does not.
pub open spec fn means_stop(seen: Received<()>) -> bool {
    !(seen is Empty)
}

impl Stopper {
    /// Whether the signal is still to be sent.
    pub closed spec fn armed(&self) -> bool {
        self.tx is Some
    }

    /// The stopper as `stop` leaves it.
    pub closed spec fn fired(&self) -> Stopper {
        Stopper { tx: None }
    }

    /// A new signal, not yet sent, and its receiving side.
    pub fn new() -> (pair: (Stopper, Stop))
        ensures
            pair.0.armed(),
    {
        let (tx, rx) = oneshot_channel();
        (Stopper { tx: Some(tx) }, Stop { rx })
    }

    /// Whether the signal is still to be sent.
    pub fn is_armed(&self) -> (b: bool)
        ensures
            b == self.armed(),
    {
        self.tx.is_some()
    }

    /// Send a stop signal to the actor. Calls after the first do nothing. If
    /// the actor has already stopped, nothing happens.
    pub fn stop(&mut self)
        ensures
            *final(self) == old(self).fired(),
            !final(self).armed(),
            !old(self).armed() ==> *final(self) == *old(self),
    {
        if let Some(tx) = self.tx.take() {
            // an error here means that the receiver is gone, and can be ignored
            let _ = oneshot_send(tx, ());
        }
    }
}

impl Stop {
    /// Decide from what the signal's channel shows whether to stop.
    pub fn observe(seen: Received<()>) -> (stopped: bool)
        ensures
            stopped == means_stop(seen),
    {
        match seen {
            Received::Empty => false,
            Received::Message(_) => true,
            Received::Closed => true,
        }
    }

    /// Look for the stop signal without waiting. The answer is `true` once
    /// the signal was sent, and also once the `Stopper` is gone: a controller
    /// that disappears counts as a stop.
    pub fn recv(&mut self) -> (stopped: bool) {
        Stop::observe(oneshot_take(&mut self.rx))
    }
}

/// Stopping twice is stopping once: the second call finds the signal sent and
/// leaves the stopper as the first call left it.
pub proof fn stop_twice_is_stop_once(s: Stopper)
    ensures
        s.fired().fired() == s.fired(),
        !s.fired().armed(),
        !s.armed() ==> s.fired() == s,
{
}

/// A controller that went away without signalling is taken exactly as one
/// that signalled.
pub proof fn dropped_controller_means_stop()
    ensures
        means_stop(Received::Closed) == means_stop(Received::Message(())),
        means_stop(Received::Closed),
        !means_stop(Received::<()>::Empty),
{
}

} // verus!
