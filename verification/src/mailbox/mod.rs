//! Mailboxes provide for communication between actors.
//!
//! Most mailboxes have two "halves", similar to a channel or a pipe. The
//! sender and receiver halves are typically distributed to different actors
//! to allow communication between those actors. Some mailboxes allow cloning
//! the senders to support fan-in. Finally, some mailboxes only have a
//! receiver. These are typically used within a single actor to manage timers
//! or other internal events.
//!
//! Nothing here suspends. A receiver is asked whether a message is there, a
//! sender whether a message can go now; the caller decides how to wait.
use vstd::prelude::*;

pub mod mailbox;
pub mod oneshot;
pub mod simple;
pub mod stop;
pub mod timer;

pub use mailbox::Inbox;
pub use mailbox::Mailbox;
pub use mailbox::Outbox;
pub use oneshot::Oneshot;
pub use oneshot::OneshotInbox;
pub use oneshot::OneshotOutbox;
pub use stop::Stop;
pub use stop::Stopper;
pub use timer::Timer;
pub use timer::Wait;

verus! {

/// What asking a receiver for a message gave.
#[derive(Debug, PartialEq, Eq)]
pub enum Received<T> {
    /// A message was waiting.
    Message(T),
    /// Nothing is waiting now, but a sender is still there.
    Empty,
    /// Nothing is waiting and every sender is gone: no message will ever
    /// come.
    Closed,
}

/// What offering a message to a sender gave.
#[derive(Debug, PartialEq, Eq)]
pub enum Offered<T> {
    /// The message was taken.
    Sent,
    /// There is no room now. The message comes back.
    Full(T),
    /// The receiver is gone. The message comes back.
    Closed(T),
}

impl<T> Offered<T> {
    /// The message that came back from the offer, if one did.
    pub open spec fn returned(self) -> Option<T> {
        match self {
            Offered::Sent => None,
            Offered::Full(t) => Some(t),
            Offered::Closed(t) => Some(t),
        }
    }
}

/// A Receiver allows consumption of incoming messages. Typically a receiver
/// will be used as input by a single actor.
pub trait Receiver<T: Sync + Send + 'static>: Send + Sync + 'static {
    /// Take the next message from the mailbox if one is waiting.
    fn try_recv(&mut self) -> Received<T>;
}

/// A MultiReceiver is a Receiver that can be cloned. When multiple receivers
/// exist, a message in the mailbox will be received by exactly one receiver.
pub trait MultiReceiver<T: Sync + Send + 'static>: Clone + Receiver<T> {

}

impl<T, S> MultiReceiver<T> for S where T: Send + Sync + 'static, S: Receiver<T> + Clone {

}

/// A Sender allows sending messages. Typically a sender will be used by one
/// or more actors to send messages to another actor.
pub trait Sender<T: Sync + Send + 'static>: Send + Sync + 'static {
    /// Offer a message to the mailbox. The mailbox either takes it or hands
    /// the same message back.
    fn try_send(&self, t: T) -> (out: Offered<T>)
        ensures
            out.returned() is Some ==> out.returned() == Some(t),
    ;
}

/// A MultiSender is a Sender that can be cloned. All clones of a MultiSender
/// send to the same mailbox.
pub trait MultiSender<T: Sync + Send + 'static>: Clone + Sender<T> {

}

impl<T, S> MultiSender<T> for S where T: Send + Sync + 'static, S: Sender<T> + Clone {

}

} // verus!
