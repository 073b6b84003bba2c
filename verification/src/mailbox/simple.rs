//! The simple mailbox: a cloneable sender and a single receiver.
use vstd::prelude::*;
use crate::mailbox::mailbox::Inbox;
use crate::mailbox::mailbox::Mailbox;
use crate::mailbox::mailbox::Outbox;
use crate::mailbox::mailbox::offer;
use crate::mailbox::mailbox::take;
use crate::mailbox::Offered;
use crate::mailbox::Received;

verus! {

/// Create a new simple mailbox, represented as a sender and a receiver.
///
/// The sender can be cloned. Once all senders have been dropped, the
/// receiver will receive `Closed`.
pub fn new<T: std::fmt::Debug + Sync + Send + 'static>() -> (halves: (Outbox<T>, Inbox<T>)) {
    Mailbox::new().split()
}

impl<T: Sync + Send + 'static> crate::mailbox::Sender<T> for Outbox<T> {
    fn try_send(&self, t: T) -> (out: Offered<T>) {
        offer(&self.tx, t)
    }
}

impl<T: Sync + Send + 'static> crate::mailbox::Receiver<T> for Inbox<T> {
    fn try_recv(&mut self) -> Received<T> {
        take(&mut self.rx)
    }
}

} // verus!
