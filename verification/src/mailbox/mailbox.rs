//! The plain mailbox: a channel with room for one pending message.
use vstd::prelude::*;
use tokio::sync::mpsc;
use tokio::sync::mpsc::Receiver as MpscReceiver;
use tokio::sync::mpsc::Sender as MpscSender;
use crate::mailbox::Offered;
use crate::mailbox::Received;

verus! {

/// The sending half of a bounded channel.
#[verifier::external_type_specification]
#[verifier::external_body]
#[verifier::reject_recursive_types(T)]
pub struct ExMpscSender<T>(MpscSender<T>);

/// The receiving half of a bounded channel.
#[verifier::external_type_specification]
#[verifier::external_body]
#[verifier::reject_recursive_types(T)]
pub struct ExMpscReceiver<T>(MpscReceiver<T>);

/// The number of messages that a mailbox holds for its receiver.
pub const CAPACITY: usize = 1;

/// Calls `tokio::sync::mpsc::channel`, which makes a channel that buffers
/// `buffer` messages. That function panics on a buffer of zero and on one
/// above an eighth of `usize::MAX`, so neither is let in. Nothing is claimed
/// of the two halves that come back.
#[verifier::external_body]
pub(crate) fn bounded_channel<T>(buffer: usize) -> (pair: (MpscSender<T>, MpscReceiver<T>))
    requires
        0 < buffer <= usize::MAX / 8,
{
    mpsc::channel(buffer)
}

/// Calls `tokio::sync::mpsc::Sender::try_send` and renames its three
/// outcomes. Which of them comes back depends on the other half of the
/// channel. All that is claimed is what holds of each: a message that was
/// not taken comes back as it was given.
#[verifier::external_body]
pub(crate) fn offer<T>(tx: &MpscSender<T>, t: T) -> (out: Offered<T>)
    ensures
        out.returned() is Some ==> out.returned() == Some(t),
{
    match tx.try_send(t) {
        Ok(()) => Offered::Sent,
        Err(mpsc::error::TrySendError::Full(t)) => Offered::Full(t),
        Err(mpsc::error::TrySendError::Closed(t)) => Offered::Closed(t),
    }
}

/// Calls `tokio::sync::mpsc::Receiver::try_recv` and renames its three
/// outcomes. Which of them comes back depends on the other half of the
/// channel, so nothing is claimed of it.
#[verifier::external_body]
pub(crate) fn take<T>(rx: &mut MpscReceiver<T>) -> (out: Received<T>) {
    match rx.try_recv() {
        Ok(t) => Received::Message(t),
        Err(mpsc::error::TryRecvError::Empty) => Received::Empty,
        Err(mpsc::error::TryRecvError::Disconnected) => Received::Closed,
    }
}

/// Calls `clone` on a `tokio::sync::mpsc::Sender`, which gives another handle
/// to the same channel.
#[verifier::external_body]
pub(crate) fn another<T>(tx: &MpscSender<T>) -> (out: MpscSender<T>) {
    tx.clone()
}

/// A mailbox whose two halves are still together.
#[derive(Debug)]
#[verifier::reject_recursive_types(T)]
pub struct Mailbox<T: Sync + Send + 'static> {
    tx: MpscSender<T>,
    rx: MpscReceiver<T>,
}

/// The sending half of a mailbox.
#[derive(Debug)]
#[verifier::reject_recursive_types(T)]
pub struct Outbox<T: Sync + Send + 'static> {
    pub tx: MpscSender<T>,
}

/// The receiving half of a mailbox.
#[derive(Debug)]
#[verifier::reject_recursive_types(T)]
pub struct Inbox<T: Sync + Send + 'static> {
    pub rx: MpscReceiver<T>,
}

impl<T: Sync + Send + 'static> Mailbox<T> {
    /// The sending half that `split` will hand out.
    pub closed spec fn sender(&self) -> MpscSender<T> {
        self.tx
    }

    /// The receiving half that `split` will hand out.
    pub closed spec fn receiver(&self) -> MpscReceiver<T> {
        self.rx
    }

    /// A fresh mailbox with room for one pending message.
    pub fn new() -> (m: Self) {
        let (tx, rx) = bounded_channel(CAPACITY);
        Mailbox { tx, rx }
    }

    /// Part the mailbox into its two halves.
    pub fn split(self) -> (halves: (Outbox<T>, Inbox<T>))
        ensures
            halves.0.tx == self.sender(),
            halves.1.rx == self.receiver(),
    {
        (Outbox { tx: self.tx }, Inbox { rx: self.rx })
    }
}

impl<T: Sync + Send + 'static> Clone for Outbox<T> {
    fn clone(&self) -> (other: Self) {
        Outbox { tx: another(&self.tx) }
    }
}

} // verus!
