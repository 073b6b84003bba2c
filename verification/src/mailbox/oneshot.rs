//! The one-shot mailbox: it carries one value once.
use vstd::prelude::*;
use tokio::sync::oneshot;
use tokio::sync::oneshot::Receiver as OneshotReceiver;
use tokio::sync::oneshot::Sender as OneshotSender;
use crate::mailbox::Received;

verus! {

/// The sending half of a one-shot channel.
#[verifier::external_type_specification]
#[verifier::external_body]
#[verifier::reject_recursive_types(T)]
pub struct ExOneshotSender<T>(OneshotSender<T>);

/// The receiving half of a one-shot channel.
#[verifier::external_type_specification]
#[verifier::external_body]
#[verifier::reject_recursive_types(T)]
pub struct ExOneshotReceiver<T>(OneshotReceiver<T>);

/// The error with which a wait on the receiving half ends when the sender
/// went away without sending.
#[verifier::external_type_specification]
#[verifier::external_body]
pub struct ExOneshotRecvError(tokio::sync::oneshot::error::RecvError);

/// Calls `tokio::sync::oneshot::channel`. Nothing is claimed of the two
/// halves that come back.
#[verifier::external_body]
pub(crate) fn oneshot_channel<T>() -> (pair: (OneshotSender<T>, OneshotReceiver<T>)) {
    oneshot::channel()
}

/// Calls `tokio::sync::oneshot::Sender::send`, which never waits. It fails
/// where the receiver is already gone, which depends on the other half. All
/// that is claimed is that a failed send gives the value back as it was
/// given.
#[verifier::external_body]
pub(crate) fn oneshot_send<T>(tx: OneshotSender<T>, t: T) -> (out: Result<(), T>)
    ensures
        out is Err ==> out->Err_0 == t,
{
    tx.send(t)
}

/// Calls `tokio::sync::oneshot::Receiver::try_recv` and renames its three
/// outcomes. Which of them comes back depends on the other half of the
/// channel, so nothing is claimed of it.
#[verifier::external_body]
pub(crate) fn oneshot_take<T>(rx: &mut OneshotReceiver<T>) -> (out: Received<T>) {
    match rx.try_recv() {
        Ok(t) => Received::Message(t),
        Err(oneshot::error::TryRecvError::Empty) => Received::Empty,
        Err(oneshot::error::TryRecvError::Closed) => Received::Closed,
    }
}

/// A one-shot mailbox whose two halves are still together.
#[derive(Debug)]
#[verifier::reject_recursive_types(T)]
pub struct Oneshot<T: Sync + Send + 'static> {
    tx: OneshotSender<T>,
    rx: OneshotReceiver<T>,
}

/// The sending half of a one-shot mailbox.
#[derive(Debug)]
#[verifier::reject_recursive_types(T)]
pub struct OneshotOutbox<T: Sync + Send + 'static> {
    pub tx: OneshotSender<T>,
}

/// The receiving half of a one-shot mailbox.
#[derive(Debug)]
#[verifier::reject_recursive_types(T)]
pub struct OneshotInbox<T: Sync + Send + 'static> {
    pub rx: OneshotReceiver<T>,
}

impl<T: Sync + Send + 'static> Oneshot<T> {
    /// The sending half that `split` will hand out.
    pub closed spec fn sender(&self) -> OneshotSender<T> {
        self.tx
    }

    /// The receiving half that `split` will hand out.
    pub closed spec fn receiver(&self) -> OneshotReceiver<T> {
        self.rx
    }

    /// A fresh one-shot mailbox.
    pub fn new() -> (m: Self) {
        let (tx, rx) = oneshot_channel();
        Oneshot { tx, rx }
    }

    /// Part the mailbox into its two halves.
    pub fn split(self) -> (halves: (OneshotOutbox<T>, OneshotInbox<T>))
        ensures
            halves.0.tx == self.sender(),
            halves.1.rx == self.receiver(),
    {
        (OneshotOutbox { tx: self.tx }, OneshotInbox { rx: self.rx })
    }
}

impl<T: Sync + Send + 'static> OneshotOutbox<T> {
    /// Hand the value over. This uses the sender up, so a second send cannot
    /// be written. The value comes back where the receiver is already gone.
    pub fn send(self, t: T) -> (out: Result<(), T>)
        ensures
            out is Err ==> out->Err_0 == t,
    {
        oneshot_send(self.tx, t)
    }
}

impl<T: Sync + Send + 'static> OneshotInbox<T> {
    /// Take the value if it has arrived. `Closed` means that the sender went
    /// away without sending, or that the value was taken before.
    pub fn try_recv(&mut self) -> (out: Received<T>) {
        oneshot_take(&mut self.rx)
    }
}

} // verus!
