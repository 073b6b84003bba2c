//! A small toolkit of message-passing building blocks: mailboxes, stop
//! signals, timers, and a windowed-backpressure pipeline built from them.
//!
//! Every stage is written as a transition function from a state and an event
//! to the next state and an action. The code that suspends on channels and
//! clocks lives with the caller; the rules that decide what happens next live
//! here, and are proved.
use vstd::prelude::*;
use tokio::sync::watch::Receiver as WatchReceiver;
use tokio::sync::watch::Sender as WatchSender;

pub mod actor;
pub mod mailbox;
pub mod pipeline;

verus! {

/// The watching half of a value that can be looked at any number of times.
#[verifier::external_type_specification]
#[verifier::external_body]
#[verifier::reject_recursive_types(T)]
pub struct ExWatchReceiver<T>(WatchReceiver<T>);

/// The writing half of a watched value.
#[verifier::external_type_specification]
#[verifier::external_body]
#[verifier::reject_recursive_types(T)]
pub struct ExWatchSender<T>(WatchSender<T>);

/// Calls `tokio::sync::watch::channel`, which makes a watched value that
/// starts as `init`. Nothing is claimed of the two halves that come back.
#[verifier::external_body]
fn watch_channel(init: bool) -> (pair: (WatchSender<bool>, WatchReceiver<bool>)) {
    tokio::sync::watch::channel(init)
}

/// Calls `tokio::sync::watch::Sender::send`. The call fails where no receiver
/// is left, which depends on the other half. All that is claimed is that a
/// failed send gives the value back as it was given.
#[verifier::external_body]
fn watch_send(tx: &WatchSender<bool>, value: bool) -> (out: Result<(), bool>)
    ensures
        out is Err ==> out->Err_0 == value,
{
    match tx.send(value) {
        Ok(()) => Ok(()),
        Err(tokio::sync::watch::error::SendError(back)) => Err(back),
    }
}

/// Calls `tokio::sync::watch::Receiver::borrow` and copies the flag out. What
/// it reads depends on the writing half, so nothing is claimed of it.
#[verifier::external_body]
fn read_flag(rx: &WatchReceiver<bool>) -> (up: bool) {
    *rx.borrow()
}

/// Calls `tokio::sync::watch::Receiver::is_closed`, which says whether every
/// writing half has been dropped. Nothing is claimed of the answer.
#[verifier::external_body]
fn writer_gone(rx: &WatchReceiver<bool>) -> (gone: bool) {
    rx.is_closed()
}

/// Calls `clone` on a `tokio::sync::watch::Receiver`, which gives another
/// watcher of the same value.
#[verifier::external_body]
fn another_watcher(rx: &WatchReceiver<bool>) -> (out: WatchReceiver<bool>) {
    rx.clone()
}

/// How far a spawned actor has come, as its handle sees it.
#[derive(Clone, Copy, Debug, PartialEq, Eq, Structural)]
pub enum Progress {
    /// The actor's body has not returned yet.
    Running,
    /// The actor's body ran to its end.
    Stopped,
    /// The actor went away without reaching its end.
    Failed,
}

/// What a handle concludes from whether the actor's side of the signal is
/// gone and whether the done flag is up. The flag decides wherever it is up:
/// completion is a level, not an edge, so it is seen however late and however
/// often one looks. With the flag down, the actor is running while its side
/// is there, and has failed once it is gone.
pub open spec fn progress_of(gone: bool, done: bool) -> Progress {
    if done {
        Progress::Stopped
    } else if gone {
        Progress::Failed
    } else {
        Progress::Running
    }
}

/// The spawner's side of a spawned actor: it shows whether the actor is done.
#[derive(Debug)]
pub struct Handle {
    pub finish_watch: WatchReceiver<bool>,
}

/// The actor's side of the completion signal. It is raised once, when the
/// actor's body has returned; dropping it unraised tells the handle that the
/// actor failed.
#[derive(Debug)]
pub struct Finish {
    flag: WatchSender<bool>,
}

impl Handle {
    /// A completion signal with the flag down, and the handle that watches it.
    pub fn new() -> (pair: (Finish, Handle)) {
        let (tx, rx) = watch_channel(false);
        (Finish { flag: tx }, Handle { finish_watch: rx })
    }

    /// Decide how far the actor has come from whether its side of the signal
    /// is gone and whether the done flag is up.
    pub fn judge(gone: bool, done: bool) -> (p: Progress)
        ensures
            p == progress_of(gone, done),
    {
        if done {
            Progress::Stopped
        } else if gone {
            Progress::Failed
        } else {
            Progress::Running
        }
    }

    /// Look at the actor's completion without waiting. This may be asked from
    /// several places, any number of times, or never: a look uses nothing up
    /// and leaves the handle as it was. What it sees is up to the actor;
    /// [`Handle::judge`] says what each sight amounts to.
    pub fn stopped(&mut self) -> (p: Progress)
        ensures
            *final(self) == *old(self),
    {
        // whether the actor's side is gone is read first: once it is gone the
        // flag cannot change any more, so the flag read after it is final
        let gone = writer_gone(&self.finish_watch);
        let done = read_flag(&self.finish_watch);
        Handle::judge(gone, done)
    }
}

impl Clone for Handle {
    fn clone(&self) -> (other: Self) {
        Handle { finish_watch: another_watcher(&self.finish_watch) }
    }
}

impl Finish {
    /// Raise the done flag. It stays up for every handle, also for one that
    /// looks only later. The answer says whether any handle was left to see
    /// it.
    pub fn done(self) -> (seen: bool) {
        watch_send(&self.flag, true).is_ok()
    }
}

/// Completion is seen however late one looks, and a failure is reported only
/// where the flag never went up.
pub proof fn completion_is_a_level(gone: bool)
    ensures
        progress_of(gone, true) == Progress::Stopped,
        progress_of(true, false) == Progress::Failed,
        progress_of(false, false) == Progress::Running,
{
}

} // verus!
