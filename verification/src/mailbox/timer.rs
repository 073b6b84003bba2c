//! A deadline timer that an actor owns and waits on.
//!
//! Instants are counted in ticks of a monotonic clock, as `u64`. The timer
//! itself never reads the clock: the caller hands in the current instant and
//! is told how to wait.
use vstd::prelude::*;

verus! {

/// What waiting on a timer amounts to at a given instant.
#[derive(Clone, Copy, Debug, PartialEq, Eq, Structural)]
pub enum Wait {
    /// The timer is clear: the wait never completes.
    Never,
    /// The deadline has been reached: the wait completes at once.
    Ready,
    /// The deadline lies ahead: the wait completes after this many ticks.
    Sleep(u64),
}

/// A Timer allows an actor to set a time at which it wishes to be notified.
#[derive(Clone, Copy, Debug, PartialEq, Eq, Structural)]
pub struct Timer {
    pub at: Option<u64>,
}

/// What waiting on a timer with deadline `at` amounts to at instant `now`.
pub open spec fn wait_at(at: Option<u64>, now: u64) -> Wait {
    match at {
        None => Wait::Never,
        Some(t) => if t > now {
            Wait::Sleep((t - now) as u64)
        } else {
            Wait::Ready
        },
    }
}

impl Timer {
    /// Create a new, cleared Timer.
    pub fn new() -> (t: Timer)
        ensures
            t.at is None,
    {
        Timer { at: None }
    }

    /// Set the timer to expire at the given time.
    pub fn set(&mut self, at: u64)
        ensures
            final(self).at == Some(at),
    {
        self.at = Some(at);
    }

    /// Clear the timer. While clear, a timer will not receive anything.
    pub fn clear(&mut self)
        ensures
            final(self).at is None,
    {
        self.at = None;
    }

    /// Whether a deadline is set.
    pub fn is_set(&self) -> (b: bool)
        ensures
            b == (self.at is Some),
    {
        self.at.is_some()
    }

    /// Decide how a wait on this timer proceeds at instant `now`. The timer
    /// does not re-arm or clear itself: until its owner clears or resets it,
    /// a deadline that has passed keeps answering `Ready`.
    pub fn recv(&self, now: u64) -> (w: Wait)
        ensures
            w == wait_at(self.at, now),
    {
        match self.at {
            None => Wait::Never,
            Some(t) => {
                if t > now {
                    Wait::Sleep(t - now)
                } else {
                    Wait::Ready
                }
            },
        }
    }
}

/// The timer's contract, at every instant: a clear timer never fires; a
/// deadline that has been reached fires at once; a deadline ahead fires after
/// a sleep that ends exactly on it.
pub proof fn timer_contract(at: u64, now: u64)
    ensures
        wait_at(None, now) == Wait::Never,
        at <= now ==> wait_at(Some(at), now) == Wait::Ready,
        at > now ==> wait_at(Some(at), now) is Sleep && now + wait_at(Some(at), now)->Sleep_0
            == at,
{
}

} // verus!
