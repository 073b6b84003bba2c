//! A windowed-backpressure pipeline.
//!
//! The [`Tailer`] reads bytes, batches them behind a flush deadline, and sends
//! each batch downstream tagged with a checkpoint. Downstream acknowledges a
//! checkpoint once the batch is processed. The tailer admits a new byte only
//! while the count of read but unacknowledged bytes is below its window, and
//! it ends only when it is stopping and everything it read is acknowledged.
//!
//! The tailer here is the decision part of that stage: each event that the
//! stage can wake up on is one call, which moves the state and says what the
//! stage must do next.
use vstd::prelude::*;
use crate::mailbox::timer::Timer;
use crate::mailbox::timer::Wait;
use crate::mailbox::timer::wait_at;
use crate::mailbox::Received;

pub mod laws;

verus! {

/// Representation of the commitment of bytes up until this position.
#[derive(Clone, Copy, Debug, PartialEq, Eq, Structural)]
pub struct BytesCommitment(pub usize);

impl BytesCommitment {
    /// Merge a commitment that was observed later into this one. Commitments
    /// never regress: the larger position wins.
    pub fn update(self, later: Self) -> (merged: Self)
        ensures
            merged.0 == if later.0 >= self.0 { later.0 } else { self.0 },
    {
        if later.0 >= self.0 {
            later
        } else {
            self
        }
    }
}

/// Why a stage gave up.
#[derive(Clone, Copy, Debug, PartialEq, Eq, Structural)]
pub enum Fatal {
    /// The stream of commitments ended while the tailer was still running.
    DownstreamClosed,
    /// A commitment claims bytes that were never sent downstream.
    CommitmentAhead,
}

/// One thing that the tailer can wake up on.
#[derive(Clone, Copy, Debug, PartialEq, Eq, Structural)]
pub enum Event {
    /// The commitment mailbox yielded a value, or `None` once it closed.
    Commitment(Option<BytesCommitment>),
    /// The input mailbox yielded a byte, or `None` once it closed.
    Input(Option<u8>),
    /// The flush deadline was reached.
    FlushDue,
    /// The stop signal arrived.
    StopRequested,
}

/// What the stage must do after an event.
#[derive(Debug)]
pub enum Outcome {
    /// Nothing to send; keep waiting.
    Continue,
    /// Send this batch downstream with its checkpoint, then keep waiting.
    Emit(Vec<u8>, BytesCommitment),
    /// The event's branch was disabled in this state: nothing changed, and
    /// the event is still the caller's to deliver later.
    Refused,
    /// The pipeline is broken: the stage ends with this error.
    Failed(Fatal),
}

/// The mathematical state of a tailer.
pub struct TailerState {
    /// Bytes read and not yet sent downstream.
    pub buf: Seq<u8>,
    /// The flush deadline, if one is armed.
    pub flush_at: Option<u64>,
    /// Total number of bytes read.
    pub read: nat,
    /// Total number of bytes acknowledged by the end of the pipeline.
    pub committed: nat,
    /// Whether the tailer has stopped reading and is draining.
    pub stopping: bool,
    /// The largest allowed count of read but unacknowledged bytes.
    pub window: nat,
    /// Ticks between the first byte of a batch and its flush.
    pub flush_interval: u64,
}

/// What an outcome is, as plain values.
pub enum Effect {
    Continue,
    Emit(Seq<u8>, nat),
    Refused,
    Failed(Fatal),
}

impl Outcome {
    pub open spec fn view(&self) -> Effect {
        match *self {
            Outcome::Continue => Effect::Continue,
            Outcome::Emit(bytes, checkpoint) => Effect::Emit(bytes@, checkpoint.0 as nat),
            Outcome::Refused => Effect::Refused,
            Outcome::Failed(f) => Effect::Failed(f),
        }
    }
}

/// The instant `interval` ticks after `now`, held at the largest instant
/// where the clock's range ends.
pub open spec fn deadline_after(now: u64, interval: u64) -> u64 {
    if now + interval > u64::MAX {
        u64::MAX
    } else {
        (now + interval) as u64
    }
}

impl TailerState {
    /// The state a tailer starts in: reading, nothing buffered.
    pub open spec fn initial(window: nat, flush_interval: u64) -> TailerState {
        TailerState {
            buf: Seq::empty(),
            flush_at: None,
            read: 0,
            committed: 0,
            stopping: false,
            window,
            flush_interval,
        }
    }

    /// Number of bytes that have been sent downstream.
    pub open spec fn flushed(self) -> int {
        self.read - self.buf.len()
    }

    /// The invariant of the stage: acknowledgments never run ahead of what
    /// was sent, in-flight bytes stay within the window, and the deadline is
    /// armed exactly while a batch is pending.
    pub open spec fn wf(self) -> bool {
        &&& self.committed <= self.flushed()
        &&& self.read - self.committed <= self.window
        &&& (self.flush_at is Some <==> self.buf.len() > 0)
    }

    /// The admission predicate: a new byte may be read.
    pub open spec fn admits(self) -> bool {
        !self.stopping && self.read - self.committed < self.window
    }

    /// The termination condition.
    pub open spec fn finished(self) -> bool {
        self.stopping && self.committed == self.read
    }

    /// Whether the branch for `event` is enabled in this state.
    pub open spec fn enabled(self, event: Event) -> bool {
        !self.finished() && match event {
            Event::Commitment(_) => true,
            Event::Input(_) => self.admits(),
            Event::FlushDue => self.flush_at is Some,
            Event::StopRequested => !self.stopping,
        }
    }

    /// The state after the pending batch, if any, has been handed over.
    pub open spec fn after_flush(self) -> TailerState {
        TailerState { buf: Seq::empty(), flush_at: None, ..self }
    }

    /// What a flush hands over.
    pub open spec fn flush_effect(self) -> Effect {
        if self.buf.len() > 0 {
            Effect::Emit(self.buf, self.read)
        } else {
            Effect::Continue
        }
    }

    /// The state after one more byte was taken in at instant `now`: the
    /// first byte of a batch arms the deadline, later ones leave it alone.
    pub open spec fn after_byte(self, byte: u8, now: u64) -> TailerState {
        TailerState {
            buf: self.buf.push(byte),
            read: self.read + 1,
            flush_at: if self.flush_at is None {
                Some(deadline_after(now, self.flush_interval))
            } else {
                self.flush_at
            },
            ..self
        }
    }

    /// Whether a commitment claims more than was sent downstream.
    pub open spec fn runs_ahead(self, c: BytesCommitment) -> bool {
        c.0 > self.flushed()
    }

    /// The state after a commitment came in: one that runs ahead changes
    /// nothing, any other is merged in and the larger position stays.
    pub open spec fn after_commit(self, c: BytesCommitment) -> TailerState {
        if !self.runs_ahead(c) && c.0 > self.committed {
            TailerState { committed: c.0 as nat, ..self }
        } else {
            self
        }
    }

    /// What the stage must do after a commitment came in.
    pub open spec fn commit_effect(self, c: BytesCommitment) -> Effect {
        if self.runs_ahead(c) {
            Effect::Failed(Fatal::CommitmentAhead)
        } else {
            Effect::Continue
        }
    }

    /// The state after the input closed: flushed, and draining.
    pub open spec fn after_close(self) -> TailerState {
        TailerState { stopping: true, ..self.after_flush() }
    }

    /// The state after a stop was requested: draining, the batch untouched.
    pub open spec fn after_stop(self) -> TailerState {
        TailerState { stopping: true, ..self }
    }

    /// The state after `event` at instant `now`.
    pub open spec fn next(self, event: Event, now: u64) -> TailerState {
        if !self.enabled(event) {
            self
        } else {
            match event {
                Event::Commitment(None) => self,
                Event::Commitment(Some(c)) => self.after_commit(c),
                Event::Input(Some(byte)) => self.after_byte(byte, now),
                Event::Input(None) => self.after_close(),
                Event::FlushDue => self.after_flush(),
                Event::StopRequested => self.after_stop(),
            }
        }
    }

    /// What the stage must do after `event`.
    pub open spec fn effect(self, event: Event) -> Effect {
        if !self.enabled(event) {
            Effect::Refused
        } else {
            match event {
                Event::Commitment(None) => Effect::Failed(Fatal::DownstreamClosed),
                Event::Commitment(Some(c)) => self.commit_effect(c),
                Event::Input(Some(_)) => Effect::Continue,
                Event::Input(None) => self.flush_effect(),
                Event::FlushDue => self.flush_effect(),
                Event::StopRequested => Effect::Continue,
            }
        }
    }
}

/// The buffering stage of the pipeline: its counters, its pending batch and
/// its flush deadline.
#[derive(Debug)]
pub struct Tailer {
    /// Current buffer of not-yet-sent bytes.
    buf: Vec<u8>,
    /// Time at which this buffer should be flushed.
    flush_timer: Timer,
    /// Total number of bytes read.
    read: usize,
    /// Total number of bytes committed at the end of the pipeline.
    committed: usize,
    /// Set once a stop was requested or the input closed.
    stopping: bool,
    /// Largest allowed count of read but uncommitted bytes.
    window: usize,
    /// Ticks between the first byte of a batch and its flush.
    flush_interval: u64,
}

impl Tailer {
    pub closed spec fn view(&self) -> TailerState {
        TailerState {
            buf: self.buf@,
            flush_at: self.flush_timer.at,
            read: self.read as nat,
            committed: self.committed as nat,
            stopping: self.stopping,
            window: self.window as nat,
            flush_interval: self.flush_interval,
        }
    }

    /// The invariant that every operation keeps.
    pub open spec fn wf(&self) -> bool {
        self@.wf() && self@.read <= usize::MAX && self@.window <= usize::MAX
    }

    /// A tailer that has read nothing, with the given window and flush
    /// interval.
    pub fn new(window: usize, flush_interval: u64) -> (t: Tailer)
        ensures
            t.wf(),
            t@ == TailerState::initial(window as nat, flush_interval),
    {
        Tailer {
            buf: Vec::new(),
            flush_timer: Timer::new(),
            read: 0,
            committed: 0,
            stopping: false,
            window,
            flush_interval,
        }
    }

    /// Total number of bytes read.
    pub fn read(&self) -> (n: usize)
        ensures
            n == self@.read,
    {
        self.read
    }

    /// Total number of bytes acknowledged.
    pub fn committed(&self) -> (n: usize)
        ensures
            n == self@.committed,
    {
        self.committed
    }

    /// Number of bytes waiting in the pending batch.
    pub fn buffered(&self) -> (n: usize)
        ensures
            n == self@.buf.len(),
    {
        self.buf.len()
    }

    /// Whether the tailer has stopped reading and is draining.
    pub fn stopping(&self) -> (b: bool)
        ensures
            b == self@.stopping,
    {
        self.stopping
    }

    /// Whether a new byte may be read now.
    pub fn admits(&self) -> (b: bool)
        requires
            self.wf(),
        ensures
            b == self@.admits(),
    {
        !self.stopping && self.read - self.committed < self.window
    }

    /// Whether the tailer has ended: it is stopping and everything it read
    /// has been acknowledged.
    pub fn finished(&self) -> (b: bool)
        ensures
            b == self@.finished(),
    {
        self.stopping && self.committed == self.read
    }

    /// How a wait on the flush deadline proceeds at instant `now`.
    pub fn flush_wait(&self, now: u64) -> (w: Wait)
        ensures
            w == wait_at(self@.flush_at, now),
    {
        self.flush_timer.recv(now)
    }

    /// Take one byte into the pending batch. The first byte of a batch arms
    /// the flush deadline; later bytes leave it where it is.
    fn read_byte(&mut self, c: u8, now: u64)
        requires
            old(self).wf(),
            old(self)@.admits(),
            old(self)@.read < usize::MAX,
        ensures
            final(self).wf(),
            final(self)@ == old(self)@.after_byte(c, now),
    {
        self.read += 1;
        if !self.flush_timer.is_set() {
            self.flush_timer.set(now.saturating_add(self.flush_interval));
        }
        self.buf.push(c);
    }

    /// Hand over the pending batch, tagged with the count of bytes read so
    /// far, and disarm the deadline. With nothing pending, nothing happens.
    pub fn flush(&mut self) -> (out: Outcome)
        requires
            old(self).wf(),
        ensures
            final(self).wf(),
            final(self)@ == old(self)@.after_flush(),
            out@ == old(self)@.flush_effect(),
    {
        if self.buf.len() > 0 {
            let mut batch: Vec<u8> = Vec::new();
            std::mem::swap(&mut self.buf, &mut batch);
            self.flush_timer.clear();
            assert(self.buf@ =~= Seq::<u8>::empty());
            Outcome::Emit(batch, BytesCommitment(self.read))
        } else {
            assert(self.buf@ =~= Seq::<u8>::empty());
            Outcome::Continue
        }
    }

    /// Take in a commitment from downstream. One that claims more than was
    /// sent is refused as a protocol violation and changes nothing; any other
    /// is merged in, and the larger position wins.
    pub fn commit(&mut self, c: BytesCommitment) -> (out: Outcome)
        requires
            old(self).wf(),
        ensures
            final(self).wf(),
            final(self)@ == old(self)@.after_commit(c),
            out@ == old(self)@.commit_effect(c),
    {
        if c.0 > self.read - self.buf.len() {
            Outcome::Failed(Fatal::CommitmentAhead)
        } else {
            self.committed = BytesCommitment(self.committed).update(c).0;
            Outcome::Continue
        }
    }

    /// The input closed: hand over whatever is pending and start draining.
    pub fn close_input(&mut self) -> (out: Outcome)
        requires
            old(self).wf(),
        ensures
            final(self).wf(),
            final(self)@ == old(self)@.after_close(),
            out@ == old(self)@.flush_effect(),
    {
        let out = self.flush();
        self.stopping = true;
        out
    }

    /// A stop was requested: start draining. The pending batch stays where it
    /// is until its deadline.
    pub fn request_stop(&mut self)
        requires
            old(self).wf(),
        ensures
            final(self).wf(),
            final(self)@ == old(self)@.after_stop(),
    {
        self.stopping = true;
    }

    /// Whether the branch for `event` is enabled in this state.
    pub fn enabled(&self, event: Event) -> (b: bool)
        requires
            self.wf(),
        ensures
            b == self@.enabled(event),
    {
        !self.finished() && match event {
            Event::Commitment(_) => true,
            Event::Input(_) => self.admits(),
            Event::FlushDue => self.flush_timer.is_set(),
            Event::StopRequested => !self.stopping,
        }
    }

    /// Run the branch for `event` at instant `now`, and say what the stage
    /// must do next. An event whose branch is disabled is refused and leaves
    /// the state as it was.
    pub fn step(&mut self, event: Event, now: u64) -> (out: Outcome)
        requires
            old(self).wf(),
            old(self)@.read < usize::MAX || !(event is Input),
        ensures
            final(self).wf(),
            final(self)@ == old(self)@.next(event, now),
            out@ == old(self)@.effect(event),
    {
        if !self.enabled(event) {
            return Outcome::Refused;
        }
        match event {
            Event::Commitment(None) => Outcome::Failed(Fatal::DownstreamClosed),
            Event::Commitment(Some(c)) => self.commit(c),
            Event::Input(Some(byte)) => {
                self.read_byte(byte, now);
                Outcome::Continue
            },
            Event::Input(None) => self.close_input(),
            Event::FlushDue => self.flush(),
            Event::StopRequested => {
                self.request_stop();
                Outcome::Continue
            },
        }
    }
}

/// What the consuming stage must do after looking at its input.
#[derive(Clone, Copy, Debug, PartialEq, Eq, Structural)]
pub enum Reply {
    /// A batch came in: acknowledge this checkpoint upstream, in a task of
    /// its own, and go on receiving without waiting for it.
    Acknowledge(BytesCommitment),
    /// Nothing is there now: wait for the next batch.
    Wait,
    /// The input is closed: the stage ends.
    End,
}

/// The last stage of the pipeline. It takes batches in and asks for each to
/// be acknowledged with the checkpoint that came with it. It keeps what it
/// has taken in, in order, for whoever made it to look at.
#[derive(Debug)]
pub struct Consumer {
    seen: Vec<u8>,
}

impl Consumer {
    /// Every byte taken in so far, in order.
    pub closed spec fn view(&self) -> Seq<u8> {
        self.seen@
    }

    /// A consumer that has taken in nothing.
    pub fn new() -> (c: Consumer)
        ensures
            c@ == Seq::<u8>::empty(),
    {
        Consumer { seen: Vec::new() }
    }

    /// Take in what the input gave. A batch is appended to what was seen and
    /// its own checkpoint is what gets acknowledged; anything else leaves the
    /// consumer as it was.
    pub fn receive(&mut self, got: Received<(Vec<u8>, BytesCommitment)>) -> (reply: Reply)
        ensures
            match got {
                Received::Message(batch) => final(self)@ == old(self)@ + batch.0@ && reply
                    == Reply::Acknowledge(batch.1),
                Received::Empty => final(self)@ == old(self)@ && reply == Reply::Wait,
                Received::Closed => final(self)@ == old(self)@ && reply == Reply::End,
            },
    {
        match got {
            Received::Message((mut bytes, checkpoint)) => {
                self.seen.append(&mut bytes);
                Reply::Acknowledge(checkpoint)
            },
            Received::Empty => Reply::Wait,
            Received::Closed => Reply::End,
        }
    }

    /// Number of bytes taken in so far.
    pub fn position(&self) -> (n: usize)
        ensures
            n == self@.len(),
    {
        self.seen.len()
    }

    /// Give up the consumer for what it has taken in.
    pub fn into_seen(self) -> (bytes: Vec<u8>)
        ensures
            bytes@ == self@,
    {
        self.seen
    }
}

} // verus!
