//! What holds of the tailer over whole runs: any sequence of events, each
//! delivered at some instant, starting from any state or from the initial one.
use vstd::prelude::*;
use crate::pipeline::Effect;
use crate::pipeline::Event;
use crate::pipeline::TailerState;

verus! {

/// One event together with the instant at which it is delivered.
pub struct Delivery {
    pub event: Event,
    pub now: u64,
}

/// The bytes that an effect sends downstream.
pub open spec fn batch_of(effect: Effect) -> Seq<u8> {
    match effect {
        Effect::Emit(bytes, _) => bytes,
        _ => Seq::empty(),
    }
}

/// The byte that an event brings into the tailer in state `s`: the byte of an
/// input event whose branch is enabled there, and nothing otherwise.
pub open spec fn intake_of(s: TailerState, event: Event) -> Seq<u8> {
    match event {
        Event::Input(Some(byte)) => if s.enabled(event) {
            seq![byte]
        } else {
            Seq::empty()
        },
        _ => Seq::empty(),
    }
}

/// The state after delivering all of `trace`, in order, starting from `s`.
pub open spec fn run(s: TailerState, trace: Seq<Delivery>) -> TailerState
    decreases trace.len(),
{
    if trace.len() == 0 {
        s
    } else {
        run(s, trace.drop_last()).next(trace.last().event, trace.last().now)
    }
}

/// Everything sent downstream while delivering `trace` from `s`: the batches
/// in the order they were emitted, joined end to end.
pub open spec fn emitted(s: TailerState, trace: Seq<Delivery>) -> Seq<u8>
    decreases trace.len(),
{
    if trace.len() == 0 {
        Seq::empty()
    } else {
        emitted(s, trace.drop_last()) + batch_of(
            run(s, trace.drop_last()).effect(trace.last().event),
        )
    }
}

/// Every byte taken in while delivering `trace` from `s`, in order.
pub open spec fn admitted(s: TailerState, trace: Seq<Delivery>) -> Seq<u8>
    decreases trace.len(),
{
    if trace.len() == 0 {
        Seq::empty()
    } else {
        admitted(s, trace.drop_last()) + intake_of(
            run(s, trace.drop_last()),
            trace.last().event,
        )
    }
}

/// One step keeps the invariant, whatever the event and the instant. In
/// particular acknowledged bytes never exceed read bytes, and bytes in flight
/// never exceed the window.
pub proof fn step_keeps_invariant(s: TailerState, event: Event, now: u64)
    requires
        s.wf(),
    ensures
        s.next(event, now).wf(),
        s.next(event, now).committed <= s.next(event, now).read,
        s.next(event, now).read - s.next(event, now).committed <= s.window,
{
}

/// A byte is taken in only while the tailer is reading and strictly fewer
/// bytes than the window are in flight; after it is taken in, the bytes in
/// flight are still within the window.
pub proof fn admission_respects_window(s: TailerState, byte: u8, now: u64)
    requires
        s.wf(),
        s.next(Event::Input(Some(byte)), now).read != s.read,
    ensures
        !s.stopping,
        s.read - s.committed < s.window,
        s.next(Event::Input(Some(byte)), now).read == s.read + 1,
        s.next(Event::Input(Some(byte)), now).read - s.next(
            Event::Input(Some(byte)),
            now,
        ).committed <= s.window,
{
}

/// While as many bytes are in flight as the window allows, an input event is
/// refused and changes nothing: the byte stays with the caller.
pub proof fn full_window_refuses_input(s: TailerState, input: Option<u8>, now: u64)
    requires
        s.read - s.committed >= s.window,
    ensures
        s.next(Event::Input(input), now) == s,
        s.effect(Event::Input(input)) == Effect::Refused,
{
}

/// The counters only grow, the window and the interval stay as configured,
/// and a tailer that is draining never goes back to reading.
pub proof fn step_is_monotone(s: TailerState, event: Event, now: u64)
    requires
        s.wf(),
    ensures
        s.next(event, now).read >= s.read,
        s.next(event, now).committed >= s.committed,
        s.stopping ==> s.next(event, now).stopping,
        s.next(event, now).window == s.window,
        s.next(event, now).flush_interval == s.flush_interval,
{
}

/// A finished tailer holds no unsent and no unacknowledged byte, refuses
/// every event, and stays as it is.
pub proof fn finished_is_terminal(s: TailerState, event: Event, now: u64)
    requires
        s.wf(),
        s.finished(),
    ensures
        s.buf.len() == 0,
        s.committed == s.read,
        s.next(event, now) == s,
        s.effect(event) == Effect::Refused,
{
}

/// A step ends the tailer only by bringing it to "stopping, and every read
/// byte acknowledged": through the commitment for the last byte while it is
/// draining, or through a stop or the closing of the input while nothing is
/// unacknowledged. No other step ends it, so it never ends with data in
/// flight.
pub proof fn ends_only_when_drained(s: TailerState, event: Event, now: u64)
    requires
        s.wf(),
        !s.finished(),
        s.next(event, now).finished(),
    ensures
        s.next(event, now).stopping,
        s.next(event, now).committed == s.next(event, now).read,
        s.next(event, now).buf.len() == 0,
        match event {
            Event::Commitment(Some(c)) => s.stopping && c.0 == s.read,
            Event::Input(None) => s.committed == s.read,
            Event::StopRequested => s.committed == s.read,
            _ => false,
        },
{
}

/// While an acknowledgment is outstanding the tailer is not finished, stop or
/// no stop.
pub proof fn outstanding_data_keeps_running(s: TailerState)
    requires
        s.committed < s.read,
    ensures
        !s.finished(),
{
}

/// A draining tailer does not hang once downstream has acknowledged: with
/// nothing pending, the commitment for everything read ends it.
pub proof fn last_commitment_ends_draining(s: TailerState, now: u64)
    requires
        s.wf(),
        s.stopping,
        s.buf.len() == 0,
        s.read <= usize::MAX,
    ensures
        s.next(
            Event::Commitment(Some(crate::pipeline::BytesCommitment(s.read as usize))),
            now,
        ).finished(),
{
}

/// A tailer that is not finished always has an enabled branch to wait on:
/// commitments are always listened for, and a pending batch always has its
/// deadline armed. So a full window suspends the stage without stalling it.
pub proof fn unfinished_can_progress(s: TailerState)
    requires
        s.wf(),
        !s.finished(),
    ensures
        s.enabled(Event::Commitment(None)),
        s.buf.len() > 0 ==> s.enabled(Event::FlushDue),
        s.committed < s.read ==> s.buf.len() > 0 || s.committed < s.flushed(),
{
}

/// A fresh tailer satisfies the invariant, whatever its window and interval.
pub proof fn initial_is_well_formed(window: nat, flush_interval: u64)
    ensures
        TailerState::initial(window, flush_interval).wf(),
        !TailerState::initial(window, flush_interval).finished(),
{
}

/// A whole run keeps the invariant.
pub proof fn run_keeps_invariant(s: TailerState, trace: Seq<Delivery>)
    requires
        s.wf(),
    ensures
        run(s, trace).wf(),
        run(s, trace).committed <= run(s, trace).read,
        run(s, trace).read - run(s, trace).committed <= s.window,
        run(s, trace).window == s.window,
        run(s, trace).read >= s.read,
        run(s, trace).committed >= s.committed,
        s.stopping ==> run(s, trace).stopping,
    decreases trace.len(),
{
    if trace.len() > 0 {
        run_keeps_invariant(s, trace.drop_last());
        let before = run(s, trace.drop_last());
        step_keeps_invariant(before, trace.last().event, trace.last().now);
        step_is_monotone(before, trace.last().event, trace.last().now);
    }
}

/// Nothing is lost, duplicated or reordered: at any point of a run, what was
/// sent downstream followed by what is still pending is exactly what was
/// taken in, on top of what was pending at the start.
pub proof fn run_conserves_bytes(s: TailerState, trace: Seq<Delivery>)
    requires
        s.wf(),
    ensures
        emitted(s, trace) + run(s, trace).buf == s.buf + admitted(s, trace),
        run(s, trace).read == s.read + admitted(s, trace).len(),
    decreases trace.len(),
{
    if trace.len() == 0 {
        assert(emitted(s, trace) + run(s, trace).buf =~= s.buf + admitted(s, trace));
    } else {
        let head = trace.drop_last();
        let event = trace.last().event;
        let now = trace.last().now;
        run_conserves_bytes(s, head);
        run_keeps_invariant(s, head);
        let before = run(s, head);
        let sent = batch_of(before.effect(event));
        let taken = intake_of(before, event);
        assert(sent + before.next(event, now).buf =~= before.buf + taken);
        assert(emitted(s, trace) + run(s, trace).buf =~= emitted(s, head) + (sent + before.next(
            event,
            now,
        ).buf));
        assert(emitted(s, head) + (before.buf + taken) =~= (emitted(s, head) + before.buf) + taken);
        assert((s.buf + admitted(s, head)) + taken =~= s.buf + admitted(s, trace));
    }
}

/// From a fresh tailer, once nothing is pending, the batches sent downstream
/// joined end to end are the bytes taken in, in order; and the count of bytes
/// read is their number.
pub proof fn drained_output_is_input(window: nat, flush_interval: u64, trace: Seq<Delivery>)
    requires
        run(TailerState::initial(window, flush_interval), trace).buf.len() == 0,
    ensures
        emitted(TailerState::initial(window, flush_interval), trace) == admitted(
            TailerState::initial(window, flush_interval),
            trace,
        ),
        run(TailerState::initial(window, flush_interval), trace).read == admitted(
            TailerState::initial(window, flush_interval),
            trace,
        ).len(),
{
    let s = TailerState::initial(window, flush_interval);
    run_conserves_bytes(s, trace);
    assert(emitted(s, trace) =~= emitted(s, trace) + run(s, trace).buf);
    assert(admitted(s, trace) =~= s.buf + admitted(s, trace));
}

/// Closing the input flushes at once: after an input-closed event that was
/// not refused, nothing is pending and the tailer is draining.
pub proof fn closing_input_flushes(s: TailerState, now: u64)
    requires
        s.wf(),
        s.enabled(Event::Input(None)),
    ensures
        s.next(Event::Input(None), now).buf.len() == 0,
        s.next(Event::Input(None), now).stopping,
        s.effect(Event::Input(None)) == s.flush_effect(),
{
}

/// Every batch is tagged with the position it ends at: the checkpoint of an
/// emitted batch counts all bytes read up to and including that batch.
pub proof fn checkpoint_is_position(s: TailerState, event: Event)
    requires
        s.wf(),
    ensures
        match s.effect(event) {
            Effect::Emit(bytes, checkpoint) => bytes == s.buf && bytes.len() > 0 && checkpoint
                == s.read && checkpoint == s.flushed() + bytes.len(),
            _ => true,
        },
{
}

/// Once the tailer is draining with nothing pending, nothing more is taken in
/// and nothing more is sent, whatever is delivered.
pub proof fn drained_stays_drained(s: TailerState, trace: Seq<Delivery>)
    requires
        s.wf(),
        s.stopping,
        s.buf.len() == 0,
    ensures
        run(s, trace).buf.len() == 0,
        run(s, trace).stopping,
        run(s, trace).read == s.read,
        admitted(s, trace) == Seq::<u8>::empty(),
        emitted(s, trace) == Seq::<u8>::empty(),
    decreases trace.len(),
{
    if trace.len() > 0 {
        let head = trace.drop_last();
        drained_stays_drained(s, head);
        run_keeps_invariant(s, head);
        assert(admitted(s, trace) =~= Seq::<u8>::empty());
        assert(emitted(s, trace) =~= Seq::<u8>::empty());
    }
}

} // verus!
