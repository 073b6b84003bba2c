use actor::pipeline::BytesCommitment;
use actor::pipeline::Event;
use actor::pipeline::Fatal;
use actor::pipeline::Outcome;
use actor::pipeline::Tailer;

fn emitted(out: Outcome) -> (Vec<u8>, usize) {
    match out {
        Outcome::Emit(bytes, checkpoint) => (bytes, checkpoint.0),
        other => panic!("expected a batch, got {:?}", other),
    }
}

#[test]
fn ten_bytes_one_batch_then_clean_end() {
    let mut t = Tailer::new(15, 100);
    for (i, b) in b"abcdefghij".iter().enumerate() {
        assert!(t.admits());
        assert!(matches!(t.step(Event::Input(Some(*b)), i as u64), Outcome::Continue));
    }
    assert_eq!(t.read(), 10);
    assert_eq!(t.buffered(), 10);
    assert!(t.admits());
    let (bytes, checkpoint) = emitted(t.step(Event::Input(None), 20));
    assert_eq!(bytes, b"abcdefghij".to_vec());
    assert_eq!(checkpoint, 10);
    assert!(t.stopping());
    assert!(!t.finished());
    assert!(matches!(
        t.step(Event::Commitment(Some(BytesCommitment(10))), 30),
        Outcome::Continue
    ));
    assert!(t.finished());
    assert_eq!(t.committed(), 10);
}

#[test]
fn slow_input_gives_batches_that_join_to_the_input() {
    let input = b"abcdefghij";
    let mut t = Tailer::new(15, 100);
    let mut seen: Vec<u8> = Vec::new();
    let mut now: u64 = 0;
    for b in input.iter() {
        assert!(matches!(t.step(Event::Input(Some(*b)), now), Outcome::Continue));
        now += 60;
        if t.flush_wait(now) == actor::mailbox::Wait::Ready {
            let (bytes, checkpoint) = emitted(t.step(Event::FlushDue, now));
            seen.extend_from_slice(&bytes);
            assert_eq!(checkpoint, seen.len());
        }
    }
    match t.step(Event::Input(None), now) {
        Outcome::Emit(bytes, _) => seen.extend_from_slice(&bytes),
        Outcome::Continue => {}
        other => panic!("unexpected {:?}", other),
    }
    assert_eq!(seen, input.to_vec());
    assert_eq!(t.buffered(), 0);
    assert!(matches!(
        t.step(Event::Commitment(Some(BytesCommitment(10))), now),
        Outcome::Continue
    ));
    assert!(t.finished());
}

#[test]
fn window_of_five_admits_five_and_then_refuses() {
    let mut t = Tailer::new(5, 100);
    let mut admitted = 0;
    for i in 0..20u8 {
        match t.step(Event::Input(Some(i)), 0) {
            Outcome::Continue => admitted += 1,
            Outcome::Refused => {}
            other => panic!("unexpected {:?}", other),
        }
        assert!(t.read() - t.committed() <= 5);
    }
    assert_eq!(admitted, 5);
    assert_eq!(t.read(), 5);
    assert!(!t.admits());
    assert!(!t.finished());
    // the other branches stay live
    assert!(t.enabled(Event::FlushDue));
    assert!(t.enabled(Event::Commitment(None)));
    assert!(t.enabled(Event::StopRequested));
    let (bytes, checkpoint) = emitted(t.step(Event::FlushDue, 100));
    assert_eq!(bytes, vec![0, 1, 2, 3, 4]);
    assert_eq!(checkpoint, 5);
    // still full until downstream acknowledges
    assert!(matches!(t.step(Event::Input(Some(9)), 100), Outcome::Refused));
    assert!(matches!(
        t.step(Event::Commitment(Some(BytesCommitment(3))), 100),
        Outcome::Continue
    ));
    assert!(t.admits());
    assert!(matches!(t.step(Event::Input(Some(9)), 100), Outcome::Continue));
    assert_eq!(t.read(), 6);
}

#[test]
fn window_of_zero_admits_nothing() {
    let mut t = Tailer::new(0, 100);
    assert!(!t.admits());
    assert!(matches!(t.step(Event::Input(Some(1)), 0), Outcome::Refused));
    assert_eq!(t.read(), 0);
}

#[test]
fn first_byte_arms_the_deadline_and_later_bytes_keep_it() {
    let mut t = Tailer::new(10, 100);
    assert_eq!(t.flush_wait(0), actor::mailbox::Wait::Never);
    t.step(Event::Input(Some(b'a')), 7);
    assert_eq!(t.flush_wait(7), actor::mailbox::Wait::Sleep(100));
    t.step(Event::Input(Some(b'b')), 50);
    assert_eq!(t.flush_wait(50), actor::mailbox::Wait::Sleep(57));
    assert_eq!(t.flush_wait(107), actor::mailbox::Wait::Ready);
    assert_eq!(t.flush_wait(500), actor::mailbox::Wait::Ready);
    let (bytes, checkpoint) = emitted(t.flush());
    assert_eq!(bytes, b"ab".to_vec());
    assert_eq!(checkpoint, 2);
    assert_eq!(t.flush_wait(500), actor::mailbox::Wait::Never);
    assert!(matches!(t.flush(), Outcome::Continue));
}

#[test]
fn deadline_saturates_at_the_end_of_the_clock() {
    let mut t = Tailer::new(10, 100);
    t.step(Event::Input(Some(b'a')), u64::MAX - 5);
    assert_eq!(t.flush_wait(u64::MAX - 5), actor::mailbox::Wait::Sleep(5));
    assert_eq!(t.flush_wait(u64::MAX), actor::mailbox::Wait::Ready);
}

#[test]
fn stop_request_does_not_flush() {
    let mut t = Tailer::new(10, 100);
    t.step(Event::Input(Some(b'x')), 0);
    assert!(matches!(t.step(Event::StopRequested, 1), Outcome::Continue));
    assert!(t.stopping());
    assert_eq!(t.buffered(), 1);
    assert!(!t.finished());
    // draining: no more input, no second stop
    assert!(matches!(t.step(Event::Input(Some(b'y')), 2), Outcome::Refused));
    assert!(matches!(t.step(Event::StopRequested, 2), Outcome::Refused));
    let (bytes, checkpoint) = emitted(t.step(Event::FlushDue, 100));
    assert_eq!(bytes, vec![b'x']);
    assert_eq!(checkpoint, 1);
    assert!(!t.finished());
    t.step(Event::Commitment(Some(BytesCommitment(1))), 101);
    assert!(t.finished());
}

#[test]
fn stop_with_nothing_read_ends_at_once() {
    let mut t = Tailer::new(10, 100);
    assert!(!t.finished());
    t.step(Event::StopRequested, 0);
    assert!(t.finished());
    assert!(matches!(t.step(Event::Commitment(None), 0), Outcome::Refused));
    assert!(matches!(t.step(Event::FlushDue, 0), Outcome::Refused));
}

#[test]
fn commitments_never_regress() {
    let mut t = Tailer::new(10, 100);
    for b in 0..6u8 {
        t.step(Event::Input(Some(b)), 0);
        if b % 2 == 1 {
            emitted(t.step(Event::FlushDue, 0));
        }
    }
    // checkpoints 2, 4, 6 were sent; acknowledgments arrive out of order
    t.step(Event::Commitment(Some(BytesCommitment(4))), 0);
    assert_eq!(t.committed(), 4);
    assert!(matches!(
        t.step(Event::Commitment(Some(BytesCommitment(2))), 0),
        Outcome::Continue
    ));
    assert_eq!(t.committed(), 4);
    t.step(Event::Commitment(Some(BytesCommitment(6))), 0);
    assert_eq!(t.committed(), 6);
    assert_eq!(BytesCommitment(3).update(BytesCommitment(5)), BytesCommitment(5));
    assert_eq!(BytesCommitment(5).update(BytesCommitment(3)), BytesCommitment(5));
    assert_eq!(BytesCommitment(5).update(BytesCommitment(5)), BytesCommitment(5));
}

#[test]
fn closed_commitments_are_fatal_while_running() {
    let mut t = Tailer::new(10, 100);
    t.step(Event::Input(Some(1)), 0);
    match t.step(Event::Commitment(None), 0) {
        Outcome::Failed(f) => assert_eq!(f, Fatal::DownstreamClosed),
        other => panic!("unexpected {:?}", other),
    }
    assert_eq!(t.read(), 1);
    assert_eq!(t.committed(), 0);
}

#[test]
fn commitment_beyond_what_was_sent_is_fatal() {
    let mut t = Tailer::new(10, 100);
    t.step(Event::Input(Some(1)), 0);
    t.step(Event::Input(Some(2)), 0);
    // two bytes read, none sent yet
    match t.step(Event::Commitment(Some(BytesCommitment(1))), 0) {
        Outcome::Failed(f) => assert_eq!(f, Fatal::CommitmentAhead),
        other => panic!("unexpected {:?}", other),
    }
    assert_eq!(t.committed(), 0);
    emitted(t.step(Event::FlushDue, 0));
    match t.commit(BytesCommitment(3)) {
        Outcome::Failed(f) => assert_eq!(f, Fatal::CommitmentAhead),
        other => panic!("unexpected {:?}", other),
    }
    assert!(matches!(t.commit(BytesCommitment(2)), Outcome::Continue));
    assert_eq!(t.committed(), 2);
}

#[test]
fn long_input_through_a_window_of_fifteen() {
    let input = b"abcdefghijklmnopqrabcdefghijklmnopqrabcdefghijklmnopqrsssabcdefghijklmnopqrs";
    let mut t = Tailer::new(15, 100);
    let mut seen: Vec<u8> = Vec::new();
    let mut pending: Vec<usize> = Vec::new();
    let mut now: u64 = 0;
    let mut i = 0;
    while i < input.len() {
        if t.admits() {
            assert!(matches!(t.step(Event::Input(Some(input[i])), now), Outcome::Continue));
            i += 1;
        } else if t.buffered() > 0 {
            let (bytes, checkpoint) = emitted(t.step(Event::FlushDue, now));
            seen.extend_from_slice(&bytes);
            pending.push(checkpoint);
        } else {
            let c = pending.remove(0);
            t.step(Event::Commitment(Some(BytesCommitment(c))), now);
        }
        assert!(t.committed() <= t.read());
        assert!(t.read() - t.committed() <= 15);
        now += 10;
    }
    t.step(Event::StopRequested, now);
    if t.buffered() > 0 {
        let (bytes, checkpoint) = emitted(t.step(Event::FlushDue, now + 100));
        seen.extend_from_slice(&bytes);
        pending.push(checkpoint);
    }
    for c in pending {
        assert!(!t.finished());
        t.step(Event::Commitment(Some(BytesCommitment(c))), now);
    }
    assert!(t.finished());
    assert_eq!(seen, input.to_vec());
    assert_eq!(t.read(), input.len());
}

#[test]
fn full_window_hides_the_closed_input_until_an_acknowledgment() {
    let mut t = Tailer::new(10, 100);
    for b in b"abcdefghij".iter() {
        assert!(matches!(t.step(Event::Input(Some(*b)), 0), Outcome::Continue));
    }
    assert!(!t.admits());
    // the input branch is disabled, so its closing is not looked at yet
    assert!(matches!(t.step(Event::Input(None), 1), Outcome::Refused));
    assert!(!t.stopping());
    let (bytes, checkpoint) = emitted(t.step(Event::FlushDue, 100));
    assert_eq!(bytes, b"abcdefghij".to_vec());
    assert_eq!(checkpoint, 10);
    t.step(Event::Commitment(Some(BytesCommitment(10))), 400);
    assert!(!t.finished());
    assert!(matches!(t.step(Event::Input(None), 401), Outcome::Continue));
    assert!(t.finished());
}

#[test]
fn branches_called_by_name_agree_with_step() {
    let mut t = Tailer::new(4, 10);
    t.step(Event::Input(Some(1)), 0);
    assert!(matches!(t.commit(BytesCommitment(1)), Outcome::Failed(Fatal::CommitmentAhead)));
    let (bytes, checkpoint) = emitted(t.close_input());
    assert_eq!(bytes, vec![1]);
    assert_eq!(checkpoint, 1);
    assert!(t.stopping());
    t.request_stop();
    assert!(t.stopping());
    assert!(matches!(t.close_input(), Outcome::Continue));
    assert!(matches!(t.commit(BytesCommitment(1)), Outcome::Continue));
    assert!(t.finished());
    // a late, smaller commitment changes nothing
    assert!(matches!(t.commit(BytesCommitment(0)), Outcome::Continue));
    assert_eq!(t.committed(), 1);
}
