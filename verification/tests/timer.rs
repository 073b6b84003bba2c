use actor::mailbox::Timer;
use actor::mailbox::Wait;

#[test]
fn unset_timer_never_resolves() {
    let t = Timer::new();
    assert_eq!(t.recv(0), Wait::Never);
    assert_eq!(t.recv(1_000_000), Wait::Never);
    assert_eq!(t.recv(u64::MAX), Wait::Never);
}

#[test]
fn past_deadline_resolves_at_once() {
    let mut t = Timer::new();
    t.set(100);
    assert_eq!(t.recv(100), Wait::Ready);
    assert_eq!(t.recv(101), Wait::Ready);
    assert_eq!(t.recv(u64::MAX), Wait::Ready);
}

#[test]
fn future_deadline_sleeps_for_the_difference() {
    let mut t = Timer::new();
    t.set(100);
    assert_eq!(t.recv(0), Wait::Sleep(100));
    assert_eq!(t.recv(99), Wait::Sleep(1));
    t.set(u64::MAX);
    assert_eq!(t.recv(0), Wait::Sleep(u64::MAX));
}

#[test]
fn fired_timer_keeps_firing_until_cleared() {
    let mut t = Timer::new();
    assert!(!t.is_set());
    t.set(5);
    assert!(t.is_set());
    assert_eq!(t.recv(10), Wait::Ready);
    assert_eq!(t.recv(10), Wait::Ready);
    t.clear();
    assert!(!t.is_set());
    assert_eq!(t.recv(10), Wait::Never);
    t.set(20);
    assert_eq!(t.recv(10), Wait::Sleep(10));
}
