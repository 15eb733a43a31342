use std::cell::{Cell, RefCell};
use std::sync::atomic::{AtomicUsize, Ordering};

use parking_lot_lite_hack::condvar::{Condvar, RawCondvar, RawCondvarTimed, WaitRound, WaitTimeoutResult};
use parking_lot_lite_hack::raw_condvar::RawCondvar as Bookkeeping;

/// A raw condvar that nobody ever parks on: its word stays zero, so both
/// notifications take the fast path that the bookkeeping decides.
struct Unparked {
    state: AtomicUsize,
}

impl RawCondvar for Unparked {
    const INIT: Self = Unparked { state: AtomicUsize::new(0) };
    type RawMutex = ();

    fn wait(&self, _mutex: &()) {
        panic!("no thread waits in these tests");
    }

    fn notify_one(&self) -> bool {
        let cv = Bookkeeping::from_state(self.state.load(Ordering::Relaxed));
        if !cv.has_waiters() {
            return false;
        }
        unreachable!("nobody parked")
    }

    fn notify_all(&self) -> usize {
        let cv = Bookkeeping::from_state(self.state.load(Ordering::Relaxed));
        if !cv.has_waiters() {
            return 0;
        }
        unreachable!("nobody parked")
    }
}

/// A raw condvar whose timed waits end as scripted: `false` for a
/// notification, `true` for a timeout.
struct Scripted {
    outcomes: RefCell<Vec<bool>>,
    next: Cell<usize>,
    waits: Cell<usize>,
}

impl Scripted {
    fn script(&self, outcomes: Vec<bool>) {
        *self.outcomes.borrow_mut() = outcomes;
    }
}

impl RawCondvar for Scripted {
    const INIT: Self = Scripted { outcomes: RefCell::new(Vec::new()), next: Cell::new(0), waits: Cell::new(0) };
    type RawMutex = ();

    fn wait(&self, _mutex: &()) {
        self.waits.set(self.waits.get() + 1);
    }

    fn notify_one(&self) -> bool {
        false
    }

    fn notify_all(&self) -> usize {
        0
    }
}

impl RawCondvarTimed for Scripted {
    type Duration = u64;
    type Instant = u64;

    fn checked_duration_to_instant(timeout: &u64) -> Option<u64> {
        if *timeout == u64::MAX {
            None
        } else {
            Some(*timeout)
        }
    }

    fn wait_until(&self, _mutex: &(), _timeout: &u64) -> bool {
        let i = self.next.get();
        self.next.set(i + 1);
        self.waits.set(self.waits.get() + 1);
        self.outcomes.borrow()[i]
    }
}

/// Runs `wait_while` round by round.
fn wait_while<C: RawCondvar, T, F: FnMut(&mut T) -> bool>(
    cv: &Condvar<C>,
    mutex: &C::RawMutex,
    data: &mut T,
    mut condition: F,
) {
    while !cv.wait_while_round(mutex, data, &mut condition) {}
}

/// Runs `wait_while_until` round by round.
fn wait_while_until<C: RawCondvarTimed, T, F: FnMut(&mut T) -> bool>(
    cv: &Condvar<C>,
    mutex: &C::RawMutex,
    data: &mut T,
    mut condition: F,
    timeout: C::Instant,
) -> WaitTimeoutResult {
    let mut last = None;
    loop {
        match cv.wait_while_until_round(mutex, data, &mut condition, &timeout, last) {
            WaitRound::Finished(r) => return r,
            WaitRound::Waited(r) => last = Some(r),
        }
    }
}

#[test]
fn smoke() {
    let c = Condvar::<Unparked>::new();
    c.notify_one();
    c.notify_all();
}

#[test]
fn notifications_without_waiters_wake_nobody() {
    let c = Condvar::<Unparked>::new();
    assert!(!c.notify_one());
    assert_eq!(c.notify_all(), 0);
    assert_eq!(c.raw().state.load(Ordering::Relaxed), 0);
}

#[test]
fn test_debug_condvar() {
    let c = Condvar::<Unparked>::new();
    assert_eq!(c.debug_string(), "Condvar { .. }");
}

#[test]
fn wait_while_until_internal_does_not_wait_if_initially_false() {
    let cv = Condvar::<Scripted>::new();
    let condition = |counter: &mut u32| {
        *counter += 1;
        false
    };
    let mut counter = 0u32;
    wait_while(&cv, &(), &mut counter, condition);
    assert!(counter == 1);
    assert_eq!(cv.raw().waits.get(), 0);
}

#[test]
fn wait_while_until_internal_times_out_before_false() {
    let num_iters = 3;
    // Three notifications, then the deadline passes.
    let cv = Condvar::<Scripted>::new();
    cv.raw().script(vec![false, false, false, true]);
    let condition = |counter: &mut u32| {
        *counter += 1;
        true
    };
    let mut counter = 0u32;
    let timeout_result = wait_while_until(&cv, &(), &mut counter, condition, 500);
    assert!(timeout_result.timed_out());
    assert!(counter == num_iters + 1);
}

#[test]
fn wait_while_until_stops_once_the_condition_fails() {
    let cv = Condvar::<Scripted>::new();
    cv.raw().script(vec![false, false, false, false]);
    let condition = |counter: &mut u32| {
        *counter += 1;
        *counter <= 2
    };
    let mut counter = 0u32;
    let r = wait_while_until(&cv, &(), &mut counter, condition, 500);
    assert!(!r.timed_out());
    assert_eq!(counter, 3);
    assert_eq!(cv.raw().waits.get(), 2);
}

#[test]
fn wait_for_without_a_representable_deadline_never_times_out() {
    let cv = Condvar::<Scripted>::new();
    cv.raw().script(vec![true]);
    // No deadline: an untimed wait, reported as not timed out.
    assert!(!cv.wait_for(&(), u64::MAX).timed_out());
    assert_eq!(cv.raw().next.get(), 0);
    assert_eq!(cv.raw().waits.get(), 1);
    // A deadline: the timed wait's own answer.
    assert!(cv.wait_for(&(), 10).timed_out());
}

#[test]
fn wait_timeout_result_reports_what_it_was_made_with() {
    assert!(WaitTimeoutResult::new(true).timed_out());
    assert!(!WaitTimeoutResult::new(false).timed_out());
}

/// Runs `wait_while_for` round by round.
fn wait_while_for<C: RawCondvarTimed, T, F: FnMut(&mut T) -> bool>(
    cv: &Condvar<C>,
    mutex: &C::RawMutex,
    data: &mut T,
    mut condition: F,
    timeout: C::Duration,
) -> WaitTimeoutResult {
    let deadline = Condvar::<C>::wait_while_for_deadline(&timeout);
    let mut last = None;
    loop {
        match cv.wait_while_for_round(mutex, data, &mut condition, &deadline, last) {
            WaitRound::Finished(r) => return r,
            WaitRound::Waited(r) => last = Some(r),
        }
    }
}

#[test]
fn wait_while_for_times_out_with_a_deadline() {
    let cv = Condvar::<Scripted>::new();
    cv.raw().script(vec![false, true]);
    let mut counter = 0u32;
    let r = wait_while_for(&cv, &(), &mut counter, |c: &mut u32| { *c += 1; true }, 10);
    assert!(r.timed_out());
    assert_eq!(counter, 2);
    assert_eq!(cv.raw().next.get(), 2);
}

#[test]
fn wait_while_for_without_a_deadline_waits_untimed_and_never_times_out() {
    let cv = Condvar::<Scripted>::new();
    cv.raw().script(vec![true, true]);
    let mut counter = 0u32;
    let r = wait_while_for(&cv, &(), &mut counter, |c: &mut u32| { *c += 1; *c <= 2 }, u64::MAX);
    assert!(!r.timed_out());
    assert_eq!(counter, 3);
    // Two untimed waits, no timed one.
    assert_eq!(cv.raw().waits.get(), 2);
    assert_eq!(cv.raw().next.get(), 0);
}

#[test]
fn a_default_condvar_is_a_new_one() {
    let c = <Condvar<Unparked> as Default>::default();
    assert_eq!(c.raw().state.load(Ordering::Relaxed), 0);
    assert!(!c.notify_one());
}
