use parking_lot_lite_hack::raw_condvar::{
    ParkResult, RawCondvar, Relock, RequeueOp, WaitEnd, TOKEN_HANDOFF, TOKEN_NORMAL,
};

const M1: usize = 0x1000;
const M2: usize = 0x2000;
const CV: usize = 0x3000;

#[test]
fn a_fresh_condvar_has_no_waiters() {
    let cv = RawCondvar::new();
    assert_eq!(cv.state(), 0);
    assert!(!cv.has_waiters());
}

#[test]
fn the_first_waiter_binds_its_mutex() {
    let mut cv = RawCondvar::new();
    assert!(cv.admit_waiter(M1));
    assert_eq!(cv.state(), M1);
    assert!(cv.has_waiters());
    // A second waiter on the same mutex is admitted too.
    assert!(cv.admit_waiter(M1));
    assert_eq!(cv.state(), M1);
}

#[test]
fn a_second_mutex_is_refused_while_bound() {
    let mut cv = RawCondvar::from_state(M1);
    assert!(!cv.admit_waiter(M2));
    assert_eq!(cv.state(), M1);
}

#[test]
fn the_last_waiter_to_time_out_unbinds() {
    let mut cv = RawCondvar::from_state(M1);
    assert!(!cv.waiter_timed_out(CV, CV, true));
    assert_eq!(cv.state(), 0);
    // Now another mutex may be used.
    assert!(cv.admit_waiter(M2));
    assert_eq!(cv.state(), M2);
}

#[test]
fn a_waiter_that_is_not_last_keeps_the_binding() {
    let mut cv = RawCondvar::from_state(M1);
    assert!(!cv.waiter_timed_out(CV, CV, false));
    assert_eq!(cv.state(), M1);
}

#[test]
fn a_requeued_waiter_did_not_time_out() {
    let mut cv = RawCondvar::from_state(M1);
    assert!(cv.waiter_timed_out(M1, CV, true));
    assert_eq!(cv.state(), M1);
}

#[test]
fn what_a_wait_reports() {
    assert_eq!(
        RawCondvar::finish_wait(true, ParkResult::Unparked(TOKEN_NORMAL), false),
        WaitEnd::Returned { relock: Relock::Lock, timed_out: false }
    );
    assert_eq!(
        RawCondvar::finish_wait(true, ParkResult::Unparked(TOKEN_HANDOFF), false),
        WaitEnd::Returned { relock: Relock::HandedOff, timed_out: false }
    );
    assert_eq!(
        RawCondvar::finish_wait(true, ParkResult::TimedOut, false),
        WaitEnd::Returned { relock: Relock::Lock, timed_out: true }
    );
    assert_eq!(
        RawCondvar::finish_wait(true, ParkResult::TimedOut, true),
        WaitEnd::Returned { relock: Relock::Lock, timed_out: false }
    );
    assert_eq!(RawCondvar::finish_wait(false, ParkResult::Invalid, false), WaitEnd::WrongMutex);
}

#[test]
fn notify_one_unparks_or_requeues() {
    let cv = RawCondvar::from_state(M1);
    assert_eq!(cv.notify_one_op(M1, || false), RequeueOp::UnparkOne);
    assert_eq!(cv.notify_one_op(M1, || true), RequeueOp::RequeueOne);
}

#[test]
fn a_stale_notify_one_aborts_without_looking_at_the_mutex() {
    let cv = RawCondvar::from_state(M2);
    let op = cv.notify_one_op(M1, || panic!("the mutex must not be touched"));
    assert_eq!(op, RequeueOp::Abort);
    assert_eq!(cv.state(), M2);
}

#[test]
fn notify_one_unbinds_when_nobody_is_left() {
    let mut cv = RawCondvar::from_state(M1);
    assert_eq!(cv.after_notify_one(true), TOKEN_NORMAL);
    assert_eq!(cv.state(), M1);
    assert_eq!(cv.after_notify_one(false), TOKEN_NORMAL);
    assert_eq!(cv.state(), 0);
}

#[test]
fn notify_one_reports_a_wake_for_a_requeue_too() {
    assert!(!RawCondvar::notify_one_result(0, 0));
    assert!(RawCondvar::notify_one_result(1, 0));
    assert!(RawCondvar::notify_one_result(0, 1));
}

#[test]
fn notify_all_unbinds_and_moves_everyone() {
    let mut cv = RawCondvar::from_state(M1);
    assert_eq!(cv.notify_all_op(M1, || true), RequeueOp::RequeueAll);
    assert_eq!(cv.state(), 0);

    let mut cv = RawCondvar::from_state(M1);
    assert_eq!(cv.notify_all_op(M1, || false), RequeueOp::UnparkOneRequeueRest);
    assert_eq!(cv.state(), 0);
    assert!(cv.admit_waiter(M2));
}

#[test]
fn a_stale_notify_all_aborts() {
    let mut cv = RawCondvar::from_state(M2);
    assert_eq!(cv.notify_all_op(M1, || panic!("untouched")), RequeueOp::Abort);
    assert_eq!(cv.state(), M2);
}

#[test]
fn notify_all_marks_the_mutex_only_after_unparking_one_and_requeueing_some() {
    assert!(RawCondvar::after_notify_all(RequeueOp::UnparkOneRequeueRest, 3));
    assert!(!RawCondvar::after_notify_all(RequeueOp::UnparkOneRequeueRest, 0));
    assert!(!RawCondvar::after_notify_all(RequeueOp::RequeueAll, 3));
    assert!(!RawCondvar::after_notify_all(RequeueOp::Abort, 3));
}

#[test]
fn notify_all_counts_every_thread_moved() {
    assert_eq!(RawCondvar::notify_all_result(1, 9), 10);
    assert_eq!(RawCondvar::notify_all_result(0, 0), 0);
}
