//! The bookkeeping of `parking_lot`'s raw condition variable.
//!
//! A condition variable is one word: the address of the mutex its waiters
//! are bound to, or zero when nobody waits. Every change to that word happens
//! inside the parking lot's queue lock, from the callbacks that `park` and
//! `unpark_requeue` run; the only read outside it is the fast path of
//! `notify_one` and `notify_all`, which skips the queue when the word is zero.
//!
//! Parking and unparking are system-level work done by the caller. What is
//! decided here is everything those callbacks decide: whether a waiter may
//! park on this condition variable with its mutex, what a timed-out waiter
//! leaves behind, whether a notification wakes a thread or requeues it onto
//! the mutex, and what a wait reports when it returns.

use vstd::prelude::*;

verus! {

/// The unpark token of an ordinary wake-up.
pub const TOKEN_NORMAL: usize = 0;

/// The unpark token that hands a locked mutex straight to the woken thread.
pub const TOKEN_HANDOFF: usize = 1;

/// What `unpark_requeue` is asked to do with the threads parked on a
/// condition variable (`parking_lot_core::RequeueOp`).
#[derive(Clone, Copy, Debug, PartialEq, Eq, Structural)]
pub enum RequeueOp {
    /// Abort the operation without doing anything.
    Abort,
    /// Unpark one thread and requeue the rest onto the target queue.
    UnparkOneRequeueRest,
    /// Requeue all threads onto the target queue.
    RequeueAll,
    /// Unpark one thread and leave the rest parked.
    UnparkOne,
    /// Requeue one thread and leave the rest parked on the original queue.
    RequeueOne,
}

/// How a `park` call ended (`parking_lot_core::ParkResult`).
#[derive(Clone, Copy, Debug, PartialEq, Eq, Structural)]
pub enum ParkResult {
    /// Unparked by another thread, with that thread's unpark token.
    Unparked(usize),
    /// The validation callback refused to park.
    Invalid,
    /// The timeout expired.
    TimedOut,
}

/// How a waiter gets its mutex back once `park` returns.
#[derive(Clone, Copy, Debug, PartialEq, Eq, Structural)]
pub enum Relock {
    /// The notifier handed the locked mutex over; it is already held.
    HandedOff,
    /// The waiter must lock the mutex itself.
    Lock,
}

/// What a wait reports once `park` has returned.
#[derive(Clone, Copy, Debug, PartialEq, Eq, Structural)]
pub enum WaitEnd {
    /// The waiter tried to park with a second mutex while the condition
    /// variable was bound to another: a misuse, reported as a panic while the
    /// waiter's mutex is still locked.
    WrongMutex,
    /// The wait is over: how to get the mutex back, and whether the wait
    /// timed out rather than being woken or requeued.
    Returned { relock: Relock, timed_out: bool },
}

/// The binding after a waiter with `lock_addr` asks to park, and whether it
/// may.
pub open spec fn admit_spec(bound: usize, lock_addr: usize) -> (usize, bool) {
    if bound == 0 {
        (lock_addr, true)
    } else if bound != lock_addr {
        (bound, false)
    } else {
        (bound, true)
    }
}

/// The binding after a timed-out waiter that was parked under `key` leaves,
/// and whether it had been requeued onto its mutex (parked under another key
/// than the condition variable's `addr`).
pub open spec fn timed_out_spec(bound: usize, key: usize, addr: usize, was_last_thread: bool) -> (usize, bool) {
    let requeued = key != addr;
    if !requeued && was_last_thread {
        (0, requeued)
    } else {
        (bound, requeued)
    }
}

/// What a waiter reports once `park` returned `result`.
pub open spec fn wait_end_spec(admitted: bool, result: ParkResult, requeued: bool) -> WaitEnd {
    if !admitted {
        WaitEnd::WrongMutex
    } else {
        WaitEnd::Returned {
            relock: if result == ParkResult::Unparked(TOKEN_HANDOFF) {
                Relock::HandedOff
            } else {
                Relock::Lock
            },
            timed_out: !(result is Unparked || requeued),
        }
    }
}

/// The request `notify_one` makes of a condition variable bound to `bound`,
/// notifying the waiters of `mutex`, given whether that mutex was found
/// locked.
pub open spec fn notify_one_op_spec(bound: usize, mutex: usize, mutex_locked: bool) -> RequeueOp {
    if bound != mutex {
        RequeueOp::Abort
    } else if mutex_locked {
        RequeueOp::RequeueOne
    } else {
        RequeueOp::UnparkOne
    }
}

/// The binding and the request of `notify_all`, as for `notify_one_op_spec`.
pub open spec fn notify_all_op_spec(bound: usize, mutex: usize, mutex_locked: bool) -> (usize, RequeueOp) {
    if bound != mutex {
        (bound, RequeueOp::Abort)
    } else if mutex_locked {
        (0, RequeueOp::RequeueAll)
    } else {
        (0, RequeueOp::UnparkOneRequeueRest)
    }
}

/// The state of a raw condition variable: the address of the mutex its
/// waiters are bound to, or zero.
#[derive(Clone, Copy, Debug, PartialEq, Eq, Structural)]
pub struct RawCondvar {
    state: usize,
}

impl View for RawCondvar {
    type V = usize;

    /// The bound mutex's address, zero when unbound.
    open spec fn view(&self) -> usize {
        self.bound_spec()
    }
}

impl RawCondvar {
    /// The bound mutex's address.
    pub closed spec fn bound_spec(self) -> usize {
        self.state
    }

    /// The word of a condition variable nobody waits on.
    pub open spec fn new_spec() -> usize {
        0
    }

    /// A condition variable nobody waits on.
    pub fn new() -> (cv: RawCondvar)
        ensures
            cv@ == Self::new_spec(),
    {
        RawCondvar { state: 0 }
    }

    /// The condition variable whose word holds `state`.
    pub fn from_state(state: usize) -> (cv: RawCondvar)
        ensures
            cv@ == state,
    {
        RawCondvar { state }
    }

    /// The word that holds this state.
    pub fn state(&self) -> (state: usize)
        ensures
            state == self@,
    {
        self.state
    }

    /// Whether any thread may be parked on this condition variable. When not,
    /// `notify_one` reports no wake-up and `notify_all` zero, without
    /// touching the parking lot.
    pub fn has_waiters(&self) -> (r: bool)
        ensures
            r == (self@ != 0),
    {
        self.state != 0
    }

    /// A waiter holding the mutex at `lock_addr` asks to park.
    ///
    /// Refused if the condition variable is bound to another mutex: one
    /// condition variable serves one mutex at a time. Otherwise it becomes
    /// bound to this one.
    pub fn admit_waiter(&mut self, lock_addr: usize) -> (admitted: bool)
        ensures
            (final(self)@, admitted) == admit_spec(old(self)@, lock_addr),
            admitted == (old(self)@ == 0 || old(self)@ == lock_addr),
            admitted ==> final(self)@ == lock_addr,
            !admitted ==> final(self)@ == old(self)@,
    {
        if self.state == 0 {
            self.state = lock_addr;
        } else if self.state != lock_addr {
            return false;
        }
        true
    }

    /// A waiter parked under `key` timed out; the condition variable parks
    /// its waiters under `addr`. Returns whether the waiter had been requeued
    /// onto its mutex, in which case it did not time out: it will park on the
    /// mutex again when it locks it.
    ///
    /// The last waiter to leave unbinds the condition variable, which is
    /// otherwise the notifiers' job.
    pub fn waiter_timed_out(&mut self, key: usize, addr: usize, was_last_thread: bool) -> (requeued: bool)
        ensures
            (final(self)@, requeued) == timed_out_spec(old(self)@, key, addr, was_last_thread),
            requeued == (key != addr),
            final(self)@ == (if key == addr && was_last_thread { 0 } else { old(self)@ }),
    {
        let requeued = key != addr;
        if !requeued && was_last_thread {
            self.state = 0;
        }
        requeued
    }

    /// What a wait reports after `park` returned `result`, given whether the
    /// waiter was admitted and whether it had been requeued onto its mutex.
    ///
    /// There are no spurious wake-ups: a wait reports that it did not time
    /// out only if a notification woke it or requeued it.
    pub fn finish_wait(admitted: bool, result: ParkResult, requeued: bool) -> (end: WaitEnd)
        ensures
            end == wait_end_spec(admitted, result, requeued),
    {
        if !admitted {
            return WaitEnd::WrongMutex;
        }
        let relock = match result {
            ParkResult::Unparked(token) => if token == TOKEN_HANDOFF {
                Relock::HandedOff
            } else {
                Relock::Lock
            },
            _ => Relock::Lock,
        };
        let unparked = match result {
            ParkResult::Unparked(_) => true,
            _ => false,
        };
        WaitEnd::Returned { relock, timed_out: !(unparked || requeued) }
    }

    /// What `notify_one` asks of the parking lot, with the queue locked.
    ///
    /// If the condition variable is no longer bound to `mutex`, every waiter
    /// of that mutex was woken and a new waiter switched to another mutex:
    /// nothing is done. Otherwise one thread is unparked if the mutex is
    /// unlocked, and requeued onto the mutex if it is locked.
    /// `mark_parked_if_locked` marks the mutex as having parked threads if it
    /// is locked and says whether it was; it runs only in the second case.
    pub fn notify_one_op<F: FnOnce() -> bool>(&self, mutex: usize, mark_parked_if_locked: F) -> (op: RequeueOp)
        requires
            mark_parked_if_locked.requires(()),
        ensures
            self@ != mutex ==> op == RequeueOp::Abort,
            self@ == mutex ==> exists|locked: bool|
                #[trigger] mark_parked_if_locked.ensures((), locked)
                    && op == notify_one_op_spec(self@, mutex, locked),
    {
        if self.state != mutex {
            return RequeueOp::Abort;
        }
        let locked = mark_parked_if_locked();
        if locked {
            RequeueOp::RequeueOne
        } else {
            RequeueOp::UnparkOne
        }
    }

    /// After `notify_one`'s request has run: with no thread left parked, the
    /// condition variable is unbound. Returns the unpark token for the woken
    /// thread.
    pub fn after_notify_one(&mut self, have_more_threads: bool) -> (token: usize)
        ensures
            final(self)@ == after_notify_one_spec(old(self)@, have_more_threads),
            token == TOKEN_NORMAL,
    {
        if !have_more_threads {
            self.state = 0;
        }
        TOKEN_NORMAL
    }

    /// What `notify_one` reports: whether a thread was unparked or requeued.
    pub fn notify_one_result(unparked_threads: usize, requeued_threads: usize) -> (woke: bool)
        requires
            unparked_threads + requeued_threads <= usize::MAX,
        ensures
            woke == (unparked_threads + requeued_threads != 0),
    {
        unparked_threads + requeued_threads != 0
    }

    /// What `notify_all` asks of the parking lot, with the queue locked.
    ///
    /// If the condition variable is no longer bound to `mutex`, nothing is
    /// done. Otherwise it is unbound, since every waiter is about to be
    /// unparked or requeued, and if the mutex is locked all of them are
    /// requeued onto it; if it is unlocked one is unparked and the rest are
    /// requeued. `mark_parked_if_locked` is as for `notify_one_op`.
    pub fn notify_all_op<F: FnOnce() -> bool>(&mut self, mutex: usize, mark_parked_if_locked: F) -> (op: RequeueOp)
        requires
            mark_parked_if_locked.requires(()),
        ensures
            old(self)@ != mutex ==> op == RequeueOp::Abort && final(self)@ == old(self)@,
            old(self)@ == mutex ==> exists|locked: bool|
                #[trigger] mark_parked_if_locked.ensures((), locked)
                    && (final(self)@, op) == notify_all_op_spec(old(self)@, mutex, locked),
    {
        if self.state != mutex {
            return RequeueOp::Abort;
        }
        self.state = 0;
        let locked = mark_parked_if_locked();
        if locked {
            RequeueOp::RequeueAll
        } else {
            RequeueOp::UnparkOneRequeueRest
        }
    }

    /// After `notify_all`'s request has run: whether the mutex must now be
    /// marked as having parked threads, because threads were requeued onto
    /// it while one was unparked. (When all were requeued, the mark was set
    /// before.)
    pub fn after_notify_all(op: RequeueOp, requeued_threads: usize) -> (mark_parked: bool)
        ensures
            mark_parked == (op == RequeueOp::UnparkOneRequeueRest && requeued_threads != 0),
    {
        match op {
            RequeueOp::UnparkOneRequeueRest => requeued_threads != 0,
            _ => false,
        }
    }

    /// What `notify_all` reports: how many threads were unparked or
    /// requeued.
    pub fn notify_all_result(unparked_threads: usize, requeued_threads: usize) -> (woken: usize)
        requires
            unparked_threads + requeued_threads <= usize::MAX,
        ensures
            woken == unparked_threads + requeued_threads,
    {
        unparked_threads + requeued_threads
    }
}

/// One condition variable serves one mutex at a time: while it is bound to a
/// mutex, a waiter with any other mutex is refused and the binding stays;
/// an unbound condition variable takes the first waiter's mutex.
pub proof fn law_one_mutex_at_a_time(bound: usize, lock_addr: usize)
    ensures
        bound != 0 && bound != lock_addr ==> admit_spec(bound, lock_addr) == (bound, false),
        bound == 0 ==> admit_spec(bound, lock_addr) == (lock_addr, true),
        admit_spec(bound, lock_addr).1 ==> admit_spec(bound, lock_addr).0 == lock_addr,
        admit_spec(bound, lock_addr).1 <==> (bound == 0 || bound == lock_addr),
        !admit_spec(bound, lock_addr).1 ==> admit_spec(bound, lock_addr).0 == bound,
{
}

/// Any number of waiters may share the mutex the condition variable is
/// bound to: a waiter holding that very mutex is always admitted, and the
/// binding stays as it was.
pub proof fn law_same_mutex_admitted(m: usize)
    requires
        m != 0,
    ensures
        admit_spec(m, m) == (m, true),
        wait_end_spec(admit_spec(m, m).1, ParkResult::TimedOut, false) != WaitEnd::WrongMutex,
{
}

/// A waiter whose deadline passes while it is still parked under the
/// condition variable's own key was not requeued, so its wait reports a
/// timeout. One that had been requeued onto its mutex (parked under another
/// key) was moved by a notification, so its wait reports no timeout even
/// though it timed out on the mutex's queue.
pub proof fn law_timeout_under_own_key_is_reported(bound: usize, key: usize, addr: usize, was_last_thread: bool)
    ensures
        !timed_out_spec(bound, addr, addr, was_last_thread).1,
        wait_end_spec(true, ParkResult::TimedOut, timed_out_spec(bound, addr, addr, was_last_thread).1)
            == (WaitEnd::Returned { relock: Relock::Lock, timed_out: true }),
        key != addr ==> timed_out_spec(bound, key, addr, was_last_thread).1,
        key != addr ==> wait_end_spec(true, ParkResult::TimedOut, timed_out_spec(bound, key, addr, was_last_thread).1)
            == (WaitEnd::Returned { relock: Relock::Lock, timed_out: false }),
{
}

/// A condition variable can switch to a different mutex once no thread waits
/// on it: after its last waiter times out, or after `notify_all` has taken
/// every waiter of its mutex, a waiter with any mutex is admitted.
pub proof fn law_switch_mutex_when_drained(bound: usize, addr: usize, mutex_locked: bool, other: usize)
    requires
        bound != 0,
    ensures
        admit_spec(timed_out_spec(bound, addr, addr, true).0, other) == (other, true),
        admit_spec(notify_all_op_spec(bound, bound, mutex_locked).0, other) == (other, true),
{
}

/// `notify_all` wakes at most one thread and requeues the rest onto the
/// mutex, and leaves the condition variable with no waiters, so a
/// notification right after it wakes nobody without touching the parking
/// lot.
pub proof fn law_notify_all_wakes_one_and_drains(bound: usize, mutex_locked: bool)
    requires
        bound != 0,
    ensures
        notify_all_op_spec(bound, bound, mutex_locked).1 == RequeueOp::RequeueAll
            || notify_all_op_spec(bound, bound, mutex_locked).1 == RequeueOp::UnparkOneRequeueRest,
        notify_all_op_spec(bound, bound, mutex_locked).0 == 0,
{
}

/// A notification for a mutex the condition variable is no longer bound to
/// does nothing: the request is `Abort` and the binding is unchanged.
pub proof fn law_stale_notify_aborts(bound: usize, mutex: usize, mutex_locked: bool)
    requires
        bound != mutex,
    ensures
        notify_one_op_spec(bound, mutex, mutex_locked) == RequeueOp::Abort,
        notify_all_op_spec(bound, mutex, mutex_locked) == (bound, RequeueOp::Abort),
{
}

/// No spurious wake-ups: an admitted wait reports that it did not time out
/// exactly when it was unparked by a notification or requeued onto its
/// mutex, and it finds its mutex already held only when the notifier handed
/// it over.
pub proof fn law_no_spurious_wakeups(result: ParkResult, requeued: bool)
    ensures
        wait_end_spec(true, result, requeued) matches WaitEnd::Returned { relock, timed_out }
            && (timed_out <==> !(result is Unparked || requeued))
            && (relock == Relock::HandedOff <==> result == ParkResult::Unparked(TOKEN_HANDOFF)),
        wait_end_spec(false, result, requeued) == WaitEnd::WrongMutex,
{
}

/// A waiter that was requeued onto its mutex never unbinds the condition
/// variable when it times out, whatever its place in the queue.
pub proof fn law_requeued_waiter_keeps_binding(bound: usize, key: usize, addr: usize, was_last_thread: bool)
    requires
        key != addr,
    ensures
        timed_out_spec(bound, key, addr, was_last_thread) == (bound, true),
{
}

/// The word after `notify_one`'s callback, given whether threads remain
/// parked on the condition variable.
pub open spec fn after_notify_one_spec(bound: usize, have_more_threads: bool) -> usize {
    if have_more_threads {
        bound
    } else {
        0
    }
}

/// How the word stands to the threads parked on the condition variable,
/// `waiters` being the mutexes they hold, in queue order: the word is zero
/// exactly when nobody is parked, and every parked thread holds the mutex the
/// word names.
pub open spec fn queue_inv(bound: usize, waiters: Seq<usize>) -> bool {
    &&& (bound == 0 <==> waiters.len() == 0)
    &&& forall|i: int| 0 <= i < waiters.len() ==> #[trigger] waiters[i] == bound
}

/// A new condition variable has nobody parked on it.
pub proof fn law_queue_inv_initial()
    ensures
        queue_inv(RawCondvar::new_spec(), Seq::<usize>::empty()),
{
}

/// A waiter's admission keeps the word in step with the queue: an admitted
/// waiter joins the queue holding the mutex the word now names, and a
/// refused one parks nowhere and changes nothing. A mutex's address is never
/// zero.
pub proof fn law_queue_inv_admit(bound: usize, waiters: Seq<usize>, lock_addr: usize)
    requires
        queue_inv(bound, waiters),
        lock_addr != 0,
    ensures
        admit_spec(bound, lock_addr).1 ==> queue_inv(admit_spec(bound, lock_addr).0, waiters.push(lock_addr)),
        !admit_spec(bound, lock_addr).1 ==> queue_inv(admit_spec(bound, lock_addr).0, waiters),
{
    let (b2, ok) = admit_spec(bound, lock_addr);
    if ok {
        assert forall|i: int| 0 <= i < waiters.push(lock_addr).len() implies #[trigger] waiters.push(lock_addr)[i] == b2 by {
            if i < waiters.len() {
                assert(waiters[i] == bound);
            }
        }
    }
}

/// A timed-out waiter keeps the word in step with the queue. One that was
/// still parked on the condition variable (under its key `addr`) leaves the
/// queue from place `i`, the parking lot reporting whether it was the last;
/// one that had been requeued onto its mutex was no longer in this queue.
pub proof fn law_queue_inv_timed_out(
    bound: usize,
    waiters: Seq<usize>,
    key: usize,
    addr: usize,
    was_last_thread: bool,
    i: int,
)
    requires
        queue_inv(bound, waiters),
        key == addr ==> 0 <= i < waiters.len() && (was_last_thread <==> waiters.len() == 1),
    ensures
        key == addr ==> queue_inv(timed_out_spec(bound, key, addr, was_last_thread).0, waiters.remove(i)),
        key != addr ==> queue_inv(timed_out_spec(bound, key, addr, was_last_thread).0, waiters),
{
    if key == addr {
        let rest = waiters.remove(i);
        assert forall|j: int| 0 <= j < rest.len() implies #[trigger] rest[j] == bound by {
            if j < i {
                assert(rest[j] == waiters[j]);
            } else {
                assert(rest[j] == waiters[j + 1]);
            }
        }
    }
}

/// `notify_one` keeps the word in step with the queue: unless it aborts,
/// exactly one thread, the first, leaves the queue (unparked or requeued),
/// and the parking lot reports whether any remain.
pub proof fn law_queue_inv_notify_one(
    bound: usize,
    waiters: Seq<usize>,
    mutex: usize,
    mutex_locked: bool,
    have_more_threads: bool,
)
    requires
        queue_inv(bound, waiters),
        mutex != 0,
        notify_one_op_spec(bound, mutex, mutex_locked) != RequeueOp::Abort ==> (have_more_threads
            <==> waiters.len() > 1),
    ensures
        notify_one_op_spec(bound, mutex, mutex_locked) == RequeueOp::Abort ==> queue_inv(bound, waiters),
        notify_one_op_spec(bound, mutex, mutex_locked) != RequeueOp::Abort ==> waiters.len() >= 1
            && queue_inv(after_notify_one_spec(bound, have_more_threads), waiters.drop_first()),
{
    if notify_one_op_spec(bound, mutex, mutex_locked) != RequeueOp::Abort {
        let rest = waiters.drop_first();
        assert forall|j: int| 0 <= j < rest.len() implies #[trigger] rest[j] == after_notify_one_spec(bound, have_more_threads) by {
            assert(rest[j] == waiters[j + 1]);
        }
    }
}

/// `notify_all` keeps the word in step with the queue: unless it aborts,
/// every thread leaves the queue and the word is cleared.
pub proof fn law_queue_inv_notify_all(bound: usize, waiters: Seq<usize>, mutex: usize, mutex_locked: bool)
    requires
        queue_inv(bound, waiters),
    ensures
        notify_all_op_spec(bound, mutex, mutex_locked).1 == RequeueOp::Abort ==> queue_inv(
            notify_all_op_spec(bound, mutex, mutex_locked).0,
            waiters,
        ),
        notify_all_op_spec(bound, mutex, mutex_locked).1 != RequeueOp::Abort ==> queue_inv(
            notify_all_op_spec(bound, mutex, mutex_locked).0,
            Seq::<usize>::empty(),
        ),
{
}

/// How many of the `n` threads parked under the condition variable's key
/// `unpark_requeue` unparks and requeues for `op`, as its source does: the
/// single-thread requests move the first thread if there is one, the others
/// move every thread.
pub open spec fn requeue_counts(op: RequeueOp, n: nat) -> (nat, nat) {
    let first: nat = if n > 0 { 1 } else { 0 };
    match op {
        RequeueOp::Abort => (0, 0),
        RequeueOp::UnparkOne => (first, 0),
        RequeueOp::RequeueOne => (0, first),
        RequeueOp::UnparkOneRequeueRest => (first, (n - first) as nat),
        RequeueOp::RequeueAll => (0, n),
    }
}

/// With one thread waiting, `notify_one` reports a wake-up, whether the
/// thread is unparked (mutex unlocked) or requeued onto the mutex (mutex
/// locked); nobody is left, so the word is cleared and the next
/// `notify_one` finds no waiters and reports none.
pub proof fn law_notify_one_single_waiter(m: usize, mutex_locked: bool)
    requires
        m != 0,
    ensures
        queue_inv(m, seq![m]),
        notify_one_op_spec(m, m, mutex_locked) != RequeueOp::Abort,
        requeue_counts(notify_one_op_spec(m, m, mutex_locked), 1).0
            + requeue_counts(notify_one_op_spec(m, m, mutex_locked), 1).1 == 1,
        after_notify_one_spec(m, false) == 0,
        queue_inv(after_notify_one_spec(m, false), seq![m].drop_first()),
{
    assert(seq![m].drop_first() =~= Seq::<usize>::empty());
}

/// With `waiters` parked on a condition variable bound to `m`, `notify_all`
/// reports every one of them (one unparked and the rest requeued, or all
/// requeued), and clears the word, so a following `notify_all` finds no
/// waiters and reports zero.
pub proof fn law_notify_all_reports_every_waiter(m: usize, waiters: Seq<usize>, mutex_locked: bool)
    requires
        m != 0,
        queue_inv(m, waiters),
    ensures
        notify_all_op_spec(m, m, mutex_locked).1 != RequeueOp::Abort,
        requeue_counts(notify_all_op_spec(m, m, mutex_locked).1, waiters.len()).0
            + requeue_counts(notify_all_op_spec(m, m, mutex_locked).1, waiters.len()).1
            == waiters.len(),
        notify_all_op_spec(m, m, mutex_locked).0 == 0,
        queue_inv(notify_all_op_spec(m, m, mutex_locked).0, Seq::<usize>::empty()),
{
}

} // verus!
