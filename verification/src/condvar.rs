//! The generic condition variable front end, over a raw condition variable
//! that a user of this module supplies.
//!
//! `Condvar<C>` forwards to `C`. Its loops that wait while a condition holds
//! are run one round at a time: a round evaluates the condition and, if it
//! still holds, waits once. A loop of rounds can wait forever, which is what
//! waiting for a condition means, so the loop itself stands with the caller.

use vstd::prelude::*;

verus! {

/// Provides the inner implementation for a [`Condvar`] over a particular
/// type of raw mutex.
///
/// Implementations must make [`wait`](RawCondvar::wait) safe to call with any
/// mutex of type `RawMutex` that the caller holds for the duration of the
/// call. If an implementation only supports one mutex at a time, `wait` may
/// panic when asked to wait on two distinct mutexes simultaneously.
pub trait RawCondvar: Sized {
    /// Initial value for a new condvar.
    const INIT: Self;

    /// The type of raw mutex this condvar can work with.
    type RawMutex;

    /// Unlock `mutex`, wait for a notification, and lock it again.
    ///
    /// The caller must hold `mutex` for the duration of this call.
    fn wait(&self, mutex: &Self::RawMutex);

    /// Notify a single waiting thread; returns whether one was woken.
    fn notify_one(&self) -> bool;

    /// Notify all waiting threads; returns how many were woken.
    fn notify_all(&self) -> usize;
}

/// Additional methods for [`RawCondvar`] which support timeouts.
pub trait RawCondvarTimed: RawCondvar {
    /// A span of time, as the mutex measures it.
    type Duration;

    /// A point in time, as the mutex measures it.
    type Instant;

    /// Convert `timeout` into the instant it ends at, from now. `None` if
    /// that instant is further into the future than an instant can hold.
    fn checked_duration_to_instant(timeout: &Self::Duration) -> Option<Self::Instant>;

    /// Wait on `mutex`, which the caller holds, until notified or until
    /// `timeout` is reached. Returns whether the timeout was reached.
    fn wait_until(&self, mutex: &Self::RawMutex, timeout: &Self::Instant) -> bool;

    /// Wait on `mutex`, which the caller holds, until notified or until
    /// `timeout` has passed. If the end of `timeout` cannot be represented as
    /// an instant, this waits for a notification and reports no timeout.
    fn wait_for(&self, mutex: &Self::RawMutex, timeout: &Self::Duration) -> (timed_out: bool)
        default_ensures
            exists|deadline: Option<Self::Instant>|
                #[trigger] call_ensures(Self::checked_duration_to_instant, (timeout,), deadline)
                    && (deadline matches Some(t) ==> call_ensures(Self::wait_until, (self, mutex, &t), timed_out))
                    && (deadline is None ==> call_ensures(Self::wait, (self, mutex), ()) && !timed_out),
    {
        match Self::checked_duration_to_instant(timeout) {
            Some(deadline) => self.wait_until(mutex, &deadline),
            None => {
                // If the timeout could not be computed, the wait cannot time
                // out: report `false`.
                self.wait(mutex);
                false
            },
        }
    }
}

/// A type indicating whether a timed wait on a condition variable returned
/// due to a time out or not.
#[derive(Debug, PartialEq, Eq, Copy, Clone, Structural)]
pub struct WaitTimeoutResult(bool);

impl WaitTimeoutResult {
    /// The result of a wait that did, or did not, time out.
    pub fn new(timed_out: bool) -> (r: WaitTimeoutResult)
        ensures
            r.timed_out_spec() == timed_out,
    {
        WaitTimeoutResult(timed_out)
    }

    /// Whether the wait is known to have timed out.
    pub closed spec fn timed_out_spec(self) -> bool {
        self.0
    }

    /// Returns whether the wait was known to have timed out.
    pub fn timed_out(self) -> (r: bool)
        ensures
            r == self.timed_out_spec(),
    {
        self.0
    }
}

/// What a round of a timed wait-while loop came to.
pub enum WaitRound {
    /// The loop is over, with this result.
    Finished(WaitTimeoutResult),
    /// The round waited once, with this result; the loop goes on.
    Waited(WaitTimeoutResult),
}

/// A Condition Variable
///
/// Condition variables represent the ability to block a thread such that it
/// consumes no CPU time while waiting for an event to occur. Condition
/// variables are typically associated with a boolean predicate (a condition)
/// and a mutex. The predicate is always verified inside of the mutex before
/// determining that thread must block.
pub struct Condvar<C> {
    inner: C,
}

impl<C: RawCondvar> Condvar<C> {
    /// The raw condvar underneath.
    pub closed spec fn inner_spec(&self) -> C {
        self.inner
    }

    /// Creates a new condition variable which is ready to be waited on and
    /// notified.
    pub fn new() -> (cv: Condvar<C>)
        ensures
            cv.inner_spec() == C::INIT,
    {
        Condvar { inner: C::INIT }
    }

    /// Returns the underlying raw condvar object.
    pub fn raw(&self) -> (raw: &C)
        ensures
            *raw == self.inner_spec(),
    {
        &self.inner
    }

    /// Wakes up one blocked thread on this condvar; returns whether a thread
    /// was woken up.
    pub fn notify_one(&self) -> (woke: bool)
        ensures
            call_ensures(C::notify_one, (&self.inner_spec(),), woke),
    {
        self.inner.notify_one()
    }

    /// Wakes up all blocked threads on this condvar; returns the number of
    /// threads woken up.
    pub fn notify_all(&self) -> (woken: usize)
        ensures
            call_ensures(C::notify_all, (&self.inner_spec(),), woken),
    {
        self.inner.notify_all()
    }

    /// Blocks the current thread until this condition variable receives a
    /// notification, with `mutex` unlocked meanwhile and locked again on
    /// return. The caller must hold `mutex`.
    pub fn wait(&self, mutex: &C::RawMutex)
        ensures
            call_ensures(C::wait, (&self.inner_spec(), mutex), ()),
    {
        self.inner.wait(mutex)
    }

    /// One round of waiting while `condition` holds of the data that `mutex`
    /// guards: evaluate it, and if it holds, wait once. Returns whether the
    /// wait is over, which it is exactly when the condition did not hold.
    pub fn wait_while_round<T, F: FnMut(&mut T) -> bool>(
        &self,
        mutex: &C::RawMutex,
        data: &mut T,
        mut condition: F,
    ) -> (finished: bool)
        requires
            forall|d: &mut T| #[trigger] condition.requires((d,)),
        ensures
            finished ==> exists|d: &mut T|
                #[trigger] condition.ensures((d,), false) && *d == *old(data) && *final(d)
                    == *final(data),
            !finished ==> exists|d: &mut T|
                #[trigger] condition.ensures((d,), true) && *d == *old(data) && *final(d)
                    == *final(data),
            !finished ==> call_ensures(C::wait, (&self.inner_spec(), mutex), ()),
    {
        let holds = condition(data);
        if holds {
            self.inner.wait(mutex);
        }
        !holds
    }

    /// The debug representation, `Condvar { .. }`.
    pub fn debug_string(&self) -> (s: String)
        ensures
            s@ == "Condvar { .. }"@,
    {
        String::from_str("Condvar { .. }")
    }
}

impl<C: RawCondvarTimed> Condvar<C> {
    /// Waits on this condition variable for a notification, timing out after
    /// the specified time instant. The caller must hold `mutex`.
    pub fn wait_until(&self, mutex: &C::RawMutex, timeout: C::Instant) -> (r: WaitTimeoutResult)
        ensures
            call_ensures(C::wait_until, (&self.inner_spec(), mutex, &timeout), r.timed_out_spec()),
    {
        WaitTimeoutResult(self.inner.wait_until(mutex, &timeout))
    }

    /// Waits on this condition variable for a notification, timing out after
    /// a specified duration. The caller must hold `mutex`.
    pub fn wait_for(&self, mutex: &C::RawMutex, timeout: C::Duration) -> (r: WaitTimeoutResult)
        ensures
            call_ensures(C::wait_for, (&self.inner_spec(), mutex, &timeout), r.timed_out_spec()),
    {
        WaitTimeoutResult(self.inner.wait_for(mutex, &timeout))
    }

    /// One round of waiting, until `timeout`, while `condition` holds of the
    /// data that `mutex` guards. `last` is the previous round's wait, `None`
    /// on the first round.
    ///
    /// Once a wait has timed out the loop is over and the condition is not
    /// evaluated again. Otherwise the condition is evaluated; if it does not
    /// hold the loop is over, and if it does the round waits once.
    pub fn wait_while_until_round<T, F: FnMut(&mut T) -> bool>(
        &self,
        mutex: &C::RawMutex,
        data: &mut T,
        mut condition: F,
        timeout: &C::Instant,
        last: Option<WaitTimeoutResult>,
    ) -> (round: WaitRound)
        requires
            forall|d: &mut T| #[trigger] condition.requires((d,)),
        ensures
            last matches Some(l) ==> (l.timed_out_spec() ==> round == WaitRound::Finished(l)
                && *final(data) == *old(data)),
            round matches WaitRound::Finished(r) ==> (!r.timed_out_spec() ==> exists|d: &mut T|
                #[trigger] condition.ensures((d,), false) && *d == *old(data) && *final(d)
                    == *final(data)),
            round matches WaitRound::Finished(r) ==> (last matches Some(l) ==> r == l) && (last is None ==> !r.timed_out_spec()),
            round is Waited ==> exists|d: &mut T|
                #[trigger] condition.ensures((d,), true) && *d == *old(data) && *final(d)
                    == *final(data),
            round matches WaitRound::Waited(r) ==> call_ensures(
                C::wait_until,
                (&self.inner_spec(), mutex, timeout),
                r.timed_out_spec(),
            ),
    {
        let so_far = match last {
            Some(r) => r,
            None => WaitTimeoutResult(false),
        };
        if so_far.timed_out() {
            return WaitRound::Finished(so_far);
        }
        if !condition(data) {
            return WaitRound::Finished(so_far);
        }
        WaitRound::Waited(WaitTimeoutResult(self.inner.wait_until(mutex, timeout)))
    }

    /// The deadline of a wait for `timeout` from now: what
    /// `checked_duration_to_instant` gives, `None` where the end of
    /// `timeout` cannot be represented.
    pub fn wait_while_for_deadline(timeout: &C::Duration) -> (deadline: Option<C::Instant>)
        ensures
            call_ensures(C::checked_duration_to_instant, (timeout,), deadline),
    {
        C::checked_duration_to_instant(timeout)
    }

    /// One round of waiting, until `deadline` (from
    /// `wait_while_for_deadline`), while `condition` holds of the data that
    /// `mutex` guards. `last` is the previous round's wait, `None` on the
    /// first round.
    ///
    /// As `wait_while_until_round` with `wait_until(deadline)`, except that
    /// with no deadline the round waits for a notification only (`wait`),
    /// and so never reports a timeout.
    pub fn wait_while_for_round<T, F: FnMut(&mut T) -> bool>(
        &self,
        mutex: &C::RawMutex,
        data: &mut T,
        mut condition: F,
        deadline: &Option<C::Instant>,
        last: Option<WaitTimeoutResult>,
    ) -> (round: WaitRound)
        requires
            forall|d: &mut T| #[trigger] condition.requires((d,)),
        ensures
            last matches Some(l) ==> (l.timed_out_spec() ==> round == WaitRound::Finished(l)
                && *final(data) == *old(data)),
            round matches WaitRound::Finished(r) ==> (!r.timed_out_spec() ==> exists|d: &mut T|
                #[trigger] condition.ensures((d,), false) && *d == *old(data) && *final(d)
                    == *final(data)),
            round matches WaitRound::Finished(r) ==> (last matches Some(l) ==> r == l) && (last is None ==> !r.timed_out_spec()),
            round is Waited ==> exists|d: &mut T|
                #[trigger] condition.ensures((d,), true) && *d == *old(data) && *final(d)
                    == *final(data),
            round matches WaitRound::Waited(r) ==> (deadline matches Some(t) ==> call_ensures(
                C::wait_until,
                (&self.inner_spec(), mutex, &t),
                r.timed_out_spec(),
            )),
            round matches WaitRound::Waited(r) ==> (deadline is None ==> call_ensures(
                C::wait,
                (&self.inner_spec(), mutex),
                (),
            ) && !r.timed_out_spec()),
            deadline is None && (last matches Some(l) ==> !l.timed_out_spec()) ==> (
            round matches WaitRound::Finished(r) ==> !r.timed_out_spec()),
    {
        let so_far = match last {
            Some(r) => r,
            None => WaitTimeoutResult(false),
        };
        if so_far.timed_out() {
            return WaitRound::Finished(so_far);
        }
        if !condition(data) {
            return WaitRound::Finished(so_far);
        }
        match deadline {
            Some(t) => WaitRound::Waited(WaitTimeoutResult(self.inner.wait_until(mutex, t))),
            None => {
                self.inner.wait(mutex);
                WaitRound::Waited(WaitTimeoutResult(false))
            },
        }
    }
}

impl<C: RawCondvar> Default for Condvar<C> {
    /// The same as `Condvar::new()`.
    fn default() -> (cv: Condvar<C>)
        ensures
            cv.inner_spec() == C::INIT,
    {
        Condvar::new()
    }
}

} // verus!
