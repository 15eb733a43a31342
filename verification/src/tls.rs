//! The key of a per-thread slot, created on first use.
//!
//! A `Tls` owns one platform key (`pthread_key_t` on unix, an `FlsAlloc`
//! index on Windows). The key is kept biased by one in an atomic word, so
//! that zero means "not yet created" and a fresh `Tls` needs no system call.
//! Creating, destroying and reading the platform slot are system calls made
//! by the caller; what is decided here is which key a thread uses, and
//! whether the key it just created lost the race to install itself.

use vstd::prelude::*;
use core::marker::PhantomData;
use core::sync::atomic::{AtomicUsize, Ordering};

verus! {

/// The word stored for an installed key: the key biased by one.
pub open spec fn biased_spec(key: usize) -> int {
    key + 1
}

/// The key a stored word stands for, if any.
pub open spec fn key_of_spec(word: usize) -> Option<usize> {
    if word == 0 {
        None
    } else {
        Some((word - 1) as usize)
    }
}

/// The word that stands for `key`.
pub fn biased(key: usize) -> (word: usize)
    requires
        key < usize::MAX,
    ensures
        word == biased_spec(key),
        word != 0,
{
    key + 1
}

/// The key that `word` stands for: `None` for zero, "not yet created".
pub fn key_of(word: usize) -> (key: Option<usize>)
    ensures
        key == key_of_spec(word),
{
    if word == 0 {
        None
    } else {
        Some(word - 1)
    }
}

/// A stored key reads back as itself, and nothing reads as a key before one
/// is stored.
pub proof fn law_key_round_trip(key: usize)
    requires
        key < usize::MAX,
    ensures
        key_of_spec(biased_spec(key) as usize) == Some(key),
        key_of_spec(0) is None,
{
}

/// `AtomicUsize::compare_exchange`. On success the previous value is the one
/// expected and the new one was written; on failure the previous value was
/// some other value and nothing was written. Which of the two happens depends
/// on other threads, so nothing more is stated.
#[verifier::external_body]
fn compare_exchange_word(word: &AtomicUsize, current: usize, new: usize) -> (r: Result<usize, usize>)
    ensures
        r matches Ok(previous) ==> previous == current,
        r matches Err(previous) ==> previous != current,
{
    word.compare_exchange(current, new, Ordering::AcqRel, Ordering::Acquire)
}

/// The outcome of offering a freshly created key.
#[derive(Clone, Copy, Debug, PartialEq, Eq, Structural)]
pub enum KeyClaim {
    /// The fresh key was installed and is this slot's key from now on.
    Installed(usize),
    /// Another thread installed its key first. The fresh key holds no value
    /// on any thread and is to be destroyed; `winner` is the slot's key.
    Lost { fresh: usize, winner: usize },
}

/// What offering `fresh` came to, given what the compare-exchange of the
/// slot's word from zero to `fresh`'s word returned.
pub open spec fn claim_outcome_spec(fresh: usize, exchanged: Result<usize, usize>) -> KeyClaim {
    match exchanged {
        Ok(_) => KeyClaim::Installed(fresh),
        Err(word) => KeyClaim::Lost { fresh, winner: (word - 1) as usize },
    }
}

/// What offering `fresh` came to, given what the compare-exchange of the
/// slot's word from zero to `fresh`'s word returned: installed if it
/// succeeded; otherwise lost to the key that the word it found stands for.
pub fn claim_outcome(fresh: usize, exchanged: Result<usize, usize>) -> (claim: KeyClaim)
    requires
        fresh < usize::MAX,
        exchanged matches Err(word) ==> word != 0,
    ensures
        claim == claim_outcome_spec(fresh, exchanged),
        claim matches KeyClaim::Lost { winner, .. } ==> exchanged matches Err(word)
            && key_of_spec(word) == Some(winner),
{
    match exchanged {
        Ok(_) => KeyClaim::Installed(fresh),
        Err(word) => KeyClaim::Lost { fresh, winner: word - 1 },
    }
}

/// One thread-local slot holding a `T` per thread.
pub struct Tls<T> {
    /// The platform key, biased by one, so that zero means "not yet created".
    /// Windows keys are `u32` and unix keys are `pthread_key_t`; a `usize`
    /// holds either.
    key: AtomicUsize,
    owns: PhantomData<T>,
}

impl<T> Tls<T> {
    /// A slot whose key is not created yet.
    pub fn new() -> (tls: Self) {
        Self { key: AtomicUsize::new(0), owns: PhantomData }
    }

    /// The key, if some thread has installed one.
    pub fn existing_key(&self) -> (key: Option<usize>)
        ensures
            key matches Some(k) ==> k < usize::MAX,
    {
        let word = self.key.load(Ordering::Acquire);
        key_of(word)
    }

    /// Offer `fresh`, a key this thread just created, as the slot's key.
    ///
    /// Racing threads each create a key and one of them wins; the losers are
    /// told to hand theirs straight back. A lock cannot do this once instead:
    /// the queue lock reaches for a `Tls` of its own when it has to park, so
    /// a `Tls` that locked to create its key could re-enter that same lock.
    ///
    /// Which outcome comes about depends on other threads; what each means
    /// is `claim_outcome`, applied to what the compare-exchange returned.
    pub fn claim_key(&self, fresh: usize) -> (claim: KeyClaim)
        requires
            fresh < usize::MAX,
        ensures
            claim matches KeyClaim::Installed(k) ==> k == fresh,
            claim matches KeyClaim::Lost { fresh: f, winner } ==> f == fresh && winner < usize::MAX,
    {
        let exchanged = compare_exchange_word(&self.key, 0, biased(fresh));
        claim_outcome(fresh, exchanged)
    }
}

} // verus!
