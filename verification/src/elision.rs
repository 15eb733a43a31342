//! Hardware lock elision, which this build does not do.
//!
//! The x86 `xacquire`/`xrelease` prefixes are not used, so `have_elision` is
//! `false` and the extension below is the inert one, whose operations are
//! guarded by `have_elision()` and so never run.

use vstd::prelude::*;
use core::sync::atomic::AtomicUsize;

verus! {

/// Whether the target supports hardware lock elision: never, here.
pub open spec fn elision_supported() -> bool {
    false
}

/// Indicates whether the target architecture supports lock elision.
pub fn have_elision() -> (r: bool)
    ensures
        r == elision_supported(),
{
    false
}

/// Extension trait to add lock elision primitives to atomic types.
///
/// Its operations may only be called where `have_elision()` is true.
pub trait AtomicElisionExt {
    /// The integer the atomic holds.
    type IntType;

    /// Perform a compare_exchange and start a transaction.
    fn elision_compare_exchange_acquire(&self, current: Self::IntType, new: Self::IntType) -> Result<
        Self::IntType,
        Self::IntType,
    >
        requires
            elision_supported(),
    ;

    /// Perform a fetch_sub and end a transaction.
    fn elision_fetch_sub_release(&self, val: Self::IntType) -> Self::IntType
        requires
            elision_supported(),
    ;
}

impl AtomicElisionExt for AtomicUsize {
    type IntType = usize;

    /// Never called: every call site is guarded by `have_elision()`.
    fn elision_compare_exchange_acquire(&self, current: usize, new: usize) -> Result<usize, usize> {
        Err(current)
    }

    /// Never called: every call site is guarded by `have_elision()`.
    fn elision_fetch_sub_release(&self, val: usize) -> usize {
        val
    }
}

} // verus!
