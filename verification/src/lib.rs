//! `parking_lot`'s building blocks without `std`: a monotonic clock reading,
//! the key of a per-thread slot, the bookkeeping of the raw condition
//! variable, and the generic condition variable front end.

pub mod condvar;
pub mod elision;
pub mod raw_condvar;
pub mod time;
pub mod tls;
