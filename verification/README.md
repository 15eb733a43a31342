# parking_lot_lite_hack

The verified core of a `no_std` build of `parking_lot`'s condition variable
and its platform substitutions, written in Verus.

- `src/time.rs`: the monotonic `Instant`, built from a clock reading, with
  duration arithmetic proved free of wrap-around.
- `src/tls.rs`: the key of a per-thread slot, stored biased by one, and the
  race between threads installing it.
- `src/raw_condvar.rs`: the decisions of the raw condition variable (which
  mutex it is bound to, what a notification asks of the parking lot, what a
  wait reports), with their laws.
- `src/condvar.rs`: the generic `Condvar<C>` over a user-supplied raw
  condition variable, and one round at a time of its wait-while loops.
- `src/elision.rs`: hardware lock elision, which this build never does.

`app/` holds what needs system calls or `unsafe`: reading the clock, the
platform thread-local slot, and parking threads through `parking_lot_core`.
