//! The monotonic clock the parking lot uses.
//!
//! A reading is a count of nanoseconds since an unspecified origin (boot, on
//! the platforms this crate supports), held in 128 bits. Three things are
//! asked of it: build one from a platform clock reading, add a `Duration`, and
//! measure the gap between two readings.

use vstd::prelude::*;
use core::time::Duration;

verus! {

/// Nanoseconds in one second.
pub const NANOS_PER_SEC: u128 = 1_000_000_000;

/// What `Duration::as_nanos` returns for `d`: its whole length in nanoseconds.
pub uninterp spec fn duration_total_nanos(d: Duration) -> u128;

/// The length in nanoseconds of `Duration::new(secs, nanos)` once the seconds
/// part has been truncated to 64 bits, as an `as u64` cast does.
pub open spec fn split_duration_nanos(gap: int) -> int {
    ((gap / 1_000_000_000) as u64) * 1_000_000_000 + gap % 1_000_000_000
}

/// `Duration::new(secs, nanos)`.
///
/// With `nanos` below one second nothing carries into the seconds, so the
/// call cannot panic, and the result is `secs` seconds and `nanos`
/// nanoseconds long, which is what its contract states.
#[verifier::external_body]
fn duration_from_parts(secs: u64, nanos: u32) -> (d: Duration)
    requires
        nanos < 1_000_000_000,
    ensures
        duration_total_nanos(d) == secs * 1_000_000_000 + nanos,
{
    Duration::new(secs, nanos)
}

/// The exclusive bound on a `Duration`'s length in nanoseconds: it holds a
/// `u64` count of seconds and fewer than a billion nanoseconds besides.
pub open spec fn duration_nanos_bound() -> int {
    0x1_0000_0000_0000_0000int * 1_000_000_000int
}

/// `Duration::as_nanos`: the whole length of `d` in nanoseconds, named by
/// `duration_total_nanos`. A `Duration` is `as_secs()` (a `u64`) seconds and
/// `subsec_nanos()` (below one billion) nanoseconds, so the length is below
/// 2^64 seconds.
#[verifier::external_body]
fn duration_as_nanos(d: &Duration) -> (n: u128)
    ensures
        n == duration_total_nanos(*d),
        n < duration_nanos_bound(),
{
    d.as_nanos()
}

/// The whole length of `d` in nanoseconds.
pub fn duration_nanos(d: &Duration) -> (n: u128)
    ensures
        n == duration_total_nanos(*d),
        n < duration_nanos_bound(),
{
    duration_as_nanos(d)
}

/// A point on the system's monotonic clock.
///
/// `CLOCK_MONOTONIC` on unix and `QueryPerformanceCounter` on Windows, which
/// are the sources `std::time::Instant` uses on those platforms, so a timeout
/// here means what a timeout there means.
#[derive(Clone, Copy, Debug, Eq, Ord, PartialEq, PartialOrd, Structural)]
pub struct Instant {
    nanos: u128,
}

impl View for Instant {
    type V = nat;

    /// Nanoseconds since the clock's origin.
    open spec fn view(&self) -> nat {
        self.nanos_spec() as nat
    }
}

impl Instant {
    /// The reading `nanos` nanoseconds after the clock's origin.
    pub closed spec fn at_nanos(nanos: u128) -> Instant {
        Instant { nanos }
    }

    /// The raw nanosecond count.
    pub closed spec fn nanos_spec(self) -> u128 {
        self.nanos
    }

    /// The reading `clock_gettime(CLOCK_MONOTONIC)` reports as `tv_sec` whole
    /// seconds and `tv_nsec` nanoseconds.
    pub fn from_timespec(tv_sec: i64, tv_nsec: i64) -> (r: Instant)
        requires
            tv_sec >= 0,
            tv_nsec >= 0,
        ensures
            r@ == tv_sec * 1_000_000_000 + tv_nsec,
    {
        let secs = tv_sec as u128;
        let sub = tv_nsec as u128;
        assert(secs * 1_000_000_000 <= 0x8000_0000_0000_0000u128 * 1_000_000_000) by (nonlinear_arith)
            requires
                secs < 0x8000_0000_0000_0000u128,
        ;
        Instant { nanos: secs * 1_000_000_000 + sub }
    }

    /// The reading `QueryPerformanceCounter` reports as `ticks`, on a counter
    /// that runs at `frequency` ticks per second.
    pub fn from_performance_counter(ticks: i64, frequency: u64) -> (r: Instant)
        requires
            ticks >= 0,
            frequency > 0,
        ensures
            r@ == ticks * 1_000_000_000 / (frequency as int),
    {
        let t = ticks as u128;
        assert(t * 1_000_000_000 <= 0x8000_0000_0000_0000u128 * 1_000_000_000) by (nonlinear_arith)
            requires
                t < 0x8000_0000_0000_0000u128,
        ;
        let scaled = t * 1_000_000_000;
        Instant { nanos: scaled / (frequency as u128) }
    }

    /// Nanoseconds since the clock's origin.
    pub fn as_nanos(self) -> (n: u128)
        ensures
            n == self@,
    {
        self.nanos
    }

    /// How long after `earlier` this reading is: zero, rather than a wrapped
    /// value, if a caller has the two the wrong way round.
    pub fn saturating_duration_since(self, earlier: Self) -> (d: Duration)
        ensures
            duration_total_nanos(d) == split_duration_nanos(gap_nanos(self, earlier)),
    {
        let nanos = self.nanos.saturating_sub(earlier.nanos);
        duration_from_parts((nanos / 1_000_000_000) as u64, (nanos % 1_000_000_000) as u32)
    }

    /// `None` if `earlier` is later, rather than a zero `Duration`.
    pub fn checked_duration_since(self, earlier: Self) -> (r: Option<Duration>)
        ensures
            r is Some <==> self@ >= earlier@,
            r matches Some(d) ==> duration_total_nanos(d) == split_duration_nanos(gap_nanos(self, earlier)),
    {
        if self.nanos >= earlier.nanos {
            Some(self.saturating_duration_since(earlier))
        } else {
            None
        }
    }

    /// Always `Some`: the counter is 128 bits wide and starts at boot, so a
    /// sum that does not fit in it is a caller's error, not a far deadline.
    pub fn checked_add(self, duration: Duration) -> (r: Option<Self>)
        requires
            self@ + duration_total_nanos(duration) <= u128::MAX,
        ensures
            r matches Some(later) && later@ == self@ + duration_total_nanos(duration),
    {
        Some(self + duration)
    }
}

/// The gap from `earlier` to `later` in nanoseconds, or zero if `earlier` is
/// the later of the two.
pub open spec fn gap_nanos(later: Instant, earlier: Instant) -> int {
    if later@ >= earlier@ {
        later@ - earlier@
    } else {
        0
    }
}

/// Measuring from a reading to the reading a `Duration` after it (what
/// `checked_add` and `+` give) gives that `Duration` back, nanosecond for
/// nanosecond: `checked_duration_since` is `Some` of it, and measuring the
/// other way gives zero. (Every `Duration` is shorter than 2^64 seconds.)
pub proof fn law_add_then_measure(start: Instant, later: Instant, d: Duration)
    requires
        later@ == start@ + duration_total_nanos(d),
        duration_total_nanos(d) < duration_nanos_bound(),
    ensures
        later@ >= start@,
        split_duration_nanos(gap_nanos(later, start)) == duration_total_nanos(d),
        split_duration_nanos(gap_nanos(start, later)) == 0,
{
    let n = duration_total_nanos(d) as int;
    assert(gap_nanos(later, start) == n);
    assert(n / 1_000_000_000 < 0x1_0000_0000_0000_0000) by (nonlinear_arith)
        requires
            0 <= n < 0x1_0000_0000_0000_0000 * 1_000_000_000,
    ;
    vstd::arithmetic::div_mod::lemma_fundamental_div_mod(n, 1_000_000_000);
}

/// Adding durations one after the other is adding their lengths: adding
/// `d1` then `d2` lands where a single step of both lengths does, and a
/// zero-length duration leaves a reading where it was.
pub proof fn law_add_composes(a: Instant, b: Instant, c: Instant, d1: Duration, d2: Duration)
    requires
        b@ == a@ + duration_total_nanos(d1),
        c@ == b@ + duration_total_nanos(d2),
    ensures
        c@ == a@ + (duration_total_nanos(d1) + duration_total_nanos(d2)),
        duration_total_nanos(d1) == 0 ==> b == a,
{
}

/// Measuring from a later reading to an earlier one gives zero, not a
/// wrapped-around length.
pub proof fn law_measure_backwards_is_zero(earlier: Instant, later: Instant)
    requires
        earlier@ <= later@,
    ensures
        split_duration_nanos(gap_nanos(earlier, later)) == 0,
{
}

impl core::ops::Add<Duration> for Instant {
    type Output = Self;

    fn add(self, duration: Duration) -> (later: Self)
        ensures
            later@ == self@ + duration_total_nanos(duration),
    {
        let n = duration_as_nanos(&duration);
        Instant { nanos: self.nanos + n }
    }
}

impl vstd::std_specs::ops::AddSpecImpl<Duration> for Instant {
    open spec fn obeys_add_spec() -> bool {
        true
    }

    open spec fn add_req(self, duration: Duration) -> bool {
        self@ + duration_total_nanos(duration) <= u128::MAX
    }

    open spec fn add_spec(self, duration: Duration) -> Instant {
        Instant::at_nanos((self.nanos_spec() + duration_total_nanos(duration)) as u128)
    }
}

impl core::ops::Sub for Instant {
    type Output = Duration;

    fn sub(self, earlier: Self) -> (d: Duration)
        ensures
            duration_total_nanos(d) == split_duration_nanos(gap_nanos(self, earlier)),
    {
        self.saturating_duration_since(earlier)
    }
}

impl vstd::std_specs::ops::SubSpecImpl for Instant {
    /// A `Duration` is opaque to the verifier, so `-` is specified by the
    /// `ensures` of `sub` rather than by a spec value.
    open spec fn obeys_sub_spec() -> bool {
        false
    }

    open spec fn sub_req(self, earlier: Instant) -> bool {
        true
    }

    open spec fn sub_spec(self, earlier: Instant) -> Duration {
        arbitrary()
    }
}

} // verus!
