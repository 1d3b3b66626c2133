//! A simulated hardware timer: elapsed microseconds since construction, read
//! from the host's monotonic clock and wrapped to the 32-bit width that
//! embedded timing arithmetic uses. A blocking delay is deliberately
//! unsupported: sleeping inside the single-threaded simulation loop would
//! freeze the whole run, so the operation signals failure instead.

use vstd::arithmetic::div_mod::lemma_add_mod_noop;
use vstd::arithmetic::div_mod::lemma_mod_add_multiples_vanish;
use vstd::arithmetic::div_mod::lemma_mul_mod_noop_left;
use vstd::arithmetic::div_mod::lemma_small_mod;
use vstd::prelude::*;

verus! {

/// One past the largest value `now` can return: elapsed microseconds are
/// reported modulo this width, exactly as a free-running 32-bit hardware
/// timer would wrap.
pub const WRAP_MODULUS: u64 = 0x1_0000_0000;

/// A count of microseconds reduced to the 32-bit timer width.
pub open spec fn wrapped(micros: int) -> int {
    micros % (WRAP_MODULUS as int)
}

/// Elapsed microseconds described by a whole-second part and a nanosecond
/// remainder, truncated to whole microseconds.
pub open spec fn total_micros(secs: int, subsec_nanos: int) -> int {
    secs * 1_000_000 + subsec_nanos / 1000
}

/// Relies on std::time::Instant: an opaque reading of the host's monotonic
/// clock, carried through but never inspected.
#[verifier::external_type_specification]
#[verifier::external_body]
pub struct ExInstant(std::time::Instant);

/// Relies on std::time::Instant::now: a reading of the monotonic clock.
/// Nothing can be promised of a clock reading.
pub assume_specification[ std::time::Instant::now ]() -> std::time::Instant;

/// Relies on std::time::Instant::elapsed: the duration from `start` to the
/// moment of the call. The value depends on real time, so nothing is promised
/// of it; std documents the underlying clock as monotonic, but a relation
/// between two separate calls cannot be stated here.
pub assume_specification[ std::time::Instant::elapsed ](start: &std::time::Instant) -> std::time::Duration;

/// Relies on core::time::Duration::as_secs: the whole-second part of the
/// duration. The duration is opaque here, so nothing more can be stated.
pub assume_specification[ core::time::Duration::as_secs ](d: &core::time::Duration) -> u64;

/// Relies on core::time::Duration::subsec_nanos: the fractional part of the
/// duration in nanoseconds, documented to be less than one billion.
pub assume_specification[ core::time::Duration::subsec_nanos ](d: &core::time::Duration) -> (r: u32)
    ensures
        r < 1_000_000_000,
;

/// The elapsed-time reading, split into whole seconds and the nanosecond
/// remainder, reduced to the 32-bit microsecond count a hardware timer would
/// show: the total number of whole microseconds, modulo the timer width.
pub fn wrap_micros(secs: u64, subsec_nanos: u32) -> (r: u32)
    requires
        subsec_nanos < 1_000_000_000,
    ensures
        r == wrapped(total_micros(secs as int, subsec_nanos as int)),
{
    let secs_low: u64 = secs % WRAP_MODULUS;
    let sub_micros: u64 = (subsec_nanos / 1000) as u64;
    let micros: u64 = secs_low * 1_000_000 + sub_micros;
    proof {
        let m = WRAP_MODULUS as int;
        lemma_mul_mod_noop_left(secs as int, 1_000_000, m);
        lemma_add_mod_noop(secs_low as int * 1_000_000, sub_micros as int, m);
        lemma_add_mod_noop(secs as int * 1_000_000, sub_micros as int, m);
        lemma_small_mod(sub_micros as nat, WRAP_MODULUS as nat);
        lemma_small_mod((secs_low as int * 1_000_000 % m) as nat, WRAP_MODULUS as nat);
    }
    (micros % WRAP_MODULUS) as u32
}

/// The wrap is periodic: two elapsed times a full timer width apart give the
/// same reading, so the boundary behaviour is fixed by the width alone.
pub proof fn lemma_wrap_periodic(micros: int)
    ensures
        wrapped(micros + WRAP_MODULUS) == wrapped(micros),
{
    lemma_mod_add_multiples_vanish(micros, WRAP_MODULUS as int);
}

/// Below the wrap boundary the reading is the elapsed time itself, so between
/// wraps the reading is non-decreasing in elapsed time.
pub proof fn lemma_wrapped_monotone_below_wrap(m1: int, m2: int)
    requires
        0 <= m1 <= m2 < WRAP_MODULUS,
    ensures
        wrapped(m1) == m1,
        wrapped(m2) == m2,
        wrapped(m1) <= wrapped(m2),
{
    lemma_small_mod(m1 as nat, WRAP_MODULUS as nat);
    lemma_small_mod(m2 as nat, WRAP_MODULUS as nat);
}

/// The error a blocking delay reports: the simulation cannot sleep.
#[derive(Clone, Copy, Debug, PartialEq, Eq, Structural)]
pub struct DelayUnsupported;

/// The simulated timer: a fixed reference instant captured at construction;
/// every `now` call reports elapsed time since that instant.
pub struct SimulatedTime {
    start: std::time::Instant,
}

impl SimulatedTime {
    /// A timer whose zero point is the moment of construction.
    pub fn new() -> SimulatedTime {
        SimulatedTime { start: std::time::Instant::now() }
    }

    /// Elapsed microseconds since construction, modulo the 32-bit timer
    /// width. The value depends on the host clock, so no more can be said of
    /// it here; the reduction of a reading to the wrapped count is stated and
    /// proved on `wrap_micros`.
    pub fn now(&self) -> u32 {
        let elapsed = self.start.elapsed();
        let secs = elapsed.as_secs();
        let nanos = elapsed.subsec_nanos();
        wrap_micros(secs, nanos)
    }

    /// A blocking delay is unsupported: sleeping here would freeze the
    /// single-threaded simulation loop and desynchronize simulated time from
    /// wall time, so every call reports failure rather than sleeping or
    /// silently returning.
    pub fn delay(&self, _micros: u32) -> (r: Result<(), DelayUnsupported>)
        ensures
            r is Err,
    {
        Err(DelayUnsupported)
    }
}

} // verus!
