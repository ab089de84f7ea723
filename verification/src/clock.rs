//! Cycle counting and clock seeding.
//!
//! The benchmark wants a hardware cycle counter: a register read that is
//! weakly increasing within a run. This build substitutes the standard
//! library's high-resolution monotonic clock, read as nanoseconds and
//! truncated to 64 bits, at the cost of cycle-level precision. The
//! measurement loop assumes nothing of the values read beyond their type,
//! so the substitution does not weaken any proof.

use vstd::prelude::*;

verus! {

#[verifier::external_type_specification]
#[verifier::external_body]
pub struct ExInstant(std::time::Instant);

#[verifier::external_type_specification]
#[verifier::external_body]
pub struct ExSystemTime(std::time::SystemTime);

/// Relies on std::time::Instant::now: reads the monotonic clock.
#[verifier::external_body]
fn monotonic_now() -> std::time::Instant {
    std::time::Instant::now()
}

/// Relies on std::time::Instant::elapsed: the span from `start` to now,
/// zero if the clock reads earlier than `start`.
#[verifier::external_body]
fn elapsed_since(start: &std::time::Instant) -> std::time::Duration {
    start.elapsed()
}

/// Relies on std::time::Duration::as_nanos: the whole number of
/// nanoseconds in the span.
#[verifier::external_body]
fn duration_nanos(d: &std::time::Duration) -> u128 {
    d.as_nanos()
}

/// Relies on std::time::SystemTime::now: reads the wall clock.
#[verifier::external_body]
fn wall_clock_now() -> std::time::SystemTime {
    std::time::SystemTime::now()
}

/// Relies on std::time::SystemTime::duration_since: the span from the Unix
/// epoch to `t`, or `None` when the wall clock reads earlier than the epoch.
#[verifier::external_body]
fn since_unix_epoch(t: &std::time::SystemTime) -> Option<std::time::Duration> {
    match t.duration_since(std::time::UNIX_EPOCH) {
        Ok(d) => Some(d),
        Err(_) => None,
    }
}

/// A cycle counter: nanoseconds of the monotonic clock since the counter
/// was created, truncated to 64 bits. Weakly increasing across calls on the
/// same counter within a run; no finer contract is stated, and callers must
/// assume nothing of the values read.
pub struct CycleCounter {
    origin: std::time::Instant,
}

impl CycleCounter {
    /// Starts a counter at the present instant.
    pub fn new() -> CycleCounter {
        CycleCounter { origin: monotonic_now() }
    }

    /// Reads the counter: nanoseconds since the counter was created.
    pub fn read(&self) -> u64 {
        let d = elapsed_since(&self.origin);
        let n = duration_nanos(&d);
        #[verifier::truncate]
        (n as u64)
    }
}

/// A per-run seed: nanoseconds of the wall clock since the Unix epoch,
/// truncated to 64 bits, or a fixed nonzero constant should the wall clock
/// read earlier than the epoch. The seed differs per run but the sequence
/// drawn from it is fully deterministic.
pub fn seed_from_clock() -> u64 {
    let t = wall_clock_now();
    match since_unix_epoch(&t) {
        Some(d) => {
            let n = duration_nanos(&d);
            #[verifier::truncate]
            (n as u64)
        },
        None => 0x9e3779b97f4a7c15,
    }
}

} // verus!
