//! A cache-hierarchy throughput benchmark library.
//!
//! The library holds the verified core of a small measurement harness: a
//! deterministic xorshift64 pseudo-random generator used to fill the arrays
//! under test, a wrapping checksum that serves as a correctness oracle for
//! every timed repetition, a best-of-N measurement loop driven by a
//! monotonic cycle counter, and the fixed-point rendering of the final
//! elements-per-cycle report.

pub mod bench;
pub mod clock;
pub mod report;
pub mod rng;
