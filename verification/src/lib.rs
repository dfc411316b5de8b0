//! A fixed-cadence sampling core: a monotonic time source, a stopwatch built
//! on it, a renewable countdown with carry-over semantics, and the
//! drift-compensating scheduling rules that tie them together.
//!
//! All durations are whole nanoseconds held in a `u64`.

pub mod clock;
pub mod sched;
