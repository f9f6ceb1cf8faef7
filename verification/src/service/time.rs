//! The time service: wall-clock time and time since the runtime started.
use vstd::prelude::*;
use std::time::{Duration, Instant, SystemTime, SystemTimeError};

verus! {

#[verifier::external_type_specification]
#[verifier::external_body]
pub struct ExInstant(Instant);

#[verifier::external_type_specification]
#[verifier::external_body]
pub struct ExSystemTime(SystemTime);

#[verifier::external_type_specification]
#[verifier::external_body]
pub struct ExSystemTimeError(SystemTimeError);

/// `Instant::now`: the current reading of the monotonic clock. Nothing is stated of it:
/// it depends on the time.
#[verifier::external_body]
fn instant_now() -> Instant {
    Instant::now()
}

/// `Instant::elapsed`: the time since `i`. Nothing is stated of it: it depends on the time.
#[verifier::external_body]
fn instant_elapsed(i: &Instant) -> Duration {
    i.elapsed()
}

/// `SystemTime::now`: the current wall-clock time. Nothing is stated of it: it depends
/// on the time.
#[verifier::external_body]
fn system_now() -> SystemTime {
    SystemTime::now()
}

/// `SystemTime::duration_since` with `UNIX_EPOCH`: the time since the epoch, or an
/// error where the clock reads earlier. Nothing is stated of the outcome: it depends on
/// the clock.
#[verifier::external_body]
fn since_epoch(t: &SystemTime) -> Result<Duration, SystemTimeError> {
    t.duration_since(std::time::UNIX_EPOCH)
}

/// `Duration::as_nanos`: the whole nanoseconds of `d`. The duration is opaque here, so
/// no clause ties the result to it.
#[verifier::external_body]
fn duration_as_nanos(d: &Duration) -> u128 {
    d.as_nanos()
}

/// `Duration::as_millis`: the whole milliseconds of `d`. The duration is opaque here, so
/// no clause ties the result to it.
#[verifier::external_body]
fn duration_as_millis(d: &Duration) -> u128 {
    d.as_millis()
}

/// Keeps the moment the runtime started.
pub struct TimeManager {
    pub boot_time: Instant,
}

/// Nanoseconds in a millisecond.
pub const NANOS_PER_MILLI: u64 = 1_000_000;

impl TimeManager {
    /// A time manager that counts from now.
    pub fn new() -> (t: Self) {
        TimeManager { boot_time: instant_now() }
    }

    /// Nanoseconds since the Unix epoch, cut to a machine word; `None` where the clock
    /// reads a time before the epoch, which the caller treats as fatal.
    pub fn get_time_ns(&self) -> (ns: Option<usize>) {
        let now = system_now();
        match since_epoch(&now) {
            Ok(d) => Some(clock_word(duration_as_nanos(&d))),
            Err(_) => None,
        }
    }

    /// Milliseconds since the runtime started, cut to a machine word.
    pub fn get_uptime_ms(&self) -> (ms: usize) {
        let d = instant_elapsed(&self.boot_time);
        clock_word(duration_as_millis(&d))
    }
}

/// A clock reading as a machine word: cut to the word's width.
pub fn clock_word(reading: u128) -> (w: usize)
    ensures
        w == reading as usize,
{
    #[verifier::truncate]
    (reading as usize)
}

/// Milliseconds as nanoseconds.
pub fn uptime_ns_from_ms(ms: usize) -> (ns: u64)
    requires
        ms * NANOS_PER_MILLI <= u64::MAX,
    ensures
        ns == ms * NANOS_PER_MILLI,
{
    (ms as u64) * NANOS_PER_MILLI
}

} // verus!
