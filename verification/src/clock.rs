//! The monotonic clock handed to the calculator.
//!
//! The calculator only ever asks one question: how many milliseconds have
//! passed.  A `System` clock answers from the machine's monotonic timer; a
//! `Manual` clock replays a scripted sequence of readings, so a run can
//! simulate elapsed time deterministically, without sleeping.

use std::time::Duration;
use std::time::Instant;
use vstd::prelude::*;

verus! {

#[verifier::external_type_specification]
#[verifier::external_body]
pub struct ExInstant(Instant);

/// Relies on std::time::Instant::now: an opaque reading of the machine's
/// monotonic clock; nothing can be promised of its value.
#[verifier::external_body]
fn instant_now() -> Instant {
    Instant::now()
}

/// Relies on std::time::Instant::elapsed: the span from the earlier reading
/// to now; nothing can be promised of its value.
#[verifier::external_body]
fn elapsed_of(earlier: &Instant) -> Duration {
    earlier.elapsed()
}

/// Relies on std::time::Duration::as_millis; the conversion into 64 bits
/// truncates, which first matters after half a billion years.
#[verifier::external_body]
fn duration_millis(d: &Duration) -> u64 {
    d.as_millis() as u64
}

/// What a manual clock answers at cursor position `next`: the scripted
/// reading there, the last reading once the script is exhausted, and zero
/// for an empty script.
pub open spec fn manual_read_at(readings: Seq<u64>, next: int) -> u64 {
    if 0 <= next < readings.len() {
        readings[next]
    } else if readings.len() > 0 {
        readings[readings.len() - 1]
    } else {
        0
    }
}

/// A source of elapsed-time readings in milliseconds.
pub enum MonotonicClock {
    /// The machine's own monotonic timer, read relative to `epoch`.
    System { epoch: Instant },
    /// A scripted sequence of readings, replayed in order.
    Manual { readings: Vec<u64>, next: usize },
}

impl MonotonicClock {
    /// Every reading such a clock can ever answer stays below `bound`.
    pub open spec fn always_below(self, bound: u64) -> bool {
        match self {
            MonotonicClock::System { .. } => false,
            MonotonicClock::Manual { readings, next } => forall|i: int|
                0 <= i < readings@.len() ==> readings@[i] < bound,
        }
    }

    /// A clock that reads the machine's monotonic timer, starting now.
    pub fn system() -> (c: MonotonicClock)
        ensures
            c is System,
    {
        MonotonicClock::System { epoch: instant_now() }
    }

    /// A clock that replays the given readings in order.
    pub fn manual(readings: Vec<u64>) -> (c: MonotonicClock)
        ensures
            c == (MonotonicClock::Manual { readings, next: 0usize }),
    {
        MonotonicClock::Manual { readings, next: 0 }
    }

    /// The current reading in milliseconds.  A manual clock answers its
    /// script exactly and advances; a system clock answers the machine.
    pub fn now_millis(&mut self) -> (t: u64)
        ensures
            (*old(self)) is System ==> *final(self) == *old(self),
            (*old(self)) matches MonotonicClock::Manual { readings, next } ==> {
                &&& t == manual_read_at(readings@, next as int)
                &&& *final(self) == (MonotonicClock::Manual {
                    readings,
                    next: (if (next as int) < readings@.len() {
                        (next + 1) as usize
                    } else {
                        next
                    }),
                })
            },
    {
        match self {
            MonotonicClock::System { epoch } => {
                let d = elapsed_of(epoch);
                duration_millis(&d)
            },
            MonotonicClock::Manual { readings, next } => {
                let t: u64 = if *next < readings.len() {
                    readings[*next]
                } else if readings.len() > 0 {
                    readings[readings.len() - 1]
                } else {
                    0
                };
                if *next < readings.len() {
                    *next = *next + 1;
                }
                t
            },
        }
    }
}

} // verus!
