//! The system clock, which tells how long ago a stream address was obtained.

use std::time::{SystemTime, UNIX_EPOCH};
use vstd::prelude::*;

verus! {

/// Nanoseconds in a second.
pub const NANOS_PER_SEC: u64 = 1_000_000_000;

/// An instant, as the number of nanoseconds since the Unix epoch (negative
/// before it).
#[derive(Clone, Copy, Debug, PartialEq, Eq, Structural)]
pub struct Timestamp {
    pub since_epoch_nanos: i128,
}

/// Reads the system clock with `SystemTime::now` and measures it from
/// `UNIX_EPOCH` with `SystemTime::duration_since`: `Ok` holds the whole
/// seconds and sub-second nanoseconds after the epoch, `Err` those before it
/// (the duration of the `SystemTimeError`).  The reading depends on the
/// clock, so only what holds of every outcome is claimed: the nanoseconds of
/// a `Duration` are below one second.
#[verifier::external_body]
fn read_clock_since_epoch() -> (r: Result<(u64, u32), (u64, u32)>)
    ensures
        match r {
            Ok((_, nanos)) => nanos < NANOS_PER_SEC,
            Err((_, nanos)) => nanos < NANOS_PER_SEC,
        },
{
    match SystemTime::now().duration_since(UNIX_EPOCH) {
        Ok(d) => Ok((d.as_secs(), d.subsec_nanos())),
        Err(e) => Err((e.duration().as_secs(), e.duration().subsec_nanos())),
    }
}

impl Timestamp {
    /// The instant a clock reading stands for: so many seconds and
    /// nanoseconds after the epoch (`Ok`) or before it (`Err`).
    pub open spec fn spec_from_reading(reading: Result<(u64, u32), (u64, u32)>) -> Timestamp {
        match reading {
            Ok((secs, nanos)) => Timestamp { since_epoch_nanos: (secs * NANOS_PER_SEC + nanos) as i128 },
            Err((secs, nanos)) => Timestamp {
                since_epoch_nanos: (-(secs * NANOS_PER_SEC + nanos)) as i128,
            },
        }
    }

    /// The instant a clock reading stands for.
    pub fn from_reading(reading: Result<(u64, u32), (u64, u32)>) -> (r: Timestamp)
        ensures
            r == Timestamp::spec_from_reading(reading),
    {
        match reading {
            Ok((secs, nanos)) => {
                assert(secs * NANOS_PER_SEC <= u64::MAX * NANOS_PER_SEC) by (nonlinear_arith);
                Timestamp { since_epoch_nanos: (secs as i128) * (NANOS_PER_SEC as i128) + (nanos as i128) }
            },
            Err((secs, nanos)) => {
                assert(secs * NANOS_PER_SEC <= u64::MAX * NANOS_PER_SEC) by (nonlinear_arith);
                Timestamp {
                    since_epoch_nanos: -((secs as i128) * (NANOS_PER_SEC as i128) + (nanos as i128)),
                }
            },
        }
    }

    /// The current instant by the system clock.  Nothing is claimed of which
    /// instant it is.
    pub fn now() -> (r: Timestamp) {
        Timestamp::from_reading(read_clock_since_epoch())
    }
}

} // verus!
