//! The current time, read from the system clock.

use vstd::prelude::*;

use std::time::SystemTime;

use crate::schema::Timestamp;

verus! {

/// A reading of the system clock.
#[verifier::external_type_specification]
#[verifier::external_body]
pub struct ExSystemTime(SystemTime);

/// Where a clock reading lies relative to the Unix epoch, as whole seconds
/// and the nanoseconds past them.
#[derive(Clone, Copy, Debug, PartialEq, Eq, Structural)]
pub enum ClockReading {
    /// This long after the epoch.
    After { secs: u64, nanos: u32 },
    /// This long before the epoch.
    Before { secs: u64, nanos: u32 },
}

/// Relies on `SystemTime::now`: the system clock's current reading.
#[verifier::external_body]
fn system_now() -> SystemTime {
    SystemTime::now()
}

/// Relies on `SystemTime::duration_since` with `UNIX_EPOCH`: how far the
/// reading lies from the epoch, on either side; `Duration::subsec_nanos`
/// is documented to stay below one second.
#[verifier::external_body]
fn since_epoch(t: &SystemTime) -> (r: ClockReading)
    ensures
        match r {
            ClockReading::After { nanos, .. } => nanos < 1_000_000_000,
            ClockReading::Before { nanos, .. } => nanos < 1_000_000_000,
        },
{
    match t.duration_since(SystemTime::UNIX_EPOCH) {
        Ok(d) => ClockReading::After { secs: d.as_secs(), nanos: d.subsec_nanos() },
        Err(e) => ClockReading::Before { secs: e.duration().as_secs(), nanos: e.duration().subsec_nanos() },
    }
}

/// Whether `t` stands for the clock reading `r`: the same instant, as
/// whole seconds and the nanoseconds past them, with the nanoseconds in
/// `0..1_000_000_000`. A reading too far from the epoch for `i64` seconds
/// is held at the nearest bound: `i64::MAX` seconds after it keeping the
/// nanoseconds, or `i64::MIN` seconds before it.
pub open spec fn stands_for(t: Timestamp, r: ClockReading) -> bool {
    &&& 0 <= t.nanos < 1_000_000_000
    &&& match r {
        ClockReading::After { secs, nanos } => if secs <= i64::MAX {
            t.seconds == secs && t.nanos == nanos
        } else {
            t.seconds == i64::MAX && t.nanos == nanos
        },
        ClockReading::Before { secs, nanos } => if secs <= i64::MAX {
            t.seconds * 1_000_000_000 + t.nanos == -(secs * 1_000_000_000 + nanos)
        } else {
            t.seconds == i64::MIN && t.nanos == 0
        },
    }
}

/// The timestamp of a clock reading, with the nanoseconds normalised to
/// lie in `0..1_000_000_000` also before the epoch.
pub fn timestamp_of(reading: ClockReading) -> (r: Timestamp)
    requires
        match reading {
            ClockReading::After { nanos, .. } => nanos < 1_000_000_000,
            ClockReading::Before { nanos, .. } => nanos < 1_000_000_000,
        },
    ensures
        stands_for(r, reading),
{
    match reading {
        ClockReading::After { secs, nanos } => {
            let seconds: i64 = if secs <= i64::MAX as u64 { secs as i64 } else { i64::MAX };
            Timestamp { seconds, nanos: nanos as i32 }
        },
        ClockReading::Before { secs, nanos } => {
            if secs > i64::MAX as u64 {
                Timestamp { seconds: i64::MIN, nanos: 0 }
            } else if nanos == 0 {
                Timestamp { seconds: -(secs as i64), nanos: 0 }
            } else {
                Timestamp { seconds: -(secs as i64) - 1, nanos: (1_000_000_000 - nanos) as i32 }
            }
        },
    }
}

/// The current time.
pub(crate) fn now() -> (r: Timestamp)
    ensures
        0 <= r.nanos < 1_000_000_000,
{
    let t = system_now();
    timestamp_of(since_epoch(&t))
}

} // verus!
