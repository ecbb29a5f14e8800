//! Wall-clock instants as the library reads them: an offset from the Unix
//! epoch in whole seconds and nanoseconds, or none for an instant before
//! the epoch.

use std::time::{Duration, SystemTime};

use vstd::prelude::*;

verus! {

/// `std::time::SystemTime`, carried through opaquely.
#[verifier::external_type_specification]
#[verifier::external_body]
pub struct ExSystemTime(SystemTime);

/// The time from the Unix epoch to an instant: whole seconds, and the
/// nanoseconds beyond them.
#[derive(Clone, Copy, Debug)]
pub struct EpochOffset {
    pub secs: u64,
    pub subsec_nanos: u32,
}

/// A wall-clock instant: its offset from the Unix epoch, or `None` for an
/// instant before the epoch.
#[derive(Clone, Copy, Debug)]
pub struct UnixTime {
    pub since_epoch: Option<EpochOffset>,
}

/// The offset in nanoseconds, as `Duration::as_nanos` counts it: the whole
/// seconds times a billion, plus the nanoseconds beyond them.
pub open spec fn offset_nanos(o: EpochOffset) -> nat {
    (o.secs * 1_000_000_000 + o.subsec_nanos) as nat
}

/// Nanoseconds from the Unix epoch to `t`, zero for an instant before it.
pub open spec fn unix_nanos(t: UnixTime) -> nat {
    match t.since_epoch {
        Some(o) => offset_nanos(o),
        None => 0,
    }
}

/// Whole seconds from the Unix epoch to `t`, zero for an instant before it.
pub open spec fn unix_secs(t: UnixTime) -> nat {
    match t.since_epoch {
        Some(o) => o.secs as nat,
        None => 0,
    }
}

/// `SystemTime::duration_since(UNIX_EPOCH)`: the time elapsed from the
/// epoch to `t`, or `None` when `t` lies before the epoch. The instant is
/// opaque here, so nothing is stated of the duration.
#[verifier::external_body]
fn duration_since_unix_epoch(t: &SystemTime) -> (d: Option<Duration>) {
    t.duration_since(SystemTime::UNIX_EPOCH).ok()
}

/// `Duration::as_secs`: the whole seconds of the duration. The duration is
/// opaque here, so nothing is stated of the number.
#[verifier::external_body]
fn duration_as_secs(d: &Duration) -> (s: u64) {
    d.as_secs()
}

/// `Duration::subsec_nanos`: the nanoseconds beyond the whole seconds,
/// which std documents as always less than one billion.
#[verifier::external_body]
fn duration_subsec_nanos(d: &Duration) -> (n: u32)
    ensures
        n < 1_000_000_000,
{
    d.subsec_nanos()
}

impl UnixTime {
    /// Reads a `SystemTime` as its offset from the Unix epoch, or none for
    /// an instant before the epoch. The instant is opaque here: of the
    /// offset only the range of its nanoseconds is stated.
    pub fn from_system_time(t: &SystemTime) -> (r: UnixTime)
        ensures
            r.since_epoch matches Some(o) ==> o.subsec_nanos < 1_000_000_000,
    {
        match duration_since_unix_epoch(t) {
            Some(d) => UnixTime {
                since_epoch: Some(
                    EpochOffset { secs: duration_as_secs(&d), subsec_nanos: duration_subsec_nanos(&d) },
                ),
            },
            None => UnixTime { since_epoch: None },
        }
    }
}

/// Nanoseconds from the Unix epoch to `t`, and zero for an instant before
/// the epoch.
pub(crate) fn nanos_since_unix_epoch(t: &UnixTime) -> (n: u128)
    ensures
        n == unix_nanos(*t),
{
    match t.since_epoch {
        Some(o) => (o.secs as u128) * 1_000_000_000 + (o.subsec_nanos as u128),
        None => 0,
    }
}

/// Whole seconds from the Unix epoch to `t`, and zero for an instant before
/// the epoch.
pub(crate) fn secs_since_unix_epoch(t: &UnixTime) -> (s: u64)
    ensures
        s == unix_secs(*t),
{
    match t.since_epoch {
        Some(o) => o.secs,
        None => 0,
    }
}

} // verus!
