//! Readings of the system clocks, and the time stamps made from them.
use vstd::prelude::*;

use std::time::{Duration, SystemTime};

verus! {

#[verifier::external_type_specification]
#[verifier::external_body]
pub struct ExSystemTime(SystemTime);

pub const MICROS_PER_SECOND: u64 = 1_000_000;

/// Calls `SystemTime::now`: a reading of the wall clock. Nothing is
/// claimed of the value.
#[verifier::external_body]
pub(crate) fn system_time_now() -> SystemTime {
    SystemTime::now()
}

/// Calls `SystemTime::duration_since` with the Unix epoch: the time since
/// the epoch, or `None` where `t` lies before it (the call's error). The
/// duration depends on the reading; nothing is claimed of it.
#[verifier::external_body]
pub(crate) fn duration_since_unix_epoch(t: &SystemTime) -> Option<Duration> {
    match t.duration_since(std::time::UNIX_EPOCH) {
        Ok(d) => Some(d),
        Err(_) => None,
    }
}

/// Calls `Duration::as_secs`: the whole seconds of `d`. Nothing is claimed
/// of the value, as `Duration` is opaque here.
#[verifier::external_body]
pub(crate) fn duration_secs(d: &Duration) -> u64 {
    d.as_secs()
}

/// Calls `Duration::subsec_micros`: the microseconds of `d` beyond its
/// whole seconds, which its documentation puts below one second.
#[verifier::external_body]
pub(crate) fn duration_subsec_micros(d: &Duration) -> (micros: u32)
    ensures
        micros < MICROS_PER_SECOND,
{
    d.subsec_micros()
}

/// The time stamp, in microseconds modulo 2^64, of a wall-clock reading
/// given as seconds and microseconds since the Unix epoch; a reading before
/// the epoch counts as the epoch itself.
pub open spec fn timestamp_of(since_epoch: Option<(u64, u32)>) -> int {
    match since_epoch {
        Some(d) => (d.0 * MICROS_PER_SECOND + d.1) % 0x1_0000_0000_0000_0000,
        None => 0,
    }
}

/// The time stamp in microseconds of a wall-clock reading; see
/// [`timestamp_of`].
pub fn timestamp_micros(since_epoch: Option<(u64, u32)>) -> (ts: u64)
    ensures
        ts == timestamp_of(since_epoch),
{
    match since_epoch {
        Some((secs, micros)) => {
            assert(secs as u128 * MICROS_PER_SECOND as u128 <= 0xffff_ffff_ffff_ffff * 1_000_000)
                by (nonlinear_arith);
            let total: u128 = secs as u128 * MICROS_PER_SECOND as u128 + micros as u128;
            (total % 0x1_0000_0000_0000_0000u128) as u64
        },
        None => 0,
    }
}

/// The current wall-clock time in microseconds since the Unix epoch, or
/// zero if the clock stands before the epoch.
pub fn now() -> (ts: u64)
    ensures
        exists|reading: Option<(u64, u32)>|
            {
                &&& (reading matches Some(d) ==> d.1 < MICROS_PER_SECOND)
                &&& ts == timestamp_of(reading)
            },
{
    let reading = match duration_since_unix_epoch(&system_time_now()) {
        Some(d) => Some((duration_secs(&d), duration_subsec_micros(&d))),
        None => None,
    };
    timestamp_micros(reading)
}

/// Whether a reading of `secs` seconds and `micros` microseconds since the
/// epoch is well formed and its time stamp fits in 64 bits.
pub open spec fn reading_fits(secs: u64, micros: u32) -> bool {
    micros < MICROS_PER_SECOND && secs * MICROS_PER_SECOND + micros <= u64::MAX
}

/// The time stamp never decreases as the clock advances: of two readings
/// since the epoch whose time stamps fit in 64 bits, the later one has the
/// larger or equal time stamp.
pub proof fn timestamps_are_monotone(secs1: u64, micros1: u32, secs2: u64, micros2: u32)
    requires
        reading_fits(secs1, micros1),
        reading_fits(secs2, micros2),
        secs1 < secs2 || (secs1 == secs2 && micros1 <= micros2),
    ensures
        timestamp_of(Some((secs1, micros1))) <= timestamp_of(Some((secs2, micros2))),
{
    assert(secs1 * MICROS_PER_SECOND + micros1 <= secs2 * MICROS_PER_SECOND + micros2)
        by (nonlinear_arith)
        requires
            micros1 < 1_000_000,
            secs1 < secs2 || (secs1 == secs2 && micros1 <= micros2),
    ;
}

/// The time stamp splits back into the reading: divided by a million it
/// gives the seconds, and the remainder is the microseconds; a reading
/// before the epoch gives zero.
pub proof fn timestamp_round_trip(secs: u64, micros: u32)
    requires
        reading_fits(secs, micros),
    ensures
        timestamp_of(Some((secs, micros))) / (MICROS_PER_SECOND as int) == secs,
        timestamp_of(Some((secs, micros))) % (MICROS_PER_SECOND as int) == micros,
        timestamp_of(None) == 0,
{
    let total = secs * MICROS_PER_SECOND + micros;
    assert(total % 0x1_0000_0000_0000_0000 == total);
    vstd::arithmetic::div_mod::lemma_fundamental_div_mod_converse(
        total,
        MICROS_PER_SECOND as int,
        secs as int,
        micros as int,
    );
}

} // verus!
