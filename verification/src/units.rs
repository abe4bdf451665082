//! Unit conversions and the uptime split used by the report.

use vstd::prelude::*;

verus! {

/// Seconds in one hour.
pub const SECONDS_PER_HOUR: u64 = 3600;

/// Seconds in one minute.
pub const SECONDS_PER_MINUTE: u64 = 60;

/// Kibibytes in one mebibyte.
pub const KIB_PER_MIB: u64 = 1024;

/// Bytes in one gibibyte: 1024 times 1024 times 1024.
pub const BYTES_PER_GIB: u64 = 1073741824;

/// An uptime expressed as whole hours and the remaining whole minutes.
#[derive(Clone, Copy, Debug, PartialEq, Eq, Structural)]
pub struct Uptime {
    pub hours: u64,
    pub minutes: u64,
}

/// Whole hours contained in `seconds`.
pub open spec fn uptime_hours(seconds: nat) -> nat {
    seconds / (SECONDS_PER_HOUR as nat)
}

/// Whole minutes left in `seconds` once the whole hours are taken out.
pub open spec fn uptime_minutes(seconds: nat) -> nat {
    (seconds % (SECONDS_PER_HOUR as nat)) / (SECONDS_PER_MINUTE as nat)
}

/// The mebibytes in an amount of memory given in kibibytes, rounded down.
pub open spec fn mebibytes(kibibytes: nat) -> nat {
    kibibytes / (KIB_PER_MIB as nat)
}

/// The gibibytes in a number of bytes, rounded down.
pub open spec fn gibibytes(bytes: nat) -> nat {
    bytes / (BYTES_PER_GIB as nat)
}

/// Splits an uptime in seconds into whole hours and remainder minutes.
/// The split brackets the uptime: it is at most the uptime and less than
/// a minute short of it.
pub fn split_uptime(seconds: u64) -> (uptime: Uptime)
    ensures
        uptime.hours == uptime_hours(seconds as nat),
        uptime.minutes == uptime_minutes(seconds as nat),
        uptime.minutes < 60,
        uptime.hours * 3600 + uptime.minutes * 60 <= seconds,
        seconds < uptime.hours * 3600 + (uptime.minutes + 1) * 60,
{
    Uptime {
        hours: seconds / SECONDS_PER_HOUR,
        minutes: (seconds % SECONDS_PER_HOUR) / SECONDS_PER_MINUTE,
    }
}

/// Converts kibibytes to whole mebibytes.
pub fn kib_to_mib(kibibytes: u64) -> (mib: u64)
    ensures
        mib == mebibytes(kibibytes as nat),
{
    kibibytes / KIB_PER_MIB
}

/// Converts bytes to whole gibibytes, by three divisions by 1024.
pub fn bytes_to_gib(bytes: u64) -> (gib: u64)
    ensures
        gib == gibibytes(bytes as nat),
{
    bytes / 1024 / 1024 / 1024
}

/// The split is consistent with the uptime it was made from: hours and
/// minutes together are at most the uptime, and less than a minute short
/// of it.
pub proof fn lemma_uptime_split_consistent(seconds: nat)
    ensures
        uptime_hours(seconds) * 3600 + uptime_minutes(seconds) * 60 <= seconds,
        seconds < uptime_hours(seconds) * 3600 + (uptime_minutes(seconds) + 1) * 60,
        uptime_minutes(seconds) < 60,
{
}

/// The split is the only one that is consistent: whatever hours and fewer
/// than sixty minutes bracket an uptime are the hours and minutes of its
/// split.
pub proof fn lemma_uptime_split_unique(seconds: nat, hours: nat, minutes: nat)
    requires
        minutes < 60,
        hours * 3600 + minutes * 60 <= seconds < hours * 3600 + (minutes + 1) * 60,
    ensures
        hours == uptime_hours(seconds),
        minutes == uptime_minutes(seconds),
{
}

/// Uptime never runs backwards in the split: a later instant has at least
/// as many hours, and within the same hour at least as many minutes.
pub proof fn lemma_uptime_split_monotonic(earlier: nat, later: nat)
    requires
        earlier <= later,
    ensures
        uptime_hours(earlier) <= uptime_hours(later),
        uptime_hours(earlier) == uptime_hours(later) ==> uptime_minutes(earlier) <= uptime_minutes(
            later,
        ),
{
}

/// Three divisions by 1024, each rounded down, give the same as one
/// division by their product.
pub proof fn lemma_gibibytes_by_steps(bytes: nat)
    ensures
        gibibytes(bytes) == bytes / 1024 / 1024 / 1024,
{
}

} // verus!
