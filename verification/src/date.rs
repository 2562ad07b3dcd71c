//! Calendar years counted from the Unix epoch.

use std::time::{Duration, SystemTime, SystemTimeError};
use vstd::prelude::*;

verus! {

/// `std::time::SystemTime`, a reading of the system clock.
#[verifier::external_type_specification]
#[verifier::external_body]
pub struct ExSystemTime(SystemTime);

/// `std::time::SystemTimeError`, the error of a clock reading that lies before
/// the instant it is measured from.
#[verifier::external_type_specification]
#[verifier::external_body]
pub struct ExSystemTimeError(SystemTimeError);

/// Calls `SystemTime::now`. The reading depends on the clock, so nothing is
/// claimed of it.
#[verifier::external_body]
fn clock_now() -> (now: SystemTime) {
    SystemTime::now()
}

/// Calls `SystemTime::duration_since` with the Unix epoch as the earlier
/// instant. Whether the reading lies before the epoch is not known to the
/// verifier, so nothing is claimed of the result.
#[verifier::external_body]
fn since_epoch(instant: &SystemTime) -> (elapsed: Result<Duration, SystemTimeError>) {
    instant.duration_since(SystemTime::UNIX_EPOCH)
}

/// Calls `Duration::as_secs`, the whole seconds of a duration. A `Duration` is
/// opaque here, so nothing is claimed of the number.
#[verifier::external_body]
fn whole_seconds(elapsed: &Duration) -> (secs: u64) {
    elapsed.as_secs()
}

/// The length of a year in seconds. Every year counts 365 days.
pub const SECONDS_IN_A_YEAR: u64 = 31_536_000;

/// The year in which the Unix epoch lies.
pub const EPOCH_YEAR: u64 = 1970;

/// The year that begins `secs` seconds after the epoch, or contains that
/// instant, when every year has 365 days.
pub open spec fn year_after(secs: nat) -> nat {
    EPOCH_YEAR as nat + secs / (SECONDS_IN_A_YEAR as nat)
}

/// An instant, held as the whole seconds that have passed since the Unix epoch.
#[derive(Clone, Copy, Debug)]
pub struct Date {
    secs: u64,
}

impl View for Date {
    type V = nat;

    /// The seconds since the Unix epoch.
    closed spec fn view(&self) -> nat {
        self.secs as nat
    }
}

impl Date {
    /// The instant `secs` seconds after the Unix epoch.
    pub fn from_secs(secs: u64) -> (date: Date)
        ensures
            date@ == secs,
    {
        Date { secs }
    }

    /// The seconds since the Unix epoch.
    pub fn secs(&self) -> (secs: u64)
        ensures
            secs == self@,
    {
        self.secs
    }

    /// Reads the system clock. The result is `None` when the clock stands
    /// before the Unix epoch; which instant comes back is up to the clock.
    pub fn new() -> (date: Option<Date>) {
        let now = clock_now();
        match since_epoch(&now) {
            Ok(elapsed) => Some(Date::from_secs(whole_seconds(&elapsed))),
            Err(_) => None,
        }
    }

    /// The calendar year of the instant, counting 365 days to every year.
    pub fn year(&self) -> (year: u64)
        ensures
            year == year_after(self@),
    {
        EPOCH_YEAR + self.secs / SECONDS_IN_A_YEAR
    }
}

/// The year never runs backwards: a later instant has the same or a later year,
/// and no instant lies before 1970.
pub proof fn year_is_monotonic(earlier: nat, later: nat)
    requires
        earlier <= later,
    ensures
        EPOCH_YEAR <= year_after(earlier) <= year_after(later),
{
    assert(earlier / 31_536_000 <= later / 31_536_000) by (nonlinear_arith)
        requires
            earlier <= later,
    ;
}

} // verus!
