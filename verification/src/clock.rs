use vstd::prelude::*;

use std::time::Instant;

use crate::dates::CivilDate;

verus! {

/// A date read from the system clock and time zone. Only this module makes
/// one, so a value of this type is a reading, not a date computed elsewhere.
pub struct ClockDate {
    date: CivilDate,
}

impl ClockDate {
    /// The date that was read.
    pub closed spec fn value(self) -> CivilDate {
        self.date
    }

    /// The date that was read.
    pub fn date(&self) -> (d: CivilDate)
        ensures
            d == self.value(),
    {
        self.date
    }
}

/// Reads the system clock and the system time zone through
/// `jiff::Zoned::try_from(SystemTime::now())` and returns today's date there,
/// or `None` when the clock lies outside jiff's range. Claimed: a date that
/// comes back is one jiff can represent; which date it is depends on the
/// clock and the time zone, and is not stated.
#[verifier::external_body]
pub(crate) fn local_today() -> (r: Option<ClockDate>)
    ensures
        r matches Some(d) ==> d.value().wf(),
{
    match jiff::Zoned::try_from(std::time::SystemTime::now()) {
        Ok(z) => {
            let d = z.date();
            Some(ClockDate { date: CivilDate { year: d.year(), month: d.month(), day: d.day() } })
        },
        Err(_) => None,
    }
}

/// How long ago an instant was, in whole seconds, as read from the clock.
/// Only this module makes one, so a value of this type is a reading of
/// `elapsed().as_secs()` for the instant it names.
pub struct ElapsedSecs {
    secs: u64,
    since: Ghost<Instant>,
}

impl ElapsedSecs {
    /// The whole seconds read.
    pub closed spec fn secs(self) -> u64 {
        self.secs
    }

    /// The instant the reading measures from.
    pub closed spec fn since(self) -> Instant {
        self.since@
    }

    /// The whole seconds read.
    pub fn seconds(&self) -> (s: u64)
        ensures
            s == self.secs(),
    {
        self.secs
    }
}

/// Reads the clock: how long ago `created` was, in whole seconds.
pub fn elapsed_secs(created: &Instant) -> (r: ElapsedSecs)
    ensures
        r.since() == *created,
{
    let secs = created.elapsed().as_secs();
    ElapsedSecs { secs, since: Ghost(*created) }
}

} // verus!
