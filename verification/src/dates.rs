use vstd::prelude::*;

use crate::clock::{local_today, ClockDate};
use crate::text::{push_zero_padded, signed_zero_padded, zero_padded};

verus! {

/// A calendar date in the proleptic Gregorian calendar.
#[derive(Clone, Copy, Debug, PartialEq, Eq, Structural)]
pub struct CivilDate {
    pub year: i16,
    pub month: i8,
    pub day: i8,
}

/// Whether `year` is a leap year.
pub open spec fn is_leap_year(year: int) -> bool {
    (year % 4 == 0 && year % 100 != 0) || year % 400 == 0
}

/// The number of days in `month` of `year`.
pub open spec fn days_in_month(year: int, month: int) -> int {
    if month == 2 {
        if is_leap_year(year) {
            29
        } else {
            28
        }
    } else if month == 4 || month == 6 || month == 9 || month == 11 {
        30
    } else {
        31
    }
}

impl CivilDate {
    /// A date that jiff can represent: years -9999 to 9999, months 1 to 12,
    /// and a day that the month has.
    pub open spec fn wf(self) -> bool {
        &&& -9999 <= self.year <= 9999
        &&& 1 <= self.month <= 12
        &&& 1 <= self.day <= days_in_month(self.year as int, self.month as int)
    }
}

/// The day after `d` in the proleptic Gregorian calendar, or `None` after
/// 9999-12-31, the last date jiff represents.
pub open spec fn next_day(d: CivilDate) -> Option<CivilDate> {
    if (d.day as int) < days_in_month(d.year as int, d.month as int) {
        Some(CivilDate { year: d.year, month: d.month, day: (d.day + 1) as i8 })
    } else if d.month < 12 {
        Some(CivilDate { year: d.year, month: (d.month + 1) as i8, day: 1 })
    } else if d.year < 9999 {
        Some(CivilDate { year: (d.year + 1) as i16, month: 1, day: 1 })
    } else {
        None
    }
}

/// The day before `d` in the proleptic Gregorian calendar, or `None` before
/// -9999-01-01, the first date jiff represents.
pub open spec fn previous_day(d: CivilDate) -> Option<CivilDate> {
    if d.day > 1 {
        Some(CivilDate { year: d.year, month: d.month, day: (d.day - 1) as i8 })
    } else if d.month > 1 {
        Some(
            CivilDate {
                year: d.year,
                month: (d.month - 1) as i8,
                day: days_in_month(d.year as int, d.month - 1) as i8,
            },
        )
    } else if d.year > -9999 {
        Some(CivilDate { year: (d.year - 1) as i16, month: 12, day: 31 })
    } else {
        None
    }
}

/// The date `n` days after `d` (before, for negative `n`), stepping one day
/// at a time; `None` when that leaves the range -9999-01-01 to 9999-12-31.
pub open spec fn shift_days(d: CivilDate, n: int) -> Option<CivilDate>
    decreases (if n >= 0 { n } else { -n }),
{
    if n == 0 {
        Some(d)
    } else if n > 0 {
        match next_day(d) {
            Some(e) => shift_days(e, n - 1),
            None => None,
        }
    } else {
        match previous_day(d) {
            Some(e) => shift_days(e, n + 1),
            None => None,
        }
    }
}

/// Calls `jiff::civil::Date::new` and `Date::checked_add` with a span of
/// `days` days. Claimed: the result is the date `days` days away in the
/// proleptic Gregorian calendar, `None` where it leaves jiff's range of
/// -9999-01-01 to 9999-12-31; a date that comes back is one jiff can
/// represent. The bounds on `days` are those under which `Span::days` does
/// not panic.
#[verifier::external_body]
fn add_days(date: CivilDate, days: i64) -> (r: Option<CivilDate>)
    requires
        date.wf(),
        -7_304_484 <= days <= 7_304_484,
    ensures
        r == shift_days(date, days as int),
        r matches Some(n) ==> n.wf(),
{
    match jiff::civil::Date::new(date.year, date.month, date.day) {
        Ok(d) => match d.checked_add(jiff::Span::new().days(days)) {
            Ok(n) => Some(CivilDate { year: n.year(), month: n.month(), day: n.day() }),
            Err(_) => None,
        },
        Err(_) => None,
    }
}

/// The key of a date as `format!("{:04}-{:02}-{:02}", year, month, day)` writes it.
pub open spec fn date_key_text(d: CivilDate) -> Seq<char> {
    signed_zero_padded(d.year as int, 4) + "-"@ + zero_padded(d.month as nat, 2) + "-"@
        + zero_padded(d.day as nat, 2)
}

/// The key under which the plan of a date is stored, such as `2024-03-09`.
pub fn date_key(d: CivilDate) -> (key: String)
    requires
        d.wf(),
    ensures
        key@ == date_key_text(d),
{
    proof {
        reveal_strlit("-");
    }
    let mut key = String::new();
    if d.year < 0 {
        key.push('-');
        let magnitude: u64 = (0i32 - (d.year as i32)) as u64;
        push_zero_padded(&mut key, magnitude, 3);
        assert(key@ =~= signed_zero_padded(d.year as int, 4));
    } else {
        let y: u64 = d.year as u64;
        push_zero_padded(&mut key, y, 4);
        assert(key@ =~= signed_zero_padded(d.year as int, 4));
    }
    key.push('-');
    let m: u64 = d.month as u64;
    push_zero_padded(&mut key, m, 2);
    key.push('-');
    let day: u64 = d.day as u64;
    push_zero_padded(&mut key, day, 2);
    assert(key@ =~= date_key_text(d));
    key
}

/// The keys of the dates one to `n` days after `today`, in order, skipping
/// those that fall outside jiff's range.
pub open spec fn upcoming_keys(today: CivilDate, n: nat) -> Seq<Seq<char>>
    decreases n,
{
    if n == 0 {
        seq![]
    } else {
        let prev = upcoming_keys(today, (n - 1) as nat);
        match shift_days(today, n as int) {
            Some(d) => prev.push(date_key_text(d)),
            None => prev,
        }
    }
}

/// How many days ahead the Upcoming tab looks.
pub const UPCOMING_DAYS: i64 = 7;

/// The keys of the next seven days after `today`, for the Upcoming tab.
pub fn upcoming_date_keys(today: CivilDate) -> (keys: Vec<String>)
    requires
        today.wf(),
    ensures
        keys@.len() == upcoming_keys(today, 7).len(),
        forall|k: int| 0 <= k < keys@.len() ==> #[trigger] keys@[k]@ == upcoming_keys(today, 7)[k],
{
    let mut keys: Vec<String> = Vec::new();
    let mut d: i64 = 1;
    while d <= UPCOMING_DAYS
        invariant
            today.wf(),
            1 <= d <= 8,
            keys@.len() == upcoming_keys(today, (d - 1) as nat).len(),
            forall|k: int|
                0 <= k < keys@.len() ==> #[trigger] keys@[k]@ == upcoming_keys(today, (d - 1) as nat)[k],
        decreases 8 - d,
    {
        match add_days(today, d) {
            Some(future) => {
                keys.push(date_key(future));
            },
            None => {},
        }
        assert(((d + 1) - 1) as nat == d as nat);
        d = d + 1;
    }
    keys
}

/// The dates a refresh loads: today's key and the keys of the coming days.
pub struct RefreshDates {
    /// The date as the clock and time zone gave it.
    pub read: ClockDate,
    pub today: CivilDate,
    pub today_key: String,
    pub upcoming_keys: Vec<String>,
}

/// Reads today's date from the system clock and time zone and computes the
/// keys a refresh loads. `None` when the clock lies outside jiff's range;
/// otherwise everything is computed from the date read.
pub fn refresh_dates() -> (r: Option<RefreshDates>)
    ensures
        r matches Some(dates) ==> {
            &&& dates.today == dates.read.value()
            &&& dates.today.wf()
            &&& dates.today_key@ == date_key_text(dates.today)
            &&& dates.upcoming_keys@.len() == upcoming_keys(dates.today, 7).len()
            &&& forall|k: int|
                0 <= k < dates.upcoming_keys@.len() ==> #[trigger] dates.upcoming_keys@[k]@
                    == upcoming_keys(dates.today, 7)[k]
        },
{
    match local_today() {
        Some(read) => {
            let today = read.date();
            let today_key = date_key(today);
            let upcoming_keys = upcoming_date_keys(today);
            Some(RefreshDates { read, today, today_key, upcoming_keys })
        },
        None => None,
    }
}

} // verus!
