use vstd::prelude::*;

verus! {

/// A calendar day, held as its day number in the proleptic Gregorian calendar
/// (January 1 of year 1 is day 1).
#[derive(Clone, Copy, Debug, PartialEq, Eq, Structural)]
pub struct Date {
    pub days: i64,
}

/// The day number of a year, month and day, where they name a day.
pub uninterp spec fn day_number_of(year: i32, month: u32, day: u32) -> Option<i32>;

/// The year, month and day of a day number, where it names a representable day.
pub uninterp spec fn calendar_of(days: i32) -> Option<(i32, u32, u32)>;

/// Relies on `chrono::NaiveDate::from_ymd_opt` and `Datelike::num_days_from_ce`: the day
/// number of a valid date, `None` for an invalid one.
#[verifier::external_body]
fn ymd_to_days(year: i32, month: u32, day: u32) -> (r: Option<i32>)
    ensures
        r == day_number_of(year, month, day),
{
    match chrono::NaiveDate::from_ymd_opt(year, month, day) {
        Some(d) => Some(chrono::Datelike::num_days_from_ce(&d)),
        None => None,
    }
}

/// Relies on `chrono::NaiveDate::from_num_days_from_ce_opt` and the `Datelike` getters:
/// year, month (1 to 12) and day (1 to 31) of a day number.
#[verifier::external_body]
fn days_to_ymd(days: i32) -> (r: Option<(i32, u32, u32)>)
    ensures
        r == calendar_of(days),
        r matches Some((y, m, d)) ==> 1 <= m <= 12 && 1 <= d <= 31,
{
    match chrono::NaiveDate::from_num_days_from_ce_opt(days) {
        Some(d) => Some(
            (chrono::Datelike::year(&d), chrono::Datelike::month(&d), chrono::Datelike::day(&d)),
        ),
        None => None,
    }
}

/// Relies on `chrono::Local::now`: the local calendar day at the time of the call.
/// Nothing is known of it beyond its day number fitting in an `i32`.
#[verifier::external_body]
fn local_today() -> (r: i32) {
    chrono::Datelike::num_days_from_ce(&chrono::Local::now().date_naive())
}

impl Date {
    /// Day numbers that the calendar conversions accept.
    pub open spec fn wf(self) -> bool {
        i32::MIN <= self.days <= i32::MAX
    }

    pub open spec fn ymd_spec(self) -> Option<(i32, u32, u32)> {
        if self.wf() {
            calendar_of(self.days as i32)
        } else {
            None
        }
    }

    pub open spec fn from_ymd_spec(year: i32, month: u32, day: u32) -> Option<Date> {
        match day_number_of(year, month, day) {
            Some(n) => Some(Date { days: n as i64 }),
            None => None,
        }
    }

    /// The date of a year, month and day; `None` where they name no day.
    pub fn from_ymd(year: i32, month: u32, day: u32) -> (r: Option<Date>)
        ensures
            r == Date::from_ymd_spec(year, month, day),
            r matches Some(d) ==> d.wf(),
    {
        match ymd_to_days(year, month, day) {
            Some(n) => Some(Date { days: n as i64 }),
            None => None,
        }
    }

    /// Year, month and day of this date; `None` outside the calendar's range.
    pub fn ymd(&self) -> (r: Option<(i32, u32, u32)>)
        ensures
            r == self.ymd_spec(),
            r matches Some((y, m, d)) ==> 1 <= m <= 12 && 1 <= d <= 31,
    {
        if self.days < i32::MIN as i64 || self.days > i32::MAX as i64 {
            None
        } else {
            days_to_ymd(self.days as i32)
        }
    }

    /// The day that lies `n` days after this one.
    pub fn plus_days(&self, n: i64) -> (r: Date)
        requires
            i64::MIN <= self.days + n <= i64::MAX,
        ensures
            r.days == self.days + n,
    {
        Date { days: self.days + n }
    }

    /// The local calendar day now.
    pub fn today() -> (r: Date)
        ensures
            r.wf(),
    {
        Date { days: local_today() as i64 }
    }
}

} // verus!
