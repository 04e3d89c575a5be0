//! Calendar dates, weekdays and the week-start setting.

use vstd::prelude::*;
use chrono::{Datelike, Local, NaiveDate, TimeDelta};

verus! {

/// Smallest year that a date can have (the range of `chrono::NaiveDate`).
pub const MIN_YEAR: i32 = -262143;

/// Largest year that a date can have (the range of `chrono::NaiveDate`).
pub const MAX_YEAR: i32 = 262142;

/// Gregorian leap-year rule (proleptic: year 0 is a leap year).
pub open spec fn is_leap(year: int) -> bool {
    year % 4 == 0 && (year % 100 != 0 || year % 400 == 0)
}

/// Number of days of `month` (1–12) in `year`.
pub open spec fn spec_days_in_month(year: int, month: int) -> int {
    if month == 2 {
        if is_leap(year) { 29 } else { 28 }
    } else if month == 4 || month == 6 || month == 9 || month == 11 {
        30
    } else {
        31
    }
}

/// Days of `year` before the first day of `month`.
pub open spec fn days_before_month(year: int, month: int) -> int
    decreases month,
{
    if month <= 1 {
        0
    } else {
        days_before_month(year, month - 1) + spec_days_in_month(year, month - 1)
    }
}

/// Days from 0001-01-01 to the first day of `year` (negative before year 1).
#[verifier::opaque]
pub open spec fn days_before_year(year: int) -> int {
    let p = year - 1;
    365 * p + p / 4 - p / 100 + p / 400
}

/// Number of days in `year`.
pub open spec fn days_in_year(year: int) -> int {
    if is_leap(year) { 366 } else { 365 }
}

/// A calendar date of the proleptic Gregorian calendar, held as plain numbers.
#[derive(Clone, Copy, Debug, PartialEq, Eq, Hash, Structural)]
pub struct Date {
    pub year: i32,
    pub month: u32,
    pub day: u32,
}

/// `(year, month, day)` names an existing date in the supported year range.
pub open spec fn valid_ymd(year: int, month: int, day: int) -> bool {
    &&& MIN_YEAR <= year <= MAX_YEAR
    &&& 1 <= month <= 12
    &&& 1 <= day <= spec_days_in_month(year, month)
}

impl Date {
    /// The date exists and lies in the supported range.
    pub open spec fn valid(self) -> bool {
        valid_ymd(self.year as int, self.month as int, self.day as int)
    }

    /// Days since 0001-01-01 (a Monday); negative for earlier dates.
    pub open spec fn day_number(self) -> int {
        days_before_year(self.year as int) + days_before_month(self.year as int, self.month as int)
            + self.day - 1
    }

    /// Day of the year, 1 for January 1st.
    pub open spec fn ordinal(self) -> int {
        days_before_month(self.year as int, self.month as int) + self.day
    }

    /// Weekday of the date, counted from Monday = 0.
    pub open spec fn weekday_index(self) -> int {
        self.day_number() % 7
    }

    /// The date of `self.day_number() + n`, described by its day number.
    pub open spec fn is_shift_of(self, other: Date, n: int) -> bool {
        self.valid() && self.day_number() == other.day_number() + n
    }
}

/// First supported date.
pub open spec fn min_date() -> Date {
    Date { year: MIN_YEAR, month: 1, day: 1 }
}

/// Last supported date.
pub open spec fn max_date() -> Date {
    Date { year: MAX_YEAR, month: 12, day: 31 }
}

/// A day number that some supported date carries.
pub open spec fn day_number_in_range(n: int) -> bool {
    min_date().day_number() <= n <= max_date().day_number()
}

// ---------------------------------------------------------------------------
// Lemmas on the day numbering.
// ---------------------------------------------------------------------------

proof fn lemma_div_step(x: int)
    ensures
        (x + 1) / 4 - x / 4 == (if (x + 1) % 4 == 0 { 1int } else { 0int }),
        (x + 1) / 100 - x / 100 == (if (x + 1) % 100 == 0 { 1int } else { 0int }),
        (x + 1) / 400 - x / 400 == (if (x + 1) % 400 == 0 { 1int } else { 0int }),
{
}

/// Consecutive years are `days_in_year` apart.
pub proof fn lemma_year_length(year: int)
    ensures
        days_before_year(year + 1) == days_before_year(year) + days_in_year(year),
{
    reveal(days_before_year);
    lemma_div_step(year - 1);
}

/// Cumulative month lengths.
pub proof fn lemma_days_before_month_values(year: int)
    ensures
        days_before_month(year, 1) == 0,
        days_before_month(year, 13) == days_in_year(year),
        forall|m: int| 1 <= m <= 12 ==> #[trigger] days_before_month(year, m + 1)
            == days_before_month(year, m) + spec_days_in_month(year, m),
{
    reveal_with_fuel(days_before_month, 13);
}

/// Months start in increasing order within a year.
pub proof fn lemma_days_before_month_mono(year: int, m1: int, m2: int)
    requires
        1 <= m1 < m2 <= 13,
    ensures
        days_before_month(year, m1) + spec_days_in_month(year, m1) <= days_before_month(year, m2),
    decreases m2 - m1,
{
    lemma_days_before_month_values(year);
    if m1 + 1 < m2 {
        lemma_days_before_month_mono(year, m1, m2 - 1);
        assert(days_before_month(year, m2) == days_before_month(year, m2 - 1) + spec_days_in_month(year, m2 - 1));
    }
}

/// Years start in increasing order.
pub proof fn lemma_days_before_year_mono(y1: int, y2: int)
    requires
        y1 <= y2,
    ensures
        days_before_year(y1) + 365 * (y2 - y1) <= days_before_year(y2),
    decreases y2 - y1,
{
    if y1 < y2 {
        lemma_days_before_year_mono(y1, y2 - 1);
        lemma_year_length(y2 - 1);
    }
}

/// A valid date lies inside its year.
pub proof fn lemma_date_in_year(d: Date)
    requires
        d.valid(),
    ensures
        days_before_year(d.year as int) <= d.day_number() < days_before_year(d.year + 1),
        1 <= d.ordinal() <= days_in_year(d.year as int),
{
    lemma_days_before_month_values(d.year as int);
    lemma_days_before_month_mono(d.year as int, d.month as int, 13);
    lemma_year_length(d.year as int);
    reveal_with_fuel(days_before_month, 13);
}

/// Two valid dates with the same day number are the same date.
pub proof fn lemma_day_number_injective(d1: Date, d2: Date)
    requires
        d1.valid(),
        d2.valid(),
        d1.day_number() == d2.day_number(),
    ensures
        d1 == d2,
{
    lemma_date_in_year(d1);
    lemma_date_in_year(d2);
    if d1.year < d2.year {
        lemma_days_before_year_mono(d1.year + 1, d2.year as int);
    } else if d2.year < d1.year {
        lemma_days_before_year_mono(d2.year + 1, d1.year as int);
    }
    assert(d1.year == d2.year);
    if d1.month < d2.month {
        lemma_days_before_month_mono(d1.year as int, d1.month as int, d2.month as int);
    } else if d2.month < d1.month {
        lemma_days_before_month_mono(d2.year as int, d2.month as int, d1.month as int);
    }
}

/// The last day of a month is followed by the first day of the next month.
pub proof fn lemma_month_end_successor(year: int, month: int)
    requires
        1 <= month <= 12,
    ensures
        ({
            let last = Date { year: year as i32, month: month as u32, day: spec_days_in_month(year, month) as u32 };
            let next = if month == 12 {
                Date { year: (year + 1) as i32, month: 1, day: 1 }
            } else {
                Date { year: year as i32, month: (month + 1) as u32, day: 1 }
            };
            MIN_YEAR <= year < MAX_YEAR || (year == MAX_YEAR && month < 12) ==>
                last.day_number() + 1 == next.day_number()
        }),
{
    lemma_days_before_month_values(year);
    lemma_year_length(year);
}

/// Day numbers of the supported range.
pub proof fn lemma_range_bounds()
    ensures
        min_date().day_number() == days_before_year(MIN_YEAR as int),
        max_date().day_number() == days_before_year(MAX_YEAR + 1) - 1,
{
    lemma_days_before_month_values(MIN_YEAR as int);
    lemma_days_before_month_values(MAX_YEAR as int);
    lemma_year_length(MAX_YEAR as int);
}

/// Valid dates carry day numbers of the supported range.
pub proof fn lemma_valid_in_range(d: Date)
    requires
        d.valid(),
    ensures
        day_number_in_range(d.day_number()),
{
    lemma_date_in_year(d);
    lemma_range_bounds();
    lemma_days_before_year_mono(MIN_YEAR as int, d.year as int);
    lemma_days_before_year_mono(d.year + 1, MAX_YEAR + 1);
}


// ---------------------------------------------------------------------------
// Weekdays and the first column of the week.
// ---------------------------------------------------------------------------

/// Day of the week.
#[derive(Clone, Copy, Debug, PartialEq, Eq, Hash, Structural)]
pub enum Weekday {
    Mon,
    Tue,
    Wed,
    Thu,
    Fri,
    Sat,
    Sun,
}

impl Weekday {
    /// Days since Monday (Monday = 0, Sunday = 6).
    pub open spec fn index(self) -> int {
        match self {
            Weekday::Mon => 0,
            Weekday::Tue => 1,
            Weekday::Wed => 2,
            Weekday::Thu => 3,
            Weekday::Fri => 4,
            Weekday::Sat => 5,
            Weekday::Sun => 6,
        }
    }

    /// Days since Monday (Monday = 0, Sunday = 6).
    pub fn num_days_from_monday(self) -> (res: u32)
        ensures
            res == self.index(),
            res < 7,
    {
        match self {
            Weekday::Mon => 0,
            Weekday::Tue => 1,
            Weekday::Wed => 2,
            Weekday::Thu => 3,
            Weekday::Fri => 4,
            Weekday::Sat => 5,
            Weekday::Sun => 6,
        }
    }
}

/// The weekday that occupies the first column of a month grid.
#[derive(Clone, Copy, Debug, PartialEq, Eq, Hash, Structural)]
pub enum WeekStart {
    Monday,
    Tuesday,
    Wednesday,
    Thursday,
    Friday,
    Saturday,
    Sunday,
}

impl WeekStart {
    /// Every week start, Monday first.
    pub const ALL: [WeekStart; 7] = [
        WeekStart::Monday,
        WeekStart::Tuesday,
        WeekStart::Wednesday,
        WeekStart::Thursday,
        WeekStart::Friday,
        WeekStart::Saturday,
        WeekStart::Sunday,
    ];

    /// Days from Monday to the first column (Monday = 0, Sunday = 6).
    pub open spec fn index(self) -> int {
        match self {
            WeekStart::Monday => 0,
            WeekStart::Tuesday => 1,
            WeekStart::Wednesday => 2,
            WeekStart::Thursday => 3,
            WeekStart::Friday => 4,
            WeekStart::Saturday => 5,
            WeekStart::Sunday => 6,
        }
    }

    /// Column (0–6) of a weekday whose index is `weekday_index` under this week start.
    pub open spec fn spec_column(self, weekday_index: int) -> int {
        (weekday_index - self.index()) % 7
    }

    /// The weekday of column 0.
    pub fn weekday(self) -> (res: Weekday)
        ensures
            res.index() == self.index(),
    {
        match self {
            WeekStart::Monday => Weekday::Mon,
            WeekStart::Tuesday => Weekday::Tue,
            WeekStart::Wednesday => Weekday::Wed,
            WeekStart::Thursday => Weekday::Thu,
            WeekStart::Friday => Weekday::Fri,
            WeekStart::Saturday => Weekday::Sat,
            WeekStart::Sunday => Weekday::Sun,
        }
    }

    /// Offset from Monday for column 0 alignment (Monday = 0, Sunday = 6).
    pub fn days_from_monday(self) -> (res: u32)
        ensures
            res == self.index(),
            res < 7,
    {
        self.weekday().num_days_from_monday()
    }

    /// Column index (0–6) for `weekday` when this week start is column 0.
    pub fn column_for(self, weekday: Weekday) -> (res: u32)
        ensures
            res == self.spec_column(weekday.index()),
            res < 7,
    {
        let delta = weekday.num_days_from_monday() as i32 - self.days_from_monday() as i32;
        (((delta % 7) + 7) % 7) as u32
    }
}

/// Each weekday has exactly one column, and the week start's own weekday has column 0:
/// columns run through the week in order starting at the configured first day.
pub proof fn lemma_columns_rotate(start: WeekStart, w: Weekday)
    ensures
        0 <= start.spec_column(w.index()) < 7,
        (start.index() + start.spec_column(w.index())) % 7 == w.index(),
        start.spec_column(start.index()) == 0,
        forall|v: Weekday| #[trigger] start.spec_column(v.index()) == start.spec_column(w.index()) ==> v == w,
{
    assert forall|v: Weekday| #[trigger] start.spec_column(v.index()) == start.spec_column(w.index()) implies v == w by {
        assert(v.index() == w.index());
    }
}

// ---------------------------------------------------------------------------
// Calls into chrono.
// ---------------------------------------------------------------------------

/// Calls `chrono::NaiveDate::from_ymd_opt`: chrono accepts exactly the existing
/// dates of the proleptic Gregorian calendar within its year range, and the date
/// it returns carries the given year, month and day.
#[verifier::external_body]
pub fn naive_from_ymd(year: i32, month: u32, day: u32) -> (res: Option<Date>)
    ensures
        res == (if valid_ymd(year as int, month as int, day as int) {
            Some(Date { year, month, day })
        } else {
            None
        }),
{
    NaiveDate::from_ymd_opt(year, month, day).map(|n| Date { year: n.year(), month: n.month(), day: n.day() })
}

/// Calls `chrono::NaiveDate::pred_opt`: the previous calendar day, or `None`
/// for the first supported date.
#[verifier::external_body]
fn pred_date(d: Date) -> (res: Option<Date>)
    requires
        d.valid(),
    ensures
        res is Some <==> day_number_in_range(d.day_number() - 1),
        res matches Some(p) ==> p.is_shift_of(d, -1),
{
    NaiveDate::from_ymd_opt(d.year, d.month, d.day).unwrap().pred_opt().map(
        |p| Date { year: p.year(), month: p.month(), day: p.day() },
    )
}

/// Calls `chrono::NaiveDate::checked_add_signed` with a whole number of days:
/// the date `days` days later (earlier when negative), or `None` when that date
/// is outside the supported range.
#[verifier::external_body]
pub(crate) fn shift_date(d: Date, days: i32) -> (res: Option<Date>)
    requires
        d.valid(),
    ensures
        res is Some <==> day_number_in_range(d.day_number() + days),
        res matches Some(r) ==> r.is_shift_of(d, days as int),
{
    NaiveDate::from_ymd_opt(d.year, d.month, d.day).unwrap().checked_add_signed(
        TimeDelta::days(days as i64),
    ).map(|r| Date { year: r.year(), month: r.month(), day: r.day() })
}

/// Calls `chrono::Datelike::weekday` on a date: 0001-01-01 was a Monday and the
/// weekdays repeat every seven days.
#[verifier::external_body]
pub(crate) fn weekday_of(d: Date) -> (res: Weekday)
    requires
        d.valid(),
    ensures
        res.index() == d.weekday_index(),
{
    match NaiveDate::from_ymd_opt(d.year, d.month, d.day).unwrap().weekday() {
        chrono::Weekday::Mon => Weekday::Mon,
        chrono::Weekday::Tue => Weekday::Tue,
        chrono::Weekday::Wed => Weekday::Wed,
        chrono::Weekday::Thu => Weekday::Thu,
        chrono::Weekday::Fri => Weekday::Fri,
        chrono::Weekday::Sat => Weekday::Sat,
        chrono::Weekday::Sun => Weekday::Sun,
    }
}

impl Date {
    /// Day of the week of the date.
    pub fn weekday(&self) -> (res: Weekday)
        requires
            self.valid(),
        ensures
            res.index() == self.weekday_index(),
    {
        weekday_of(*self)
    }
}

/// ISO 8601 week number that chrono gives a date.
pub uninterp spec fn chrono_iso_week(year: int, month: int, day: int) -> int;

/// Calls `chrono::Datelike::iso_week` and `IsoWeek::week`: the ISO 8601 week
/// number (1–53). For a Thursday the ISO week lies in the date's own year, so
/// the number is the count of weeks up to that day of the year. For other
/// weekdays only the name and the range are stated.
#[verifier::external_body]
pub(crate) fn iso_week_of(d: Date) -> (res: u32)
    requires
        d.valid(),
    ensures
        res == chrono_iso_week(d.year as int, d.month as int, d.day as int),
        1 <= res <= 53,
        d.weekday_index() == 3 ==> res == (d.ordinal() - 1) / 7 + 1,
{
    NaiveDate::from_ymd_opt(d.year, d.month, d.day).unwrap().iso_week().week()
}

/// Calls `chrono::Local::now` and `DateTime::date_naive`: today's date in the
/// local time zone. Which date that is depends on the clock; it is a valid date.
#[verifier::external_body]
pub fn today_local() -> (res: Date)
    ensures
        res.valid(),
{
    let today = Local::now().date_naive();
    Date { year: today.year(), month: today.month(), day: today.day() }
}

// ---------------------------------------------------------------------------
// Month lengths.
// ---------------------------------------------------------------------------

/// Length of the month before `month` of `year`; month 0 stands for December
/// of the previous year. It is the day of the date before the first of the
/// following month.
pub fn days_in_month(year: i32, month: u32) -> (res: u32)
    requires
        month <= 12,
        month == 0 ==> MIN_YEAR < year <= MAX_YEAR,
        month >= 1 ==> MIN_YEAR <= year <= MAX_YEAR && (year < MAX_YEAR || month < 12),
    ensures
        month >= 1 ==> res == spec_days_in_month(year as int, month as int),
        month == 0 ==> res == 31,
{
    let (next_year, next_month) = if month == 12 {
        (year + 1, 1)
    } else {
        (year, month + 1)
    };
    let first_of_next = naive_from_ymd(next_year, next_month, 1);
    assert(first_of_next is Some);
    let first_of_next = first_of_next.unwrap();
    proof {
        lemma_valid_in_range(first_of_next);
        if month == 0 {
            lemma_days_before_month_values(year as int);
            lemma_year_length(MIN_YEAR as int);
            lemma_days_before_year_mono(MIN_YEAR + 1, year as int);
            lemma_range_bounds();
        } else {
            let last = Date { year, month, day: spec_days_in_month(year as int, month as int) as u32 };
            lemma_month_end_successor(year as int, month as int);
            lemma_valid_in_range(last);
        }
    }
    let prev = pred_date(first_of_next);
    assert(prev is Some);
    let prev = prev.unwrap();
    proof {
        if month == 0 {
            let dec31 = Date { year: (year - 1) as i32, month: 12, day: 31 };
            lemma_month_end_successor(year - 1, 12);
            lemma_day_number_injective(prev, dec31);
        } else {
            let last = Date { year, month, day: spec_days_in_month(year as int, month as int) as u32 };
            lemma_month_end_successor(year as int, month as int);
            lemma_day_number_injective(prev, last);
        }
    }
    prev.day
}

} // verus!
