//! Calendar dates, strict `YYYY-MM-DD` parsing, and resolution of a date to
//! the start-of-day or end-of-day instant in the fixed UTC+7 offset that the
//! remote tax-document service uses.

use vstd::prelude::*;
use vstd::string::StrSliceExecFns;

verus! {

/// Seconds east of UTC for the fixed GMT+0700 offset.
pub const TZ_OFFSET_SECONDS: i64 = 25200;

/// A proleptic-Gregorian calendar date with a four-digit year.
#[derive(Clone, Copy, PartialEq, Eq, Structural, Debug)]
pub struct Date {
    pub year: u32,
    pub month: u32,
    pub day: u32,
}

/// A wall-clock time on a calendar date, understood in the fixed UTC+7 offset.
#[derive(Clone, Copy, PartialEq, Eq, Structural, Debug)]
pub struct Zoned {
    pub date: Date,
    pub hour: u32,
    pub minute: u32,
    pub second: u32,
}

/// The error returned for a `since`/`until` string that is not a valid
/// `YYYY-MM-DD` calendar date.
#[derive(Clone, Copy, PartialEq, Eq, Structural, Debug)]
pub struct DateParseError;

pub open spec fn is_leap_year(y: int) -> bool {
    y % 4 == 0 && (y % 100 != 0 || y % 400 == 0)
}

pub open spec fn days_in_month(y: int, m: int) -> int {
    if m == 2 {
        if is_leap_year(y) {
            29
        } else {
            28
        }
    } else if m == 4 || m == 6 || m == 9 || m == 11 {
        30
    } else {
        31
    }
}

pub open spec fn days_in_year(y: int) -> int {
    if is_leap_year(y) {
        366
    } else {
        365
    }
}

/// Days in all years strictly before `y`, counted from year 0.
pub open spec fn days_before_year(y: nat) -> int
    decreases y,
{
    if y == 0 {
        0
    } else {
        days_before_year((y - 1) as nat) + days_in_year(y - 1)
    }
}

/// Days in all months of year `y` strictly before month `m`.
pub open spec fn days_before_month(y: int, m: int) -> int
    decreases m,
{
    if m <= 1 {
        0
    } else {
        days_before_month(y, m - 1) + days_in_month(y, m - 1)
    }
}

impl Date {
    pub open spec fn wf(self) -> bool {
        self.year <= 9999 && 1 <= self.month <= 12 && 1 <= self.day <= days_in_month(
            self.year as int,
            self.month as int,
        )
    }

    /// The day number of this date, counted from 0000-01-01 as day 0.
    pub open spec fn civil_day(self) -> int {
        days_before_year(self.year as nat) + days_before_month(self.year as int, self.month as int)
            + self.day - 1
    }
}

/// The first instant of the day, `00:00:00` in UTC+7.
pub open spec fn start_of_day(d: Date) -> Zoned {
    Zoned { date: d, hour: 0, minute: 0, second: 0 }
}

/// The last whole second of the day, `23:59:59` in UTC+7.
pub open spec fn end_of_day(d: Date) -> Zoned {
    Zoned { date: d, hour: 23, minute: 59, second: 59 }
}

impl Zoned {
    pub open spec fn wf(self) -> bool {
        self.date.wf() && self.hour <= 23 && self.minute <= 59 && self.second <= 59
    }

    /// The absolute instant: seconds since the Unix epoch of this wall-clock
    /// time read in the fixed UTC+7 offset.
    pub open spec fn epoch_seconds_spec(self) -> int {
        (self.date.civil_day() - days_before_year(1970)) * 86400 + self.hour * 3600 + self.minute
            * 60 + self.second - TZ_OFFSET_SECONDS
    }
}

impl Date {
    /// Runtime check of well-formedness, for callers outside verified code.
    pub fn valid(&self) -> (b: bool)
        ensures
            b == self.wf(),
    {
        self.year <= 9999 && 1 <= self.month && self.month <= 12 && 1 <= self.day && self.day
            <= month_len(self.year, self.month)
    }
}

impl Zoned {
    /// Runtime check of well-formedness, for callers outside verified code.
    pub fn valid(&self) -> (b: bool)
        ensures
            b == self.wf(),
    {
        self.date.valid() && self.hour <= 23 && self.minute <= 59 && self.second <= 59
    }
}

fn leap_year(y: u32) -> (b: bool)
    ensures
        b == is_leap_year(y as int),
{
    y % 4 == 0 && (y % 100 != 0 || y % 400 == 0)
}

fn month_len(y: u32, m: u32) -> (n: u32)
    requires
        1 <= m <= 12,
    ensures
        n == days_in_month(y as int, m as int),
{
    if m == 2 {
        if leap_year(y) {
            29
        } else {
            28
        }
    } else if m == 4 || m == 6 || m == 9 || m == 11 {
        30
    } else {
        31
    }
}

fn year_len(y: u32) -> (n: u32)
    ensures
        n == days_in_year(y as int),
{
    if leap_year(y) {
        366
    } else {
        365
    }
}

fn days_before_year_exec(y: u32) -> (r: i64)
    requires
        y <= 9999,
    ensures
        r == days_before_year(y as nat),
        0 <= r <= 366 * (y as int),
{
    let mut acc: i64 = 0;
    let mut i: u32 = 0;
    while i < y
        invariant
            i <= y <= 9999,
            acc == days_before_year(i as nat),
            0 <= acc <= 366 * (i as int),
        decreases y - i,
    {
        acc = acc + year_len(i) as i64;
        i = i + 1;
    }
    acc
}

fn days_before_month_exec(y: u32, m: u32) -> (r: i64)
    requires
        1 <= m <= 12,
    ensures
        r == days_before_month(y as int, m as int),
        0 <= r <= 366,
{
    let mut acc: i64 = 0;
    let mut i: u32 = 1;
    while i < m
        invariant
            1 <= i <= m <= 12,
            acc == days_before_month(y as int, i as int),
            0 <= acc <= 31 * (i as int - 1),
        decreases m - i,
    {
        acc = acc + month_len(y, i) as i64;
        i = i + 1;
    }
    acc
}

impl Zoned {
    /// The absolute instant of this UTC+7 wall-clock time, as Unix seconds.
    pub fn epoch_seconds(&self) -> (r: i64)
        requires
            self.wf(),
        ensures
            r == self.epoch_seconds_spec(),
    {
        let year_days = days_before_year_exec(self.date.year);
        let month_days = days_before_month_exec(self.date.year, self.date.month);
        let epoch_days = days_before_year_exec(1970);
        let civil = year_days + month_days + self.date.day as i64 - 1;
        let days = civil - epoch_days;
        days * 86400 + self.hour as i64 * 3600 + self.minute as i64 * 60 + self.second as i64
            - TZ_OFFSET_SECONDS
    }
}

/// For one date, the end-of-day bound falls exactly one second before the next
/// day begins: the two resolved instants bracket a whole day of 86400 seconds.
pub proof fn lemma_bounds_span_one_day(d: Date)
    requires
        d.wf(),
    ensures
        end_of_day(d).epoch_seconds_spec() - start_of_day(d).epoch_seconds_spec() == 86399,
{
}

pub open spec fn is_digit(c: char) -> bool {
    48 <= c as int <= 57
}

pub open spec fn digit_val(c: char) -> int {
    c as int - 48
}

pub open spec fn date_str_shape(s: Seq<char>) -> bool {
    s.len() == 10 && is_digit(s[0]) && is_digit(s[1]) && is_digit(s[2]) && is_digit(s[3]) && s[4]
        == '-' && is_digit(s[5]) && is_digit(s[6]) && s[7] == '-' && is_digit(s[8]) && is_digit(
        s[9],
    )
}

pub open spec fn year_of(s: Seq<char>) -> int {
    digit_val(s[0]) * 1000 + digit_val(s[1]) * 100 + digit_val(s[2]) * 10 + digit_val(s[3])
}

pub open spec fn month_of(s: Seq<char>) -> int {
    digit_val(s[5]) * 10 + digit_val(s[6])
}

pub open spec fn day_of(s: Seq<char>) -> int {
    digit_val(s[8]) * 10 + digit_val(s[9])
}

/// A string is a valid date exactly when it has the strict ten-character
/// `YYYY-MM-DD` shape and names a real calendar date.
pub open spec fn valid_date_str(s: Seq<char>) -> bool {
    date_str_shape(s) && 1 <= month_of(s) <= 12 && 1 <= day_of(s) <= days_in_month(
        year_of(s),
        month_of(s),
    )
}

fn read_digit(s: &str, i: usize) -> (r: Option<u32>)
    requires
        i < s@.len(),
    ensures
        match r {
            Some(v) => is_digit(s@[i as int]) && v == digit_val(s@[i as int]) && v <= 9,
            None => !is_digit(s@[i as int]),
        },
{
    let c = s.get_char(i);
    let u = c as u32;
    if 48 <= u && u <= 57 {
        Some(u - 48)
    } else {
        None
    }
}

/// Strict `YYYY-MM-DD` parsing: succeeds exactly on the ten-character digit
/// and dash shape naming a real calendar date, and returns that date.
pub fn parse_date(s: &str) -> (r: Result<Date, DateParseError>)
    ensures
        r matches Ok(d) ==> valid_date_str(s@) && d.wf() && d.year == year_of(s@) && d.month
            == month_of(s@) && d.day == day_of(s@),
        r is Err <==> !valid_date_str(s@),
{
    if s.unicode_len() != 10 {
        return Err(DateParseError);
    }
    if s.get_char(4) != '-' || s.get_char(7) != '-' {
        return Err(DateParseError);
    }
    let d0 = match read_digit(s, 0) {
        Some(v) => v,
        None => return Err(DateParseError),
    };
    let d1 = match read_digit(s, 1) {
        Some(v) => v,
        None => return Err(DateParseError),
    };
    let d2 = match read_digit(s, 2) {
        Some(v) => v,
        None => return Err(DateParseError),
    };
    let d3 = match read_digit(s, 3) {
        Some(v) => v,
        None => return Err(DateParseError),
    };
    let m0 = match read_digit(s, 5) {
        Some(v) => v,
        None => return Err(DateParseError),
    };
    let m1 = match read_digit(s, 6) {
        Some(v) => v,
        None => return Err(DateParseError),
    };
    let a0 = match read_digit(s, 8) {
        Some(v) => v,
        None => return Err(DateParseError),
    };
    let a1 = match read_digit(s, 9) {
        Some(v) => v,
        None => return Err(DateParseError),
    };
    let year = d0 * 1000 + d1 * 100 + d2 * 10 + d3;
    let month = m0 * 10 + m1;
    let day = a0 * 10 + a1;
    if month < 1 || month > 12 {
        return Err(DateParseError);
    }
    if day < 1 || day > month_len(year, month) {
        return Err(DateParseError);
    }
    Ok(Date { year, month, day })
}

/// The calendar date one boundary string stands for: an empty string means
/// `today`, anything else the date the string spells.
pub open spec fn bound_date(s: Seq<char>, today: Date) -> Date {
    if s.len() == 0 {
        today
    } else {
        Date { year: year_of(s) as u32, month: month_of(s) as u32, day: day_of(s) as u32 }
    }
}

/// Resolves one boundary of the search range: an empty string stands for
/// `today`; anything else must be a strict `YYYY-MM-DD` date. The `since`
/// bound takes the start of the day, the `until` bound its last second, always
/// in UTC+7, with no check that one bound precedes the other.
pub fn resolve_date(s: &str, today: Date, to_start_of_day: bool) -> (r: Result<
    Zoned,
    DateParseError,
>)
    requires
        today.wf(),
    ensures
        (r is Ok) <==> (s@.len() == 0 || valid_date_str(s@)),
        r matches Ok(z) ==> z.wf() && z.date == bound_date(s@, today) && (if to_start_of_day {
            z == start_of_day(z.date)
        } else {
            z == end_of_day(z.date)
        }),
{
    let date = if s.is_empty() {
        today
    } else {
        match parse_date(s) {
            Ok(d) => d,
            Err(e) => return Err(e),
        }
    };
    if to_start_of_day {
        Ok(Zoned { date, hour: 0, minute: 0, second: 0 })
    } else {
        Ok(Zoned { date, hour: 23, minute: 59, second: 59 })
    }
}

} // verus!
