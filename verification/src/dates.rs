//! Calendar dates and weeks.
//!
//! A [`Date`] is a day of the proleptic Gregorian calendar, held as its day
//! number: the count of days with January 1 of year 1 as day 1 (the numbering
//! of `chrono`'s `num_days_from_ce`). Dates span the range of
//! `chrono::NaiveDate`. Weeks start on Monday. Conversions to and from
//! calendar fields, parsing and formatting are done by `chrono`.

use crate::text::{
    all_digits, chars_of, eq_ignore_ascii_case, equals_ignore_ascii_case, parse_int,
    parse_integer, trim, trim_chars,
};
use chrono::{Datelike, NaiveDate};
use vstd::prelude::*;

verus! {

/// Day number of the earliest date (`chrono::NaiveDate::MIN`, January 1 of year -262143).
pub const MIN_DAY_NUMBER: i32 = -95746129;

/// Day number of the latest date (`chrono::NaiveDate::MAX`, December 31 of year 262142).
pub const MAX_DAY_NUMBER: i32 = 95745399;

/// Day number of January 1, 1970, the Unix epoch.
pub const UNIX_EPOCH_DAY_NUMBER: i32 = 719163;

/// `n` is the day number of a representable date.
pub open spec fn day_in_range(n: int) -> bool {
    MIN_DAY_NUMBER <= n <= MAX_DAY_NUMBER
}

/// Days since the last Monday (0 for Monday, 6 for Sunday) of day number `n`;
/// day 1, January 1 of year 1, was a Monday.
pub open spec fn days_from_monday(n: int) -> int {
    (n - 1) % 7
}

/// Days since the last Sunday (0 for Sunday, 6 for Saturday) of day number `n`.
pub open spec fn days_from_sunday(n: int) -> int {
    n % 7
}

// ---------------------------------------------------------------------------
// What chrono computes

/// Day number of the calendar date `year`-`month`-`day`, or `None` where
/// `chrono::NaiveDate::from_ymd_opt` makes no date of them.
pub uninterp spec fn day_number_of_ymd(year: i32, month: u32, day: u32) -> Option<i32>;

/// Calendar fields (year, month, day) of a day number, as `chrono` reads them back.
pub uninterp spec fn ymd_of_day_number(n: i32) -> Option<(i32, u32, u32)>;

/// Day number of the date that `chrono::NaiveDate::parse_from_str(s, "%Y-%m-%d")`
/// reads from `s`, or `None` where it refuses `s`.
pub uninterp spec fn parsed_iso_day_number(s: Seq<char>) -> Option<i32>;

/// Day number of the local date, in the time zone named `zone`, of the
/// instant `secs` seconds and `nanos` nanoseconds after the Unix epoch, as
/// `chrono-tz` gives it; `None` where `zone` names no zone of its database.
pub uninterp spec fn local_day_number(secs: i64, nanos: u32, zone: Seq<char>) -> Option<i32>;

/// `zone` names a time zone of the `chrono-tz` database.
pub uninterp spec fn known_time_zone(zone: Seq<char>) -> bool;

/// Calls `chrono::NaiveDate::from_ymd_opt` and reads the date's day number.
/// Claims: the result is the named day number; a date made from fields reads
/// back the same fields; every date lies in the representable range.
#[verifier::external_body]
fn chrono_day_number_of_ymd(year: i32, month: u32, day: u32) -> (r: Option<i32>)
    ensures
        r == day_number_of_ymd(year, month, day),
        r matches Some(n) ==> day_in_range(n as int) && ymd_of_day_number(n) == Some(
            (year, month, day),
        ),
{
    NaiveDate::from_ymd_opt(year, month, day).map(|d| d.num_days_from_ce())
}

/// Calls `chrono::NaiveDate::from_num_days_from_ce_opt` and reads the date's
/// year, month and day. Claims: the result is the named fields, present
/// exactly for day numbers of the representable range, with the month in
/// 1..=12 and the day in 1..=31.
#[verifier::external_body]
fn chrono_ymd_of_day_number(n: i32) -> (r: Option<(i32, u32, u32)>)
    ensures
        r == ymd_of_day_number(n),
        r is Some <==> day_in_range(n as int),
        r matches Some((y, m, d)) ==> 1 <= m <= 12 && 1 <= d <= 31,
{
    NaiveDate::from_num_days_from_ce_opt(n).map(|d| (d.year(), d.month(), d.day()))
}

/// Calls `chrono::NaiveDate::parse_from_str(s, "%Y-%m-%d")` and reads the
/// date's day number. Claims: the result is the named day number, which lies
/// in the representable range.
#[verifier::external_body]
fn chrono_parse_iso_date(s: &str) -> (r: Option<i32>)
    ensures
        r == parsed_iso_day_number(s@),
        r matches Some(n) ==> day_in_range(n as int),
{
    NaiveDate::parse_from_str(s, "%Y-%m-%d").ok().map(|d| d.num_days_from_ce())
}

/// The UTC date of the second `secs` and the days before and after it are
/// all representable, so that the local date in any zone is too.
pub open spec fn zone_lookup_in_range(secs: int) -> bool {
    day_in_range(utc_day_number(secs) - 1) && day_in_range(utc_day_number(secs) + 1)
}

/// Two decimal digits of `v` (0 to 99).
pub open spec fn pad2(v: int) -> Seq<char> {
    seq![digit_char(v / 10), digit_char(v % 10)]
}

/// Four decimal digits of `v` (0 to 9999).
pub open spec fn pad4(v: int) -> Seq<char> {
    seq![digit_char(v / 1000), digit_char((v / 100) % 10), digit_char((v / 10) % 10), digit_char(v % 10)]
}

/// The ASCII digit for `k` (0 to 9).
pub open spec fn digit_char(k: int) -> char {
    ((k + 48) as u32) as char
}

/// The year as chrono's `%Y` writes it: four digits for 0..=9999; else a
/// sign (`+` or `-`) and the magnitude, zero-padded to at least four digits.
pub open spec fn year_text(year: int) -> Seq<char> {
    if 0 <= year <= 9999 {
        pad4(year)
    } else {
        let sign = if year < 0 {
            '-'
        } else {
            '+'
        };
        let mag = if year < 0 {
            -year
        } else {
            year
        };
        seq![sign] + if mag <= 9999 {
            pad4(mag)
        } else {
            crate::text::nat_digits(mag as nat)
        }
    }
}

/// `%Y-%m-%d` text of a date: the year as `year_text` gives it, then month
/// and day, two digits each, joined by `-`.
pub open spec fn iso_date_text(year: int, month: int, day: int) -> Seq<char> {
    year_text(year) + seq!['-'] + pad2(month) + seq!['-'] + pad2(day)
}

/// English name of month `m` (1 to 12).
pub open spec fn month_name(m: int) -> Seq<char> {
    if m == 1 {
        "January"@
    } else if m == 2 {
        "February"@
    } else if m == 3 {
        "March"@
    } else if m == 4 {
        "April"@
    } else if m == 5 {
        "May"@
    } else if m == 6 {
        "June"@
    } else if m == 7 {
        "July"@
    } else if m == 8 {
        "August"@
    } else if m == 9 {
        "September"@
    } else if m == 10 {
        "October"@
    } else if m == 11 {
        "November"@
    } else {
        "December"@
    }
}

/// Calls `chrono::NaiveDate::format(.., "%Y-%m-%d")` on the date of day
/// number `n`. Claims, from chrono's format documentation and its
/// `write_year`: text exists exactly for representable dates and is the year
/// (zero-padded to four digits in 0..=9999; else signed, the magnitude
/// zero-padded to at least four digits), the month and the day zero-padded
/// to two, joined by `-`; and for a year in 0..=9999,
/// `parse_from_str(.., "%Y-%m-%d")` reads that text back as the same date.
/// Whether the signed text of other years reads back is not stated.
#[verifier::external_body]
fn chrono_format_iso(n: i32) -> (r: Option<String>)
    ensures
        r is Some <==> day_in_range(n as int),
        r matches Some(t) ==> (ymd_of_day_number(n) matches Some((y, m, d)) ==> t@ == iso_date_text(
            y as int,
            m as int,
            d as int,
        ) && (0 <= y <= 9999 ==> parsed_iso_day_number(t@) == Some(n))),
{
    NaiveDate::from_num_days_from_ce_opt(n).map(|d| d.format("%Y-%m-%d").to_string())
}

/// Calls `chrono::NaiveDate::format(.., "%B %-d")` on the date of day number
/// `n`. Claims, from chrono's format documentation: text exists exactly for
/// representable dates and is the full month name, a space and the day of
/// the month without padding.
#[verifier::external_body]
fn chrono_format_display(n: i32) -> (r: Option<String>)
    ensures
        r is Some <==> day_in_range(n as int),
        r matches Some(t) ==> (ymd_of_day_number(n) matches Some((y, m, d)) ==> t@ == month_name(
            m as int,
        ) + seq![' '] + crate::text::nat_digits(d as nat)),
{
    NaiveDate::from_num_days_from_ce_opt(n).map(|d| d.format("%B %-d").to_string())
}

/// Calls `str::parse::<chrono_tz::Tz>`, and on success converts the instant
/// `secs`/`nanos` after the Unix epoch to that zone and reads the local date's
/// day number. Claims: the result is the named local day number, present
/// only for a known zone, and lies in the representable range. The local
/// date lies within a day of the UTC date; chrono panics where it leaves the
/// representable range, so the days around the UTC date must be representable.
#[verifier::external_body]
fn chrono_tz_local_day_number(secs: i64, nanos: u32, zone: &str) -> (r: Option<i32>)
    requires
        zone_lookup_in_range(secs as int),
    ensures
        r == local_day_number(secs, nanos, zone@),
        r is Some ==> known_time_zone(zone@),
        r matches Some(n) ==> day_in_range(n as int),
{
    match zone.parse::<chrono_tz::Tz>() {
        Ok(tz) => chrono::DateTime::from_timestamp(secs, nanos).map(
            |t| t.with_timezone(&tz).date_naive().num_days_from_ce(),
        ),
        Err(_) => None,
    }
}

/// Calls `str::parse::<chrono_tz::Tz>`. Claims: the result is present
/// exactly when `zone` names a zone of the database.
#[verifier::external_body]
pub(crate) fn chrono_tz_parse(zone: &str) -> (r: Option<chrono_tz::Tz>)
    ensures
        r is Some <==> known_time_zone(zone@),
{
    zone.parse::<chrono_tz::Tz>().ok()
}

/// `chrono_tz::Tz`, a time zone of the `chrono-tz` database.
#[verifier::external_type_specification]
#[verifier::external_body]
pub struct ExTz(chrono_tz::Tz);

// ---------------------------------------------------------------------------
// Days of the week

/// A day of the week.
#[derive(Clone, Copy, Debug, PartialEq, Eq, Structural, Hash)]
pub enum Weekday {
    /// Monday.
    Mon,
    /// Tuesday.
    Tue,
    /// Wednesday.
    Wed,
    /// Thursday.
    Thu,
    /// Friday.
    Fri,
    /// Saturday.
    Sat,
    /// Sunday.
    Sun,
}

/// The weekday that lies `k` days (0 to 6) after Monday.
pub open spec fn weekday_from_monday(k: int) -> Weekday {
    if k == 0 {
        Weekday::Mon
    } else if k == 1 {
        Weekday::Tue
    } else if k == 2 {
        Weekday::Wed
    } else if k == 3 {
        Weekday::Thu
    } else if k == 4 {
        Weekday::Fri
    } else if k == 5 {
        Weekday::Sat
    } else {
        Weekday::Sun
    }
}

impl Weekday {
    /// Days since Monday: 0 for Monday up to 6 for Sunday.
    pub open spec fn spec_from_monday(self) -> int {
        match self {
            Weekday::Mon => 0,
            Weekday::Tue => 1,
            Weekday::Wed => 2,
            Weekday::Thu => 3,
            Weekday::Fri => 4,
            Weekday::Sat => 5,
            Weekday::Sun => 6,
        }
    }

    /// Days since Sunday: 0 for Sunday up to 6 for Saturday.
    pub open spec fn spec_from_sunday(self) -> int {
        (self.spec_from_monday() + 1) % 7
    }

    /// Days since Monday: 0 for Monday up to 6 for Sunday.
    pub fn num_days_from_monday(&self) -> (r: u32)
        ensures
            r == self.spec_from_monday(),
    {
        match self {
            Weekday::Mon => 0,
            Weekday::Tue => 1,
            Weekday::Wed => 2,
            Weekday::Thu => 3,
            Weekday::Fri => 4,
            Weekday::Sat => 5,
            Weekday::Sun => 6,
        }
    }

    /// Days since Sunday: 0 for Sunday up to 6 for Saturday.
    pub fn num_days_from_sunday(&self) -> (r: u32)
        ensures
            r == self.spec_from_sunday(),
            r < 7,
    {
        match self {
            Weekday::Mon => 1,
            Weekday::Tue => 2,
            Weekday::Wed => 3,
            Weekday::Thu => 4,
            Weekday::Fri => 5,
            Weekday::Sat => 6,
            Weekday::Sun => 0,
        }
    }

    /// The weekday `k` days after Monday.
    pub fn from_days_from_monday(k: u32) -> (w: Weekday)
        requires
            k < 7,
        ensures
            w == weekday_from_monday(k as int),
            w.spec_from_monday() == k,
    {
        if k == 0 {
            Weekday::Mon
        } else if k == 1 {
            Weekday::Tue
        } else if k == 2 {
            Weekday::Wed
        } else if k == 3 {
            Weekday::Thu
        } else if k == 4 {
            Weekday::Fri
        } else if k == 5 {
            Weekday::Sat
        } else {
            Weekday::Sun
        }
    }
}

// ---------------------------------------------------------------------------
// Dates

/// A day of the proleptic Gregorian calendar within `chrono::NaiveDate`'s range.
#[derive(Clone, Copy, Debug, PartialEq, Eq, Structural, PartialOrd, Ord, Hash)]
pub struct Date {
    day_number: i32,
}

impl View for Date {
    type V = int;

    /// The day number of the date.
    closed spec fn view(&self) -> int {
        self.day_number as int
    }
}

impl Date {
    #[verifier::type_invariant]
    spec fn in_range(self) -> bool {
        day_in_range(self.day_number as int)
    }

    /// The date with day number `n`, if `n` is in range.
    pub fn from_day_number(n: i32) -> (r: Option<Date>)
        ensures
            r is Some <==> day_in_range(n as int),
            r matches Some(d) ==> d@ == n,
    {
        if MIN_DAY_NUMBER <= n && n <= MAX_DAY_NUMBER {
            Some(Date { day_number: n })
        } else {
            None
        }
    }

    /// The date with day number `n`, which is in range.
    pub fn from_valid_day_number(n: i32) -> (d: Date)
        requires
            day_in_range(n as int),
        ensures
            d@ == n,
    {
        Date { day_number: n }
    }

    /// The day number of the date.
    pub fn day_number(&self) -> (n: i32)
        ensures
            n == self@,
            day_in_range(n as int),
    {
        proof {
            use_type_invariant(self);
        }
        self.day_number
    }

    /// The date `year`-`month`-`day`, if it exists and is representable
    /// (as `chrono::NaiveDate::from_ymd_opt`).
    pub fn from_ymd_opt(year: i32, month: u32, day: u32) -> (r: Option<Date>)
        ensures
            r is Some <==> day_number_of_ymd(year, month, day) is Some,
            r matches Some(d) ==> (day_number_of_ymd(year, month, day) matches Some(n) && d@ == n
                && ymd_of_day_number(n) == Some((year, month, day))),
    {
        match chrono_day_number_of_ymd(year, month, day) {
            Some(n) => Some(Date { day_number: n }),
            None => None,
        }
    }

    /// Year, month and day of the date.
    pub fn ymd(&self) -> (r: (i32, u32, u32))
        ensures
            ymd_of_day_number(self@ as i32) == Some(r),
            1 <= r.1 <= 12,
            1 <= r.2 <= 31,
    {
        proof {
            use_type_invariant(self);
        }
        match chrono_ymd_of_day_number(self.day_number) {
            Some(r) => r,
            None => {
                proof {
                    assert(false);
                }
                (0, 1, 1)
            },
        }
    }

    /// The year of the date.
    pub fn year(&self) -> (y: i32)
        ensures
            ymd_of_day_number(self@ as i32) matches Some((yy, _, _)) && y == yy,
    {
        self.ymd().0
    }

    /// The month of the date, 1 to 12.
    pub fn month(&self) -> (m: u32)
        ensures
            ymd_of_day_number(self@ as i32) matches Some((_, mm, _)) && m == mm,
            1 <= m <= 12,
    {
        self.ymd().1
    }

    /// The day of the month, 1 to 31.
    pub fn day(&self) -> (d: u32)
        ensures
            ymd_of_day_number(self@ as i32) matches Some((_, _, dd)) && d == dd,
            1 <= d <= 31,
    {
        self.ymd().2
    }

    /// The day of the week.
    pub fn weekday(&self) -> (w: Weekday)
        ensures
            w.spec_from_monday() == days_from_monday(self@),
            w.spec_from_sunday() == days_from_sunday(self@),
    {
        proof {
            use_type_invariant(self);
        }
        // Shift by a multiple of seven so that the remainder is taken of a
        // non-negative number.
        let shifted: u64 = (self.day_number as i64 + 95746132) as u64;
        let k = (shifted % 7) as u32;
        proof {
            let n = self.day_number as int;
            assert((7 * 13678019 + (n - 1)) % 7 == (n - 1) % 7) by {
                vstd::arithmetic::div_mod::lemma_mod_multiples_vanish(13678019, n - 1, 7);
            }
            assert(((n - 1) % 7 + 1) % 7 == n % 7) by {
                vstd::arithmetic::div_mod::lemma_add_mod_noop(n - 1, 1, 7);
            }
        }
        Weekday::from_days_from_monday(k)
    }

    /// The date `k` days later (earlier for negative `k`), if representable.
    pub fn checked_add_days(&self, k: i64) -> (r: Option<Date>)
        ensures
            r is Some <==> day_in_range(self@ + k),
            r matches Some(d) ==> d@ == self@ + k,
    {
        proof {
            use_type_invariant(self);
        }
        if k < -200_000_000 || k > 200_000_000 {
            return None;
        }
        let n = self.day_number as i64 + k;
        if MIN_DAY_NUMBER as i64 <= n && n <= MAX_DAY_NUMBER as i64 {
            Some(Date { day_number: n as i32 })
        } else {
            None
        }
    }

    /// The date `k` days later (earlier for negative `k`), which is representable.
    pub fn add_days(&self, k: i64) -> (d: Date)
        requires
            day_in_range(self@ + k),
        ensures
            d@ == self@ + k,
    {
        proof {
            use_type_invariant(self);
        }
        Date { day_number: (self.day_number as i64 + k) as i32 }
    }

    /// The date at `at` on the UTC calendar, if representable.
    pub fn from_timestamp(at: UtcTimestamp) -> (r: Option<Date>)
        ensures
            r is Some <==> day_in_range(utc_day_number(at.secs as int)),
            r matches Some(d) ==> d@ == utc_day_number(at.secs as int),
    {
        let days: i64 = euclid_div_86400(at.secs) + UNIX_EPOCH_DAY_NUMBER as i64;
        if MIN_DAY_NUMBER as i64 <= days && days <= MAX_DAY_NUMBER as i64 {
            Some(Date { day_number: days as i32 })
        } else {
            None
        }
    }
}

pub(crate) fn euclid_div_86400(s: i64) -> (q: i64)
    ensures
        q == s as int / 86400,
{
    if s >= 0 {
        s / 86400
    } else {
        let m: u64 = (0 - (s as i128)) as u64;
        let q0 = m / 86400;
        let r0 = m % 86400;
        proof {
            let x = s as int;
            let mm = m as int;
            assert(mm == 86400 * (q0 as int) + r0 as int) by {
                vstd::arithmetic::div_mod::lemma_fundamental_div_mod(mm, 86400);
            }
            if r0 == 0 {
                assert(x == 86400 * (-(q0 as int)));
                vstd::arithmetic::div_mod::lemma_div_multiples_vanish(-(q0 as int), 86400);
            } else {
                assert(x == 86400 * (-(q0 as int) - 1) + (86400 - r0 as int));
                vstd::arithmetic::div_mod::lemma_div_multiples_vanish_fancy(
                    -(q0 as int) - 1,
                    86400 - r0 as int,
                    86400,
                );
            }
        }
        if r0 == 0 {
            0 - (q0 as i64)
        } else {
            0 - (q0 as i64) - 1
        }
    }
}

/// An instant on the UTC time line: seconds since the Unix epoch and the
/// nanoseconds within that second.
#[derive(Clone, Copy, Debug, PartialEq, Eq, Structural, PartialOrd, Ord, Hash)]
pub struct UtcTimestamp {
    /// Whole seconds since January 1, 1970, 00:00:00 UTC (negative before it).
    pub secs: i64,
    /// Nanoseconds within the second.
    pub nanos: u32,
}

/// Day number of the UTC date on which the second `secs` after the Unix epoch falls.
pub open spec fn utc_day_number(secs: int) -> int {
    secs / 86400 + UNIX_EPOCH_DAY_NUMBER
}

/// The view of an optional string slice.
pub open spec fn opt_str_view(o: Option<&str>) -> Option<Seq<char>> {
    match o {
        Some(z) => Some(z@),
        None => None,
    }
}

/// Day number of the date at `at` in the zone named `tz`: the local date
/// where `tz` names a known zone and the days around the UTC date are
/// representable (so that the local date is), else the UTC date; `None`
/// where that date is not representable.
pub open spec fn zone_day_number(at: UtcTimestamp, tz: Option<Seq<char>>) -> Option<int> {
    let local = match tz {
        Some(z) => if zone_lookup_in_range(at.secs as int) {
            local_day_number(at.secs, at.nanos, z)
        } else {
            None
        },
        None => None,
    };
    match local {
        Some(n) => Some(n as int),
        None => if day_in_range(utc_day_number(at.secs as int)) {
            Some(utc_day_number(at.secs as int))
        } else {
            None
        },
    }
}

/// Whether the UTC date of the second `secs` and the days around it are
/// representable.
fn zone_lookup_fits(secs: i64) -> (b: bool)
    ensures
        b == zone_lookup_in_range(secs as int),
{
    let days: i64 = euclid_div_86400(secs) + UNIX_EPOCH_DAY_NUMBER as i64;
    MIN_DAY_NUMBER as i64 <= days - 1 && days + 1 <= MAX_DAY_NUMBER as i64
}

/// The date at `at` in the time zone named `tz`: the local date where `tz`
/// names a known zone and the days around the UTC date are representable,
/// else the UTC date; `None` where that date is not representable.
pub fn date_in_zone(at: UtcTimestamp, tz: Option<&str>) -> (r: Option<Date>)
    ensures
        r is Some <==> zone_day_number(at, opt_str_view(tz)) is Some,
        r matches Some(d) ==> zone_day_number(at, opt_str_view(tz)) == Some(d@),
{
    match tz {
        Some(z) => if zone_lookup_fits(at.secs) {
            match chrono_tz_local_day_number(at.secs, at.nanos, z) {
                Some(n) => Some(Date::from_valid_day_number(n)),
                None => Date::from_timestamp(at),
            }
        } else {
            Date::from_timestamp(at)
        },
        None => Date::from_timestamp(at),
    }
}

// ---------------------------------------------------------------------------
// Weeks and neighbouring days

/// Day number of the Monday that starts the week of day number `n`.
pub open spec fn week_start_of(n: int) -> int {
    n - days_from_monday(n)
}

/// The week of day number `n` lies within the representable range.
pub open spec fn week_in_range(n: int) -> bool {
    day_in_range(week_start_of(n)) && day_in_range(week_start_of(n) + 6)
}

/// The first (Monday) and last (Sunday) dates of the week containing `date`.
pub fn get_week_bounds(date: Date) -> (r: (Date, Date))
    requires
        week_in_range(date@),
    ensures
        r.0@ == week_start_of(date@),
        r.1@ == r.0@ + 6,
{
    let w = date.weekday().num_days_from_monday();
    let start = date.add_days(-(w as i64));
    let end = start.add_days(6);
    (start, end)
}

/// The day before `date`.
pub fn prev_day(date: Date) -> (r: Date)
    requires
        day_in_range(date@ - 1),
    ensures
        r@ == date@ - 1,
{
    date.add_days(-1)
}

/// The day after `date`.
pub fn next_day(date: Date) -> (r: Date)
    requires
        day_in_range(date@ + 1),
    ensures
        r@ == date@ + 1,
{
    date.add_days(1)
}

/// Parses an ISO date (`YYYY-MM-DD`, as chrono's `%Y-%m-%d` reads it).
pub fn parse_date(date_str: &str) -> (r: Option<Date>)
    ensures
        r is Some <==> parsed_iso_day_number(date_str@) is Some,
        r matches Some(d) ==> (parsed_iso_day_number(date_str@) matches Some(n) && d@ == n),
{
    match chrono_parse_iso_date(date_str) {
        Some(n) => Some(Date::from_valid_day_number(n)),
        None => None,
    }
}

/// Formats a date as `YYYY-MM-DD` (years outside 0..=9999 signed); for a
/// year in 0..=9999, `parse_date` reads the text back as the same date.
pub fn format_date_iso(date: Date) -> (s: String)
    ensures
        ymd_of_day_number(date@ as i32) matches Some((y, m, d)) ==> s@ == iso_date_text(
            y as int,
            m as int,
            d as int,
        ) && (0 <= y <= 9999 ==> parsed_iso_day_number(s@) == Some(date@ as i32)),
{
    let n = date.day_number();
    match chrono_format_iso(n) {
        Some(s) => s,
        None => {
            proof {
                assert(false);
            }
            String::new()
        },
    }
}

/// Formats a date for display: the month's name and the day, e.g. `January 15`.
pub fn format_date_display(date: Date) -> (s: String)
    ensures
        ymd_of_day_number(date@ as i32) matches Some((y, m, d)) ==> s@ == month_name(m as int)
            + seq![' '] + crate::text::nat_digits(d as nat),
{
    let n = date.day_number();
    match chrono_format_display(n) {
        Some(s) => s,
        None => {
            proof {
                assert(false);
            }
            String::new()
        },
    }
}

// ---------------------------------------------------------------------------
// Date override values

/// Lower-case names and abbreviations of the weekdays, with their number of
/// days since Sunday.
pub open spec fn weekday_name_target(s: Seq<char>) -> Option<int> {
    if eq_ignore_ascii_case(s, "sunday"@) || eq_ignore_ascii_case(s, "sun"@) {
        Some(0)
    } else if eq_ignore_ascii_case(s, "monday"@) || eq_ignore_ascii_case(s, "mon"@) {
        Some(1)
    } else if eq_ignore_ascii_case(s, "tuesday"@) || eq_ignore_ascii_case(s, "tue"@) {
        Some(2)
    } else if eq_ignore_ascii_case(s, "wednesday"@) || eq_ignore_ascii_case(s, "wed"@) {
        Some(3)
    } else if eq_ignore_ascii_case(s, "thursday"@) || eq_ignore_ascii_case(s, "thu"@) {
        Some(4)
    } else if eq_ignore_ascii_case(s, "friday"@) || eq_ignore_ascii_case(s, "fri"@) {
        Some(5)
    } else if eq_ignore_ascii_case(s, "saturday"@) || eq_ignore_ascii_case(s, "sat"@) {
        Some(6)
    } else {
        None
    }
}

/// The Sunday-based week of day number `n` lies within the representable range.
pub open spec fn sunday_week_in_range(n: int) -> bool {
    day_in_range(n - days_from_sunday(n)) && day_in_range(n - days_from_sunday(n) + 6)
}

/// What a date override value denotes, relative to the reference date `today`:
/// after trimming white space, a number 0 to 6 (as `u8` parsing reads it) or
/// a weekday name or abbreviation (any letter case) is that weekday (0 =
/// Sunday) of today's Sunday-to-Saturday week; otherwise an ISO date; `None`
/// where the value is none of these.
pub open spec fn override_day_number(today: int, val: Seq<char>) -> Option<int> {
    let t = trim(val);
    let target = match parse_int(t, 0, 255) {
        Some(k) => if k <= 6 {
            Some(k)
        } else {
            weekday_name_target(t)
        },
        None => weekday_name_target(t),
    };
    match target {
        Some(k) => Some(today - (days_from_sunday(today) - k)),
        None => match parsed_iso_day_number(t) {
            Some(n) => Some(n as int),
            None => None,
        },
    }
}

fn weekday_name_target_of(t: &Vec<char>) -> (r: Option<u32>)
    ensures
        r matches Some(k) ==> weekday_name_target(t@) == Some(k as int),
        r is None ==> weekday_name_target(t@) is None,
{
    if equals_ignore_ascii_case(t, "sunday") || equals_ignore_ascii_case(t, "sun") {
        Some(0)
    } else if equals_ignore_ascii_case(t, "monday") || equals_ignore_ascii_case(t, "mon") {
        Some(1)
    } else if equals_ignore_ascii_case(t, "tuesday") || equals_ignore_ascii_case(t, "tue") {
        Some(2)
    } else if equals_ignore_ascii_case(t, "wednesday") || equals_ignore_ascii_case(t, "wed") {
        Some(3)
    } else if equals_ignore_ascii_case(t, "thursday") || equals_ignore_ascii_case(t, "thu") {
        Some(4)
    } else if equals_ignore_ascii_case(t, "friday") || equals_ignore_ascii_case(t, "fri") {
        Some(5)
    } else if equals_ignore_ascii_case(t, "saturday") || equals_ignore_ascii_case(t, "sat") {
        Some(6)
    } else {
        None
    }
}

/// Reads a date override value (`QUEST_LOG_TODAY`) relative to the reference
/// date `today`: a weekday number 0 to 6 (0 = Sunday), a weekday name or
/// abbreviation in any letter case, or a date `YYYY-MM-DD`; surrounding white
/// space is ignored. Numbers and names give that weekday of today's
/// Sunday-to-Saturday week. `None` exactly where the value is none of these
/// (for example `7`, `Funday` or `2026/02/20`); the application stops there
/// with `Invalid QUEST_LOG_TODAY value: ` and the trimmed value.
pub fn parse_today_override(today: Date, val: &str) -> (r: Option<Date>)
    requires
        sunday_week_in_range(today@),
    ensures
        r is Some <==> override_day_number(today@, val@) is Some,
        r matches Some(d) ==> override_day_number(today@, val@) == Some(d@),
{
    let chars = chars_of(val);
    let t = trim_chars(&chars);
    let wd = today.weekday().num_days_from_sunday();
    let num = parse_integer(&t, 0, 255);
    let target: Option<u32> = match num {
        Some(k) if k <= 6 => Some(k as u32),
        _ => weekday_name_target_of(&t),
    };
    match target {
        Some(k) => {
            let offset = wd as i64 - k as i64;
            Some(today.add_days(-offset))
        },
        None => {
            let ts = crate::text::string_of_chars(&t);
            parse_date(ts.as_str())
        },
    }
}

// ---------------------------------------------------------------------------
// Laws

/// The week of a date starts on a Monday, ends on the Sunday six days later,
/// and contains the date.
pub proof fn lemma_week_bounds_contain_date(n: int)
    ensures
        week_start_of(n) <= n <= week_start_of(n) + 6,
        days_from_monday(week_start_of(n)) == 0,
        days_from_monday(week_start_of(n) + 6) == 6,
        days_from_sunday(week_start_of(n)) == 1,
        days_from_sunday(week_start_of(n) + 6) == 0,
{
    let k = days_from_monday(n);
    assert(0 <= k < 7);
    assert(n - 1 == 7 * ((n - 1) / 7) + k) by {
        vstd::arithmetic::div_mod::lemma_fundamental_div_mod(n - 1, 7);
    }
    let q = (n - 1) / 7;
    assert(week_start_of(n) - 1 == 7 * q);
    assert((7 * q) % 7 == 0) by {
        vstd::arithmetic::div_mod::lemma_mod_multiples_vanish(q, 0, 7);
    }
    assert((7 * q + 6) % 7 == 6) by {
        vstd::arithmetic::div_mod::lemma_mod_multiples_vanish(q, 6, 7);
    }
    assert((7 * q + 1) % 7 == 1) by {
        vstd::arithmetic::div_mod::lemma_mod_multiples_vanish(q, 1, 7);
    }
    assert((7 * (q + 1) + 0) % 7 == 0) by {
        vstd::arithmetic::div_mod::lemma_mod_multiples_vanish(q + 1, 0, 7);
    }
}

/// Every date of a week has the same week bounds: the week's Monday is the
/// start of the week of each of its seven days.
pub proof fn lemma_week_bounds_shared(n: int, m: int)
    requires
        week_start_of(n) <= m <= week_start_of(n) + 6,
    ensures
        week_start_of(m) == week_start_of(n),
{
    lemma_week_bounds_contain_date(n);
    let s = week_start_of(n);
    let q = (s - 1) / 7;
    assert(s - 1 == 7 * q + days_from_monday(s)) by {
        vstd::arithmetic::div_mod::lemma_fundamental_div_mod(s - 1, 7);
    }
    assert(m - 1 == 7 * q + (m - s));
    assert((7 * q + (m - s)) % 7 == (m - s) % 7) by {
        vstd::arithmetic::div_mod::lemma_mod_multiples_vanish(q, m - s, 7);
    }
    assert((m - s) % 7 == m - s);
}

/// Each day's weekday follows the previous day's: the day after a Saturday
/// is a Sunday, and otherwise the count of days since Sunday grows by one.
pub proof fn lemma_next_day_weekday(n: int)
    ensures
        days_from_sunday(n + 1) == (days_from_sunday(n) + 1) % 7,
        days_from_monday(n + 1) == (days_from_monday(n) + 1) % 7,
{
    vstd::arithmetic::div_mod::lemma_add_mod_noop(n, 1, 7);
    vstd::arithmetic::div_mod::lemma_add_mod_noop(n - 1, 1, 7);
    assert(1int % 7 == 1);
}

/// A weekday override (a number 0 to 6 or a weekday name) gives the day of
/// that weekday within today's Sunday-to-Saturday week.
pub proof fn lemma_override_weekday_in_same_week(today: int, k: int)
    requires
        0 <= k <= 6,
    ensures
        days_from_sunday(today - (days_from_sunday(today) - k)) == k,
        (today - (days_from_sunday(today) - k)) - k == today - days_from_sunday(today),
{
    let w = days_from_sunday(today);
    let q = today / 7;
    assert(today == 7 * q + w) by {
        vstd::arithmetic::div_mod::lemma_fundamental_div_mod(today, 7);
    }
    assert(today - (w - k) == 7 * q + k);
    assert((7 * q + k) % 7 == k % 7) by {
        vstd::arithmetic::div_mod::lemma_mod_multiples_vanish(q, k, 7);
    }
}

} // verus!
