//! Which day is today: the real date in the player's time zone, unless a
//! test has fixed the date or the `QUEST_LOG_TODAY` variable overrides it.

use crate::dates::{
    date_in_zone, day_in_range, days_from_sunday, euclid_div_86400, opt_str_view,
    override_day_number, parse_today_override, sunday_week_in_range, utc_day_number,
    zone_day_number, zone_lookup_in_range, local_day_number, Date, UtcTimestamp,
    UNIX_EPOCH_DAY_NUMBER,
};
use vstd::prelude::*;

verus! {

/// Today's day number: the date of the fixed instant where a test fixed one
/// (in the zone `tz` where it names a known zone, else on the UTC calendar);
/// else, where an override value is given, the day it denotes relative to
/// the UTC date of `now`; else the date of `now` in the zone `tz` (or UTC).
pub open spec fn today_day_number(
    fixed: Option<UtcTimestamp>,
    now: UtcTimestamp,
    tz: Option<Seq<char>>,
    override_value: Option<Seq<char>>,
) -> Option<int> {
    match fixed {
        Some(at) => zone_day_number(at, tz),
        None => match override_value {
            Some(v) => {
                let base = utc_day_number(now.secs as int);
                if day_in_range(base) && sunday_week_in_range(base) {
                    override_day_number(base, v)
                } else {
                    None
                }
            },
            None => zone_day_number(now, tz),
        },
    }
}

/// The instant on `date` at the time of day of `now` (UTC).
pub open spec fn on_date_at_time_of(date: int, now: UtcTimestamp) -> UtcTimestamp {
    UtcTimestamp {
        secs: ((date - UNIX_EPOCH_DAY_NUMBER) * 86400 + (now.secs as int) % 86400) as i64,
        nanos: now.nanos,
    }
}

/// A date fixed for tests in place of the real one.
pub struct TodayOverride {
    fixed: Option<UtcTimestamp>,
}

impl TodayOverride {
    /// The instant that a test fixed, if any.
    pub closed spec fn fixed(&self) -> Option<UtcTimestamp> {
        self.fixed
    }

    /// No date is fixed.
    pub fn new() -> (o: Self)
        ensures
            o.fixed() is None,
    {
        TodayOverride { fixed: None }
    }

    /// Fixes today's date to `date`, at the time of day of `now`, so that a
    /// time zone still moves the local date.
    pub fn set_today(&mut self, date: Date, now: UtcTimestamp)
        ensures
            final(self).fixed() == Some(on_date_at_time_of(date@, now)),
    {
        let q = euclid_div_86400(now.secs);
        proof {
            vstd::arithmetic::div_mod::lemma_fundamental_div_mod(now.secs as int, 86400);
        }
        let time_of_day: i64 = (now.secs as i128 - (q as i128) * 86400) as i64;
        let day = date.day_number() as i64 - UNIX_EPOCH_DAY_NUMBER as i64;
        self.fixed = Some(UtcTimestamp { secs: day * 86400 + time_of_day, nanos: now.nanos });
    }

    /// Fixes the current instant (UTC) for tests of time zones.
    pub fn set_fake_datetime(&mut self, at: UtcTimestamp)
        ensures
            final(self).fixed() == Some(at),
    {
        self.fixed = Some(at);
    }

    /// Forgets the fixed date: today is the real date again.
    pub fn reset_today(&mut self)
        ensures
            final(self).fixed() is None,
    {
        self.fixed = None;
    }

    /// Today's date in the zone `tz` at the real instant `now`, given the
    /// value of `QUEST_LOG_TODAY` where it is set (debug builds read it).
    /// `None` where the override value is not valid or the date is not
    /// representable.
    pub fn today_with_timezone(
        &self,
        now: UtcTimestamp,
        tz: Option<&str>,
        override_value: Option<&str>,
    ) -> (r: Option<Date>)
        ensures
            r is Some <==> today_day_number(self.fixed(), now, opt_str_view(tz), opt_str_view(override_value)) is Some,
            r matches Some(d) ==> today_day_number(
                self.fixed(),
                now,
                opt_str_view(tz),
                opt_str_view(override_value),
            ) == Some(d@),
            (self.fixed() is None && override_value is None) ==> match tz {
                Some(z) => (zone_lookup_in_range(now.secs as int) ==> match local_day_number(
                    now.secs,
                    now.nanos,
                    z@,
                ) {
                    Some(n) => (r matches Some(d) && d@ == n),
                    None => true,
                }),
                None => match r {
                    Some(d) => d@ == utc_day_number(now.secs as int),
                    None => !day_in_range(utc_day_number(now.secs as int)),
                },
            },
    {
        match self.fixed {
            Some(at) => date_in_zone(at, tz),
            None => match override_value {
                Some(v) => {
                    let base = match Date::from_timestamp(now) {
                        Some(b) => b,
                        None => {
                            return None;
                        },
                    };
                    let wd = base.weekday().num_days_from_sunday() as i64;
                    if base.checked_add_days(-wd).is_none() || base.checked_add_days(6 - wd).is_none() {
                        return None;
                    }
                    parse_today_override(base, v)
                },
                None => date_in_zone(now, tz),
            },
        }
    }

    /// Today's date on the UTC calendar at the real instant `now`, given the
    /// value of `QUEST_LOG_TODAY` where it is set.
    pub fn today(&self, now: UtcTimestamp, override_value: Option<&str>) -> (r: Option<Date>)
        ensures
            r is Some <==> today_day_number(self.fixed(), now, None, opt_str_view(override_value)) is Some,
            r matches Some(d) ==> today_day_number(
                self.fixed(),
                now,
                None,
                opt_str_view(override_value),
            ) == Some(d@),
    {
        self.today_with_timezone(now, None, override_value)
    }
}

/// With no date fixed and no override, today is the date in the player's
/// time zone: for a zone that chrono-tz knows (and an instant whose
/// neighbouring days are representable) it is the local date there, and
/// without a zone it is the UTC date.
pub proof fn lemma_today_is_local_date(now: UtcTimestamp, zone: Seq<char>)
    ensures
        zone_lookup_in_range(now.secs as int) ==> match local_day_number(now.secs, now.nanos, zone) {
            Some(n) => today_day_number(None, now, Some(zone), None) == Some(n as int),
            None => true,
        },
        day_in_range(utc_day_number(now.secs as int)) ==> today_day_number(None, now, None, None)
            == Some(utc_day_number(now.secs as int)),
{
}

} // verus!
