use quest_log::dates::date_in_zone;
use chrono::Datelike;
use quest_log::clock::TodayOverride;
use quest_log::dates::{
    format_date_display, format_date_iso, get_week_bounds, next_day, parse_date,
    parse_today_override, Date, UtcTimestamp,
};

fn ymd(y: i32, m: u32, d: u32) -> Date {
    Date::from_ymd_opt(y, m, d).unwrap()
}

fn now() -> UtcTimestamp {
    let d = std::time::SystemTime::now()
        .duration_since(std::time::UNIX_EPOCH)
        .unwrap();
    UtcTimestamp { secs: d.as_secs() as i64, nanos: d.subsec_nanos() }
}

/// Reads an override value with `reference` fixed as today, as the
/// application's date override does; an invalid value stops it.
fn override_with_today(reference: Date, val: &str) -> Date {
    let mut clock = TodayOverride::new();
    let at = now();
    clock.set_today(reference, at);
    let today = clock.today(at, None).unwrap();
    let result = parse_today_override(today, val)
        .unwrap_or_else(|| panic!("Invalid QUEST_LOG_TODAY value: {val}"));
    clock.reset_today();
    result
}

#[test]
fn test_get_week_bounds_monday() {
    let (start, end) = get_week_bounds(ymd(2024, 1, 1));
    assert_eq!(start, ymd(2024, 1, 1));
    assert_eq!(end, ymd(2024, 1, 7));
}

#[test]
fn test_get_week_bounds_wednesday() {
    let (start, end) = get_week_bounds(ymd(2024, 1, 3));
    assert_eq!(start, ymd(2024, 1, 1));
    assert_eq!(end, ymd(2024, 1, 7));
}

#[test]
fn test_get_week_bounds_sunday() {
    let (start, end) = get_week_bounds(ymd(2024, 1, 7));
    assert_eq!(start, ymd(2024, 1, 1));
    assert_eq!(end, ymd(2024, 1, 7));
}

#[test]
fn test_get_week_bounds_cross_month() {
    let (start, end) = get_week_bounds(ymd(2024, 1, 31));
    assert_eq!(start, ymd(2024, 1, 29));
    assert_eq!(end, ymd(2024, 2, 4));
}

#[test]
fn test_get_week_bounds_cross_year() {
    let (start, end) = get_week_bounds(ymd(2024, 12, 31));
    assert_eq!(start, ymd(2024, 12, 30));
    assert_eq!(end, ymd(2025, 1, 5));
}

#[test]
fn test_weekday_0_sunday() {
    assert_eq!(override_with_today(ymd(2024, 1, 3), "0"), ymd(2023, 12, 31));
}

#[test]
fn test_weekday_1_monday() {
    assert_eq!(override_with_today(ymd(2024, 1, 3), "1"), ymd(2024, 1, 1));
}

#[test]
fn test_weekday_2_tuesday() {
    assert_eq!(override_with_today(ymd(2024, 1, 3), "2"), ymd(2024, 1, 2));
}

#[test]
fn test_weekday_3_wednesday() {
    assert_eq!(override_with_today(ymd(2024, 1, 3), "3"), ymd(2024, 1, 3));
}

#[test]
fn test_weekday_4_thursday() {
    assert_eq!(override_with_today(ymd(2024, 1, 3), "4"), ymd(2024, 1, 4));
}

#[test]
fn test_weekday_5_friday() {
    assert_eq!(override_with_today(ymd(2024, 1, 3), "5"), ymd(2024, 1, 5));
}

#[test]
fn test_weekday_6_saturday() {
    assert_eq!(override_with_today(ymd(2024, 1, 3), "6"), ymd(2024, 1, 6));
}

#[test]
#[should_panic(expected = "Invalid QUEST_LOG_TODAY value: 7")]
fn test_weekday_7_invalid() {
    let _ = override_with_today(ymd(2024, 1, 3), "7");
}

#[test]
#[should_panic(expected = "Invalid QUEST_LOG_TODAY value: 255")]
fn test_weekday_255_invalid() {
    let _ = override_with_today(ymd(2024, 1, 3), "255");
}

#[test]
#[should_panic(expected = "Invalid QUEST_LOG_TODAY value: -1")]
fn test_weekday_negative_invalid() {
    let _ = override_with_today(ymd(2024, 1, 3), "-1");
}

#[test]
fn test_weekday_name_sunday() {
    assert_eq!(override_with_today(ymd(2024, 1, 3), "Sunday"), ymd(2023, 12, 31));
}

#[test]
fn test_weekday_name_monday() {
    assert_eq!(override_with_today(ymd(2024, 1, 3), "Monday"), ymd(2024, 1, 1));
}

#[test]
fn test_weekday_name_tuesday() {
    assert_eq!(override_with_today(ymd(2024, 1, 3), "Tuesday"), ymd(2024, 1, 2));
}

#[test]
fn test_weekday_name_wednesday() {
    assert_eq!(override_with_today(ymd(2024, 1, 3), "Wednesday"), ymd(2024, 1, 3));
}

#[test]
fn test_weekday_name_thursday() {
    assert_eq!(override_with_today(ymd(2024, 1, 3), "Thursday"), ymd(2024, 1, 4));
}

#[test]
fn test_weekday_name_friday() {
    assert_eq!(override_with_today(ymd(2024, 1, 3), "Friday"), ymd(2024, 1, 5));
}

#[test]
fn test_weekday_name_saturday() {
    assert_eq!(override_with_today(ymd(2024, 1, 3), "Saturday"), ymd(2024, 1, 6));
}

#[test]
fn test_weekday_name_case_insensitive() {
    let reference = ymd(2024, 1, 3);
    assert_eq!(override_with_today(reference, "MONDAY"), ymd(2024, 1, 1));
    assert_eq!(override_with_today(reference, "monday"), ymd(2024, 1, 1));
    assert_eq!(override_with_today(reference, "MonDay"), ymd(2024, 1, 1));
}

#[test]
fn test_weekday_abbrev_sun() {
    assert_eq!(override_with_today(ymd(2024, 1, 3), "Sun"), ymd(2023, 12, 31));
}

#[test]
fn test_weekday_abbrev_mon() {
    assert_eq!(override_with_today(ymd(2024, 1, 3), "Mon"), ymd(2024, 1, 1));
}

#[test]
fn test_weekday_abbrev_tue() {
    assert_eq!(override_with_today(ymd(2024, 1, 3), "Tue"), ymd(2024, 1, 2));
}

#[test]
fn test_weekday_abbrev_wed() {
    assert_eq!(override_with_today(ymd(2024, 1, 3), "Wed"), ymd(2024, 1, 3));
}

#[test]
fn test_weekday_abbrev_thu() {
    assert_eq!(override_with_today(ymd(2024, 1, 3), "Thu"), ymd(2024, 1, 4));
}

#[test]
fn test_weekday_abbrev_fri() {
    assert_eq!(override_with_today(ymd(2024, 1, 3), "Fri"), ymd(2024, 1, 5));
}

#[test]
fn test_weekday_abbrev_sat() {
    assert_eq!(override_with_today(ymd(2024, 1, 3), "Sat"), ymd(2024, 1, 6));
}

#[test]
#[should_panic(expected = "Invalid QUEST_LOG_TODAY value: Funday")]
fn test_weekday_name_invalid() {
    let _ = override_with_today(ymd(2024, 1, 3), "Funday");
}

#[test]
#[should_panic(expected = "Invalid QUEST_LOG_TODAY value: Javaday")]
fn test_weekday_name_invalid_javaday() {
    let _ = override_with_today(ymd(2024, 1, 3), "Javaday");
}

#[test]
fn test_full_date_2026_02_20() {
    assert_eq!(override_with_today(ymd(2024, 1, 3), "2026-02-20"), ymd(2026, 2, 20));
}

#[test]
fn test_full_date_2024_01_01() {
    assert_eq!(override_with_today(ymd(2024, 6, 15), "2024-01-01"), ymd(2024, 1, 1));
}

#[test]
fn test_full_date_2024_12_31() {
    assert_eq!(override_with_today(ymd(2024, 1, 1), "2024-12-31"), ymd(2024, 12, 31));
}

#[test]
fn test_full_date_leap_year() {
    assert_eq!(override_with_today(ymd(2024, 1, 1), "2024-02-29"), ymd(2024, 2, 29));
}

#[test]
#[should_panic(expected = "Invalid QUEST_LOG_TODAY value: 20-02-2026")]
fn test_full_date_invalid_format_dd_mm_yyyy() {
    let _ = override_with_today(ymd(2024, 1, 3), "20-02-2026");
}

#[test]
#[should_panic(expected = "Invalid QUEST_LOG_TODAY value: 2026/02/20")]
fn test_full_date_invalid_format_slashes() {
    let _ = override_with_today(ymd(2024, 1, 3), "2026/02/20");
}

#[test]
#[should_panic(expected = "Invalid QUEST_LOG_TODAY value: ")]
fn test_empty_string() {
    let _ = override_with_today(ymd(2024, 1, 3), "");
}

#[test]
fn test_whitespace_trimmed() {
    assert_eq!(override_with_today(ymd(2024, 1, 3), "  1  "), ymd(2024, 1, 1));
}

#[test]
fn test_reference_date_is_sunday() {
    assert_eq!(override_with_today(ymd(2024, 1, 7), "0"), ymd(2024, 1, 7));
}

#[test]
fn test_reference_date_is_saturday() {
    assert_eq!(override_with_today(ymd(2024, 1, 6), "6"), ymd(2024, 1, 6));
}

#[test]
fn test_cross_month_boundary() {
    assert_eq!(override_with_today(ymd(2024, 1, 3), "1"), ymd(2024, 1, 1));
}

#[test]
fn test_cross_year_boundary() {
    assert_eq!(override_with_today(ymd(2024, 12, 31), "2"), ymd(2024, 12, 31));
}

#[test]
fn test_number_takes_precedence_over_name() {
    assert_eq!(override_with_today(ymd(2024, 1, 3), "1"), ymd(2024, 1, 1));
}

#[test]
fn test_fake_today_takes_precedence_over_real() {
    let fake_date = ymd(2024, 6, 15);
    let mut clock = TodayOverride::new();
    let at = now();
    clock.set_today(fake_date, at);
    assert_eq!(clock.today(at, Some("2030-01-01")), Some(fake_date));
    clock.reset_today();
}

#[test]
fn test_env_var_takes_precedence_over_real() {
    let clock = TodayOverride::new();
    let result = clock.today(now(), None).unwrap();
    assert!(result.year() >= 2020 && result.year() <= 2030);
}

#[test]
fn override_value_replaces_the_real_date() {
    let clock = TodayOverride::new();
    assert_eq!(clock.today(now(), Some("2024-01-15")), Some(ymd(2024, 1, 15)));
    assert_eq!(clock.today(now(), Some("not a day")), None);
}

#[test]
fn fixed_instant_in_a_time_zone() {
    // Jan 2nd 2026 02:00 UTC is Jan 1st 2026 21:00 in New York.
    let mut clock = TodayOverride::new();
    let at = UtcTimestamp { secs: 1_767_319_200, nanos: 0 };
    clock.set_fake_datetime(at);
    assert_eq!(clock.today_with_timezone(now(), Some("America/New_York"), None), Some(ymd(2026, 1, 1)));
    assert_eq!(clock.today_with_timezone(now(), None, None), Some(ymd(2026, 1, 2)));
    assert_eq!(clock.today_with_timezone(now(), Some("Invalid/Zone"), None), Some(ymd(2026, 1, 2)));
}

#[test]
fn test_format_date_iso() {
    assert_eq!(format_date_iso(ymd(2024, 1, 15)), "2024-01-15");
}

#[test]
fn test_format_date_display() {
    assert_eq!(format_date_display(ymd(2024, 1, 15)), "January 15");
}

#[test]
fn test_prev_day() {
    assert_eq!(quest_log::dates::prev_day(ymd(2024, 1, 2)), ymd(2024, 1, 1));
}

#[test]
fn test_next_day() {
    assert_eq!(next_day(ymd(2024, 1, 1)), ymd(2024, 1, 2));
}

#[test]
fn test_parse_date_valid() {
    assert_eq!(parse_date("2024-01-15"), Some(ymd(2024, 1, 15)));
}

#[test]
fn test_parse_date_invalid() {
    assert_eq!(parse_date("15-01-2024"), None);
}

#[test]
fn test_parse_date_empty() {
    assert_eq!(parse_date(""), None);
}

#[test]
fn date_range_matches_chrono() {
    let min = chrono::NaiveDate::MIN;
    let max = chrono::NaiveDate::MAX;
    assert_eq!(min.num_days_from_ce(), quest_log::dates::MIN_DAY_NUMBER);
    assert_eq!(max.num_days_from_ce(), quest_log::dates::MAX_DAY_NUMBER);
    assert!(Date::from_day_number(quest_log::dates::MAX_DAY_NUMBER + 1).is_none());
    let epoch = chrono::NaiveDate::from_ymd_opt(1970, 1, 1).unwrap();
    assert_eq!(epoch.num_days_from_ce(), quest_log::dates::UNIX_EPOCH_DAY_NUMBER);
}

#[test]
fn weekdays_of_known_dates() {
    let d = ymd(2024, 1, 3);
    assert_eq!(d.weekday(), quest_log::dates::Weekday::Wed);
    assert_eq!(d.weekday().num_days_from_sunday(), 3);
    assert_eq!(d.weekday().num_days_from_monday(), 2);
    assert_eq!(ymd(2023, 12, 31).weekday(), quest_log::dates::Weekday::Sun);
    assert_eq!(d.add_days(-3), ymd(2023, 12, 31));
    assert_eq!(d.checked_add_days(i64::MAX), None);
    assert_eq!(Date::from_ymd_opt(2023, 2, 29), None);
    assert_eq!(d.ymd(), (2024, 1, 3));
}

#[test]
fn iso_text_reads_back_as_the_same_date() {
    for d in [ymd(2024, 1, 15), ymd(0, 1, 1), ymd(99, 12, 31), ymd(9999, 12, 31), ymd(2024, 2, 29)] {
        assert_eq!(parse_date(&format_date_iso(d)), Some(d));
    }
    assert_eq!(parse_date("2024-01-15"), Some(ymd(2024, 1, 15)));
    assert_eq!(parse_date("15-01-2024"), None);
    assert_eq!(parse_date(""), None);
}

#[test]
fn zone_date_at_the_end_of_the_range_falls_back_to_utc() {
    let last = UtcTimestamp { secs: 8210266876799, nanos: 0 };
    let utc = Date::from_timestamp(last).unwrap();
    assert_eq!(date_in_zone(last, Some("Asia/Tokyo")), Some(utc));
    let first = UtcTimestamp { secs: -8334601228800, nanos: 0 };
    let utc_first = Date::from_timestamp(first).unwrap();
    assert_eq!(date_in_zone(first, Some("America/New_York")), Some(utc_first));
}

#[test]
fn zone_date_follows_the_zone() {
    // 2024-01-15 20:00:00 UTC is already January 16 in Tokyo.
    let at = UtcTimestamp { secs: 1705348800, nanos: 0 };
    assert_eq!(date_in_zone(at, Some("Asia/Tokyo")), Some(ymd(2024, 1, 16)));
    assert_eq!(date_in_zone(at, Some("UTC")), Some(ymd(2024, 1, 15)));
    assert_eq!(date_in_zone(at, None), Some(ymd(2024, 1, 15)));
}

#[test]
fn iso_text_of_years_outside_four_digits_is_signed() {
    assert_eq!(format_date_iso(ymd(10000, 1, 1)), "+10000-01-01");
    assert_eq!(format_date_iso(ymd(-1, 3, 4)), "-0001-03-04");
    assert_eq!(format_date_iso(ymd(-12345, 12, 31)), "-12345-12-31");
    assert_eq!(format_date_iso(ymd(0, 1, 1)), "0000-01-01");
}
