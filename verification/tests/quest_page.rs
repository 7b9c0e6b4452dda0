use quest_log::day_view::day_view;
use quest_log::dates::{Date, Weekday};
use quest_log::day_view::{
    check_claim_day, check_quest_day, day_url_path, format_date, get_fantasy_day_name,
    history_script, nav_button, nav_link_class, navigate_target, progress_percent,
    quest_item_class, quest_status, select_quest_date, toggle_onclick, QuestDisplay, QuestId,
};
use quest_log::errors::AppError;

fn ymd(y: i32, m: u32, d: u32) -> Date {
    Date::from_ymd_opt(y, m, d).unwrap()
}

#[test]
fn test_get_fantasy_day_name_monday() {
    assert_eq!(get_fantasy_day_name(Weekday::Mon), "Monday: Day of the Sword 🗡️");
}

#[test]
fn test_get_fantasy_day_name_tuesday() {
    assert_eq!(get_fantasy_day_name(Weekday::Tue), "Tuesday: Day of the Shield 🛡️");
}

#[test]
fn test_get_fantasy_day_name_wednesday() {
    assert_eq!(get_fantasy_day_name(Weekday::Wed), "Wednesday: Day of the Wand 🪄");
}

#[test]
fn test_get_fantasy_day_name_thursday() {
    assert_eq!(get_fantasy_day_name(Weekday::Thu), "Thursday: Day of the Tome 📚");
}

#[test]
fn test_get_fantasy_day_name_friday() {
    assert_eq!(get_fantasy_day_name(Weekday::Fri), "Friday: Day of the Arcane ✨");
}

#[test]
fn test_get_fantasy_day_name_saturday() {
    assert_eq!(get_fantasy_day_name(Weekday::Sat), "Saturday: Day of the Crown 👑");
}

#[test]
fn test_get_fantasy_day_name_sunday() {
    assert_eq!(get_fantasy_day_name(Weekday::Sun), "Sunday: Day of Rest 🏰");
}

#[test]
fn test_quest_id_as_i64_with_i64_variant() {
    let id = QuestId::I64(42);
    assert_eq!(id.as_i64(), 42);
}

#[test]
fn test_quest_id_as_i64_with_string_variant_valid() {
    let id = QuestId::String("123".to_string());
    assert_eq!(id.as_i64(), 123);
}

#[test]
fn test_quest_id_as_i64_with_string_variant_invalid() {
    let id = QuestId::String("not_a_number".to_string());
    assert_eq!(id.as_i64(), 0);
}

#[test]
fn test_quest_id_as_i64_with_string_variant_negative() {
    let id = QuestId::String("-5".to_string());
    assert_eq!(id.as_i64(), -5);
}

#[test]
fn test_quest_id_as_i64_with_string_variant_whitespace() {
    let id = QuestId::String("  7  ".to_string());
    assert_eq!(id.as_i64(), 0);
}

#[test]
fn quest_id_with_plus_sign_and_overflow() {
    assert_eq!(QuestId::String("+8".to_string()).as_i64(), 8);
    assert_eq!(QuestId::String("9223372036854775807".to_string()).as_i64(), i64::MAX);
    assert_eq!(QuestId::String("9223372036854775808".to_string()).as_i64(), 0);
    assert_eq!(QuestId::String("".to_string()).as_i64(), 0);
}

#[test]
fn quest_date_defaults_to_today_and_stays_in_week() {
    let today = ymd(2024, 1, 3);
    assert_eq!(select_quest_date(today, None).unwrap(), today);
    assert_eq!(select_quest_date(today, Some("2024-01-07")).unwrap(), ymd(2024, 1, 7));
    assert_eq!(select_quest_date(today, Some("2024-01-01")).unwrap(), ymd(2024, 1, 1));
    match select_quest_date(today, Some("2024-01-08")) {
        Err(AppError::ValidationError(m)) => assert_eq!(m, "Date outside current week"),
        other => panic!("unexpected {other:?}"),
    }
    match select_quest_date(today, Some("tomorrow")) {
        Err(AppError::ValidationError(m)) => assert_eq!(m, "Quest not available today - wrong day"),
        other => panic!("unexpected {other:?}"),
    }
}

#[test]
fn navigation_target_today_or_date() {
    let today = ymd(2024, 1, 3);
    assert_eq!(navigate_target(today, "today").unwrap(), today);
    assert_eq!(navigate_target(today, "2024-01-05").unwrap(), ymd(2024, 1, 5));
    assert_eq!(navigate_target(today, "yesterday"), Err(AppError::NotFound));
}

#[test]
fn quest_toggle_only_on_its_weekday() {
    let wednesday = ymd(2024, 1, 3);
    assert_eq!(check_quest_day(3, wednesday), Ok(()));
    match check_quest_day(2, wednesday) {
        Err(AppError::ValidationError(m)) => assert_eq!(m, "Quest not available today - wrong day"),
        other => panic!("unexpected {other:?}"),
    }
    assert!(check_quest_day(-4, wednesday).is_err());
}

#[test]
fn reward_claims_only_on_sunday_of_the_week() {
    let (start, end) = (ymd(2024, 1, 1), ymd(2024, 1, 7));
    assert_eq!(check_claim_day(ymd(2024, 1, 7), start, end), Ok(()));
    match check_claim_day(ymd(2024, 1, 6), start, end) {
        Err(AppError::ValidationError(m)) => assert_eq!(m, "Claim attempted on non-Sunday"),
        other => panic!("unexpected {other:?}"),
    }
    match check_claim_day(ymd(2024, 1, 14), start, end) {
        Err(AppError::ValidationError(m)) => assert_eq!(m, "Claim attempted outside current week"),
        other => panic!("unexpected {other:?}"),
    }
}

#[test]
fn progress_percent_rounds_toward_zero() {
    assert_eq!(progress_percent(50, 200), 25);
    assert_eq!(progress_percent(1, 3), 33);
    assert_eq!(progress_percent(10, 0), 1000);
    assert_eq!(progress_percent(-1, 3), -33);
}

#[test]
fn quest_display_classes_and_status() {
    let q = QuestDisplay {
        id: 7,
        title: "Run".to_string(),
        description: String::new(),
        exp_value: 10,
        completed_today: false,
        is_past: true,
        is_future: false,
    };
    assert_eq!(quest_item_class(&q), "quest-item past");
    assert_eq!(quest_status(&q), ("completion-status quest-status--past", "💀 Quest Failed", false));
    let done = QuestDisplay { completed_today: true, is_past: false, ..q.clone() };
    assert_eq!(quest_item_class(&done), "quest-item completed");
    assert_eq!(quest_status(&done), ("toggle-btn completed", "✅ Quest Complete", true));
    let future = QuestDisplay { is_past: false, is_future: true, ..q };
    assert_eq!(quest_status(&future).1, "🗺️ Adventure Awaits");
    assert_eq!(toggle_onclick(7), "@post('/quests/toggle', { payload: { quest_id: 7 } })");
}

#[test]
fn nav_link_class_marks_active_route() {
    assert_eq!(nav_link_class(Some("/highscore"), "/highscore"), "nav-link nav-link--active");
    assert_eq!(nav_link_class(Some("/highscore"), "/"), "nav-link");
    assert_eq!(nav_link_class(None, "/"), "nav-link nav-link--active");
    assert_eq!(nav_link_class(None, "/bounty"), "nav-link");
}

#[test]
fn nav_buttons_follow_their_side() {
    let left = nav_button("nav-btn left", true, "2024-01-02");
    assert_eq!(left.id, "nav-left");
    assert_eq!(left.label, "Previous Day");
    assert_eq!(
        left.onclick.as_deref(),
        Some("@get('/navigate/2024-01-02', { headers: { 'X-Navigate-Dir': 'prev' } })")
    );
    let right = nav_button("nav-btn right disabled", false, "2024-01-08");
    assert_eq!(right.id, "nav-right");
    assert_eq!(right.label, "Next Day");
    assert_eq!(right.onclick, None);
}

#[test]
fn day_paths_and_history_script() {
    assert_eq!(day_url_path(true, "2024-01-03"), "/");
    assert_eq!(day_url_path(false, "2024-01-03"), "/day/2024-01-03");
    assert_eq!(
        history_script("2024-01-03", "/", 2, "Wednesday"),
        "window.history.pushState({date:'2024-01-03'}, '', '/'); document.body.setAttribute('data-weekday', '2'); document.title = 'Wednesday';"
    );
}

#[test]
fn history_dates_are_short() {
    assert_eq!(format_date(ymd(2024, 1, 15)), "15 Jan 2024");
    assert_eq!(format_date(ymd(2023, 12, 1)), "1 Dec 2023");
}

#[test]
fn day_view_links_to_the_neighbouring_days() {
    let monday = ymd(2024, 1, 15);
    let sunday = ymd(2024, 1, 21);
    let v = day_view(ymd(2024, 1, 17), monday, sunday, ymd(2024, 1, 15));
    assert_eq!(v.prev_date, "2024-01-16");
    assert_eq!(v.next_date, "2024-01-18");
    assert_eq!(v.selected_date_formatted, "January 17");
    assert!(v.can_navigate_left && v.can_navigate_right);
    assert!(!v.is_today);
    let first = day_view(monday, monday, sunday, monday);
    assert_eq!(first.prev_date, "2024-01-14");
    assert_eq!(first.class_left, "nav-btn left disabled");
    assert!(first.is_today);
}
