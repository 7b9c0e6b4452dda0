//! What the quest pages show for a day: which date is selected, how to
//! move to the neighbouring days of the week, how each quest is drawn, and
//! which requests on quests and rewards are refused.

use crate::dates::{
    day_in_range, days_from_monday, days_from_sunday, format_date_display, format_date_iso,
    iso_date_text, month_name, next_day, parse_date, parsed_iso_day_number, prev_day, ymd_of_day_number,
    week_in_range, week_start_of, Date,
    Weekday,
};
use crate::errors::{validation_error, AppError};
use crate::models::Quest;
use crate::text::{parse_int, parse_integer, push_int, push_str, chars_of};
use vstd::prelude::*;

verus! {

/// The fantasy name of a weekday.
pub open spec fn fantasy_day_name(w: Weekday) -> Seq<char> {
    match w {
        Weekday::Mon => "Monday: Day of the Sword 🗡️"@,
        Weekday::Tue => "Tuesday: Day of the Shield 🛡️"@,
        Weekday::Wed => "Wednesday: Day of the Wand 🪄"@,
        Weekday::Thu => "Thursday: Day of the Tome 📚"@,
        Weekday::Fri => "Friday: Day of the Arcane ✨"@,
        Weekday::Sat => "Saturday: Day of the Crown 👑"@,
        Weekday::Sun => "Sunday: Day of Rest 🏰"@,
    }
}

/// Get the fantasy day name for a given weekday.
pub fn get_fantasy_day_name(weekday: Weekday) -> (s: &'static str)
    ensures
        s@ == fantasy_day_name(weekday),
{
    match weekday {
        Weekday::Mon => "Monday: Day of the Sword 🗡️",
        Weekday::Tue => "Tuesday: Day of the Shield 🛡️",
        Weekday::Wed => "Wednesday: Day of the Wand 🪄",
        Weekday::Thu => "Thursday: Day of the Tome 📚",
        Weekday::Fri => "Friday: Day of the Arcane ✨",
        Weekday::Sat => "Saturday: Day of the Crown 👑",
        Weekday::Sun => "Sunday: Day of Rest 🏰",
    }
}

/// Quest identifier sent by the client: a number, or a string holding one.
#[derive(Debug, Clone, PartialEq, Eq)]
pub enum QuestId {
    /// Numeric quest id.
    I64(i64),
    /// String-encoded quest id.
    String(String),
}

impl QuestId {
    /// The id as a number: a numeric id as is; a string parsed as `i64`
    /// (optional sign, decimal digits, nothing else), or 0 where it is not one.
    pub open spec fn spec_as_i64(&self) -> int {
        match self {
            QuestId::I64(v) => *v as int,
            QuestId::String(s) => match parse_int(s@, i64::MIN as int, i64::MAX as int) {
                Some(v) => v,
                None => 0,
            },
        }
    }

    /// Convert the quest id to a 64-bit integer.
    pub fn as_i64(&self) -> (v: i64)
        ensures
            v == self.spec_as_i64(),
    {
        match self {
            QuestId::I64(v) => *v,
            QuestId::String(s) => {
                let cs = chars_of(s.as_str());
                match parse_integer(&cs, i64::MIN as i128, i64::MAX as i128) {
                    Some(v) => v as i64,
                    None => 0,
                }
            },
        }
    }
}

/// A quest as the quest list shows it.
#[derive(Debug, Clone)]
pub struct QuestDisplay {
    /// Identifier of the quest.
    pub id: i64,
    /// Title of the quest.
    pub title: String,
    /// Description of the quest (empty where it has none).
    pub description: String,
    /// EXP awarded by the quest.
    pub exp_value: i32,
    /// Whether the quest is completed on the selected date.
    pub completed_today: bool,
    /// Whether the selected date lies before today.
    pub is_past: bool,
    /// Whether the selected date lies after today.
    pub is_future: bool,
}

impl QuestDisplay {
    /// The quest as shown on `selected_date`, seen on `today`.
    pub fn from_quest(quest: Quest, completed_today: bool, selected_date: Date, today: Date) -> (d:
        QuestDisplay)
        ensures
            d.id == quest.id,
            d.title == quest.title,
            d.description@ == (match quest.description {
                Some(s) => s@,
                None => Seq::<char>::empty(),
            }),
            d.exp_value == quest.exp_value,
            d.completed_today == completed_today,
            d.is_past == (selected_date@ < today@),
            d.is_future == (selected_date@ > today@),
    {
        let description = match quest.description {
            Some(s) => s,
            None => String::new(),
        };
        QuestDisplay {
            id: quest.id,
            title: quest.title,
            description,
            exp_value: quest.exp_value,
            completed_today,
            is_past: selected_date.day_number() < today.day_number(),
            is_future: selected_date.day_number() > today.day_number(),
        }
    }
}

/// CSS class of a quest item: completed first, then past, then future.
pub open spec fn quest_item_class_of(q: QuestDisplay) -> Seq<char> {
    if q.completed_today {
        "quest-item completed"@
    } else if q.is_past {
        "quest-item past"@
    } else if q.is_future {
        "quest-item future"@
    } else {
        "quest-item"@
    }
}

/// CSS class of a quest item.
pub fn quest_item_class(q: &QuestDisplay) -> (s: &'static str)
    ensures
        s@ == quest_item_class_of(*q),
{
    if q.completed_today {
        "quest-item completed"
    } else if q.is_past {
        "quest-item past"
    } else if q.is_future {
        "quest-item future"
    } else {
        "quest-item"
    }
}

/// The CSS class of a navigation link: active for the active route, where no
/// route is active the home route `/` counts as active.
pub fn nav_link_class(active_route: Option<&str>, route: &str) -> (s: &'static str)
    ensures
        s@ == (if (match active_route {
            Some(r) => r@ == route@,
            None => route@ == "/"@,
        }) {
            "nav-link nav-link--active"@
        } else {
            "nav-link"@
        }),
{
    let is_active = match active_route {
        Some(r) => crate::text::str_eq(r, route),
        None => crate::text::str_eq(route, "/"),
    };
    if is_active {
        "nav-link nav-link--active"
    } else {
        "nav-link"
    }
}

// ---------------------------------------------------------------------------
// The selected day

/// The date a quest page asks for: today where no date is given; otherwise
/// the date's ISO text must parse and lie in today's week.
pub open spec fn selected_day_number(today: int, date: Option<Seq<char>>) -> Option<int> {
    match date {
        None => Some(today),
        Some(s) => match parsed_iso_day_number(s) {
            Some(n) => if week_start_of(today) <= n <= week_start_of(today) + 6 {
                Some(n as int)
            } else {
                None
            },
            None => None,
        },
    }
}

/// The date that the quest page shows (quests_handler): `today` where no
/// date is given, else the given ISO date, which must lie in today's week.
/// An unreadable date is refused as "Quest not available today - wrong day",
/// a date outside the week as "Date outside current week".
pub fn select_quest_date(today: Date, date_str: Option<&str>) -> (r: Result<Date, AppError>)
    requires
        week_in_range(today@),
    ensures
        r is Ok <==> selected_day_number(today@, crate::dates::opt_str_view(date_str)) is Some,
        r matches Ok(d) ==> selected_day_number(today@, crate::dates::opt_str_view(date_str))
            == Some(d@),
        date_str matches Some(s) && parsed_iso_day_number(s@) is None ==> (r matches Err(
            AppError::ValidationError(m),
        ) && m@ == "Quest not available today - wrong day"@),
        date_str matches Some(s) && parsed_iso_day_number(s@) matches Some(n) && !(week_start_of(
            today@,
        ) <= n <= week_start_of(today@) + 6) ==> (r matches Err(AppError::ValidationError(m))
            && m@ == "Date outside current week"@),
        r matches Err(e) ==> e is ValidationError,
{
    let selected = match date_str {
        Some(s) => match parse_date(s) {
            Some(d) => d,
            None => {
                return Err(
                    AppError::ValidationError(String::from_str("Quest not available today - wrong day")),
                );
            },
        },
        None => today,
    };
    let (week_start, week_end) = crate::dates::get_week_bounds(today);
    if selected.day_number() < week_start.day_number() || selected.day_number()
        > week_end.day_number() {
        return Err(validation_error("Date outside current week"));
    }
    proof {
        crate::dates::lemma_week_bounds_contain_date(today@);
    }
    Ok(selected)
}

/// The date that navigation asks for: `today` for the word `today`, else the
/// ISO date, which must parse (`NotFound` otherwise).
pub fn navigate_target(today: Date, path_date: &str) -> (r: Result<Date, AppError>)
    ensures
        path_date@ == "today"@ ==> r == Ok::<Date, AppError>(today),
        path_date@ != "today"@ ==> match parsed_iso_day_number(path_date@) {
            Some(n) => r matches Ok(d) && d@ == n,
            None => r == Err::<Date, AppError>(AppError::NotFound),
        },
{
    if crate::text::str_eq(path_date, "today") {
        Ok(today)
    } else {
        match parse_date(path_date) {
            Some(d) => Ok(d),
            None => Err(AppError::NotFound),
        }
    }
}

/// How a day is shown on the quest page.
#[derive(Debug, Clone)]
pub struct DayView {
    /// Day of the week of the selected date, 0 = Sunday.
    pub day_of_week: i32,
    /// Whether the selected date is today.
    pub is_today: bool,
    /// Fantasy name of the selected weekday.
    pub day_name: String,
    /// Days since Monday of the selected date.
    pub weekday_num: u8,
    /// The selected date for display.
    pub selected_date_formatted: String,
    /// Whether the previous day lies in the week.
    pub can_navigate_left: bool,
    /// Whether the next day lies in the week.
    pub can_navigate_right: bool,
    /// ISO text of the previous day.
    pub prev_date: String,
    /// ISO text of the next day.
    pub next_date: String,
    /// CSS class of the left navigation button.
    pub class_left: String,
    /// CSS class of the right navigation button.
    pub class_right: String,
}

/// The view of the selected date of the week `week_start` to `week_end` on `today`.
pub fn day_view(selected: Date, week_start: Date, week_end: Date, today: Date) -> (v: DayView)
    requires
        day_in_range(selected@ - 1),
        day_in_range(selected@ + 1),
    ensures
        v.day_of_week == days_from_sunday(selected@),
        v.is_today == (selected@ == today@),
        v.day_name@ == fantasy_day_name(crate::dates::weekday_from_monday(days_from_monday(selected@))),
        v.weekday_num == days_from_monday(selected@),
        v.can_navigate_left == (selected@ > week_start@),
        v.can_navigate_right == (selected@ < week_end@),
        v.class_left@ == (if selected@ > week_start@ {
            "nav-btn left"@
        } else {
            "nav-btn left disabled"@
        }),
        v.class_right@ == (if selected@ < week_end@ {
            "nav-btn right"@
        } else {
            "nav-btn right disabled"@
        }),
        ymd_of_day_number(selected@ as i32) matches Some((y, m, d)) ==> v.selected_date_formatted@
            == month_name(m as int) + seq![' '] + crate::text::nat_digits(d as nat),
        ymd_of_day_number((selected@ - 1) as i32) matches Some((y, m, d)) ==> v.prev_date@
            == iso_date_text(y as int, m as int, d as int),
        ymd_of_day_number((selected@ + 1) as i32) matches Some((y, m, d)) ==> v.next_date@
            == iso_date_text(y as int, m as int, d as int),
{
    let weekday = selected.weekday();
    let day_of_week = weekday.num_days_from_sunday() as i32;
    let from_monday = weekday.num_days_from_monday();
    proof {
        assert(weekday == crate::dates::weekday_from_monday(days_from_monday(selected@)));
    }
    let can_navigate_left = selected.day_number() > week_start.day_number();
    let can_navigate_right = selected.day_number() < week_end.day_number();
    let class_left = if can_navigate_left {
        String::from_str("nav-btn left")
    } else {
        String::from_str("nav-btn left disabled")
    };
    let class_right = if can_navigate_right {
        String::from_str("nav-btn right")
    } else {
        String::from_str("nav-btn right disabled")
    };
    DayView {
        day_of_week,
        is_today: selected.day_number() == today.day_number(),
        day_name: String::from_str(get_fantasy_day_name(weekday)),
        weekday_num: from_monday as u8,
        selected_date_formatted: format_date_display(selected),
        can_navigate_left,
        can_navigate_right,
        prev_date: format_date_iso(prev_day(selected)),
        next_date: format_date_iso(next_day(selected)),
        class_left,
        class_right,
    }
}

/// The URL path of a day: `/` for today, else `/day/` and the ISO date.
pub fn day_url_path(is_today: bool, date_iso: &str) -> (s: String)
    ensures
        s@ == (if is_today {
            "/"@
        } else {
            "/day/"@ + date_iso@
        }),
{
    if is_today {
        String::from_str("/")
    } else {
        let mut s = String::from_str("/day/");
        push_str(&mut s, date_iso);
        s
    }
}

/// The script that records a navigation in the browser history and marks
/// the weekday and the title of the page.
pub fn history_script(date_iso: &str, url_path: &str, weekday_num: u8, day_name: &str) -> (s: String)
    ensures
        s@ == "window.history.pushState({date:'"@ + date_iso@ + "'}, '', '"@ + url_path@
            + "'); document.body.setAttribute('data-weekday', '"@ + crate::text::int_text(
            weekday_num as int,
        ) + "'); document.title = '"@ + day_name@ + "';"@,
{
    let mut s = String::from_str("window.history.pushState({date:'");
    push_str(&mut s, date_iso);
    push_str(&mut s, "'}, '', '");
    push_str(&mut s, url_path);
    push_str(&mut s, "'); document.body.setAttribute('data-weekday', '");
    push_int(&mut s, weekday_num as i64);
    push_str(&mut s, "'); document.title = '");
    push_str(&mut s, day_name);
    push_str(&mut s, "';");
    s
}

// ---------------------------------------------------------------------------
// Requests refused by the quest and bounty pages

/// A quest can be toggled only on its own weekday (toggle_quest): a quest
/// for another day is refused as "Quest not available today - wrong day".
pub fn check_quest_day(day_of_week: i32, today: Date) -> (r: Result<(), AppError>)
    ensures
        r is Ok <==> day_of_week == days_from_sunday(today@),
        r matches Err(e) ==> e matches AppError::ValidationError(m) && m@
            == "Quest not available today - wrong day"@,
{
    let today_day = today.weekday().num_days_from_sunday();
    if day_of_week < 0 || day_of_week as u32 != today_day {
        Err(AppError::ValidationError(String::from_str("Quest not available today - wrong day")))
    } else {
        Ok(())
    }
}

/// A reward can be claimed only on a Sunday within the current week
/// (claim_reward): a weekday is refused as "Claim attempted on non-Sunday",
/// a day outside the week as "Claim attempted outside current week".
pub fn check_claim_day(today: Date, week_start: Date, week_end: Date) -> (r: Result<(), AppError>)
    ensures
        r is Ok <==> days_from_sunday(today@) == 0 && week_start@ <= today@ <= week_end@,
        days_from_sunday(today@) != 0 ==> (r matches Err(AppError::ValidationError(m)) && m@
            == "Claim attempted on non-Sunday"@),
        days_from_sunday(today@) == 0 && !(week_start@ <= today@ <= week_end@) ==> (r matches Err(
            AppError::ValidationError(m),
        ) && m@ == "Claim attempted outside current week"@),
{
    if today.weekday().num_days_from_sunday() != 0 {
        return Err(AppError::ValidationError(String::from_str("Claim attempted on non-Sunday")));
    }
    if today.day_number() < week_start.day_number() || today.day_number()
        > week_end.day_number() {
        return Err(
            AppError::ValidationError(String::from_str("Claim attempted outside current week")),
        );
    }
    Ok(())
}

/// A reward's progress in percent: `weekly_exp * 100` divided by the
/// requirement (at least 1), rounded towards zero.
pub open spec fn progress_percent_of(weekly_exp: int, required_exp: int) -> int {
    let d = if required_exp < 1 {
        1
    } else {
        required_exp
    };
    let p = weekly_exp * 100;
    if p >= 0 {
        p / d
    } else {
        -((-p) / d)
    }
}

/// A reward's progress in percent, for the progress bar.
pub fn progress_percent(weekly_exp: i32, required_exp: i32) -> (p: i32)
    requires
        fits_i32_mul_100(weekly_exp),
    ensures
        p == progress_percent_of(weekly_exp as int, required_exp as int),
{
    let d: i64 = if required_exp < 1 {
        1
    } else {
        required_exp as i64
    };
    let p: i64 = weekly_exp as i64 * 100;
    if p >= 0 {
        let q = (p as u64) / (d as u64);
        proof {
            assert(q <= p) by {
                vstd::arithmetic::div_mod::lemma_div_is_ordered_by_denominator(p as int, 1, d as int);
            }
        }
        q as i32
    } else {
        let q = ((0 - p) as u64) / (d as u64);
        proof {
            assert(q <= -p) by {
                vstd::arithmetic::div_mod::lemma_div_is_ordered_by_denominator(-p as int, 1, d as int);
            }
        }
        (0 - (q as i64)) as i32
    }
}

/// `weekly_exp * 100` fits in an `i32`, as the progress computation needs.
pub open spec fn fits_i32_mul_100(weekly_exp: i32) -> bool {
    i32::MIN <= weekly_exp * 100 <= i32::MAX
}

// ---------------------------------------------------------------------------
// Small parts of the pages

/// Three-letter English abbreviation of month `m` (1 to 12), `?` otherwise.
pub open spec fn month_abbrev(m: int) -> Seq<char> {
    if m == 1 {
        "Jan"@
    } else if m == 2 {
        "Feb"@
    } else if m == 3 {
        "Mar"@
    } else if m == 4 {
        "Apr"@
    } else if m == 5 {
        "May"@
    } else if m == 6 {
        "Jun"@
    } else if m == 7 {
        "Jul"@
    } else if m == 8 {
        "Aug"@
    } else if m == 9 {
        "Sep"@
    } else if m == 10 {
        "Oct"@
    } else if m == 11 {
        "Nov"@
    } else if m == 12 {
        "Dec"@
    } else {
        "?"@
    }
}

fn month_abbreviation(m: u32) -> (s: &'static str)
    ensures
        s@ == month_abbrev(m as int),
{
    if m == 1 {
        "Jan"
    } else if m == 2 {
        "Feb"
    } else if m == 3 {
        "Mar"
    } else if m == 4 {
        "Apr"
    } else if m == 5 {
        "May"
    } else if m == 6 {
        "Jun"
    } else if m == 7 {
        "Jul"
    } else if m == 8 {
        "Aug"
    } else if m == 9 {
        "Sep"
    } else if m == 10 {
        "Oct"
    } else if m == 11 {
        "Nov"
    } else if m == 12 {
        "Dec"
    } else {
        "?"
    }
}

/// A date of the quest history: the day of the month, the abbreviated
/// month and the year, as `15 Jan 2024`.
pub fn format_date(date: Date) -> (s: String)
    ensures
        crate::dates::ymd_of_day_number(date@ as i32) matches Some((y, m, d)) && s@
            == crate::text::nat_digits(d as nat) + " "@ + month_abbrev(m as int) + " "@
            + crate::text::int_text(y as int),
{
    let (y, m, d) = date.ymd();
    let mut s = String::new();
    push_int(&mut s, d as i64);
    push_str(&mut s, " ");
    push_str(&mut s, month_abbreviation(m));
    push_str(&mut s, " ");
    push_int(&mut s, y as i64);
    assert(crate::text::int_text(d as int) == crate::text::nat_digits(d as nat));
    s
}

/// The parts of a day navigation button.
#[derive(Debug, Clone)]
pub struct NavButton {
    /// Element identifier.
    pub id: String,
    /// Accessible label.
    pub label: String,
    /// Click handler, where navigation is possible.
    pub onclick: Option<String>,
}

/// A navigation button of class `class` (a left button where the class
/// names `left`), leading to `target_date` where navigation is possible.
pub fn nav_button(class: &str, can_navigate: bool, target_date: &str) -> (b: NavButton)
    ensures
        ({
            let left = crate::text::contains_seq(class@, "left"@);
            let dir = if left {
                "prev"@
            } else {
                "next"@
            };
            &&& b.id@ == (if left {
                "nav-left"@
            } else {
                "nav-right"@
            })
            &&& b.label@ == (if left {
                "Previous Day"@
            } else {
                "Next Day"@
            })
            &&& crate::editor::opt_text(b.onclick) == (if can_navigate {
                Some(
                    "@get('/navigate/"@ + target_date@ + "', { headers: { 'X-Navigate-Dir': '"@
                        + dir + "' } })"@,
                )
            } else {
                None
            })
        }),
{
    let left = crate::text::contains_str(class, "left");
    let dir = if left {
        "prev"
    } else {
        "next"
    };
    let onclick = if can_navigate {
        let mut s = String::from_str("@get('/navigate/");
        push_str(&mut s, target_date);
        push_str(&mut s, "', { headers: { 'X-Navigate-Dir': '");
        push_str(&mut s, dir);
        push_str(&mut s, "' } })");
        Some(s)
    } else {
        None
    };
    NavButton {
        id: String::from_str(if left {
            "nav-left"
        } else {
            "nav-right"
        }),
        label: String::from_str(if left {
            "Previous Day"
        } else {
            "Next Day"
        }),
        onclick,
    }
}

/// How a quest's action area shows it: the class of the element, its text,
/// and whether it is a button that toggles the quest (only on today).
pub open spec fn quest_status_of(q: QuestDisplay) -> (Seq<char>, Seq<char>, bool) {
    if q.is_past {
        if q.completed_today {
            ("completion-status quest-status--past completed"@, "✅ Quest Complete"@, false)
        } else {
            ("completion-status quest-status--past"@, "💀 Quest Failed"@, false)
        }
    } else if q.is_future {
        if q.completed_today {
            ("completion-status quest-status--future completed"@, "✅ Quest Complete"@, false)
        } else {
            ("completion-status quest-status--future"@, "🗺️ Adventure Awaits"@, false)
        }
    } else if q.completed_today {
        ("toggle-btn completed"@, "✅ Quest Complete"@, true)
    } else {
        ("toggle-btn"@, "⚔️ Mark Complete"@, true)
    }
}

/// The class, text and kind (button or not) of a quest's action area.
pub fn quest_status(q: &QuestDisplay) -> (r: (&'static str, &'static str, bool))
    ensures
        (r.0@, r.1@, r.2) == quest_status_of(*q),
        r.1@ == "✅ Quest Complete"@ <==> q.completed_today,
        q.is_past ==> (r.1@ == "💀 Quest Failed"@ <==> !q.completed_today),
        r.2 <==> !q.is_past && !q.is_future,
{
    proof {
        lemma_status_shows_completion(*q);
    }
    if q.is_past {
        if q.completed_today {
            ("completion-status quest-status--past completed", "✅ Quest Complete", false)
        } else {
            ("completion-status quest-status--past", "💀 Quest Failed", false)
        }
    } else if q.is_future {
        if q.completed_today {
            ("completion-status quest-status--future completed", "✅ Quest Complete", false)
        } else {
            ("completion-status quest-status--future", "🗺️ Adventure Awaits", false)
        }
    } else if q.completed_today {
        ("toggle-btn completed", "✅ Quest Complete", true)
    } else {
        ("toggle-btn", "⚔️ Mark Complete", true)
    }
}

/// The click handler that toggles a quest.
pub fn toggle_onclick(quest_id: i64) -> (s: String)
    ensures
        s@ == "@post('/quests/toggle', { payload: { quest_id: "@ + crate::text::int_text(
            quest_id as int,
        ) + " } })"@,
{
    let mut s = String::from_str("@post('/quests/toggle', { payload: { quest_id: ");
    push_int(&mut s, quest_id);
    push_str(&mut s, " } })");
    s
}

/// A quest's status shows "✅ Quest Complete" exactly when the quest is
/// completed on the selected date, whether that date is past, today or
/// future; a past quest that is not completed shows "💀 Quest Failed", and
/// only a quest of today has a toggle button.
pub proof fn lemma_status_shows_completion(q: QuestDisplay)
    ensures
        quest_status_of(q).1 == "✅ Quest Complete"@ <==> q.completed_today,
        q.is_past ==> (quest_status_of(q).1 == "💀 Quest Failed"@ <==> !q.completed_today),
        quest_status_of(q).2 <==> !q.is_past && !q.is_future,
{
    reveal_strlit("✅ Quest Complete");
    reveal_strlit("💀 Quest Failed");
    reveal_strlit("🗺️ Adventure Awaits");
    reveal_strlit("⚔️ Mark Complete");
    assert("✅ Quest Complete"@[0] != "💀 Quest Failed"@[0]);
    assert("✅ Quest Complete"@[0] != "🗺️ Adventure Awaits"@[0]);
    assert("✅ Quest Complete"@[0] != "⚔️ Mark Complete"@[0]);
}

} // verus!
