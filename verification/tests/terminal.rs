use quest_log::dates::UtcTimestamp;
use quest_log::models::Quest;
use quest_log::tui::{
    InputMode, Key, QuestWithCompletion, RewardWithClaimed, Tab, TuiAction, TuiState, View,
};

fn quest(id: i64, exp: i32, completed: bool) -> QuestWithCompletion {
    let at = UtcTimestamp { secs: 0, nanos: 0 };
    QuestWithCompletion {
        quest: Quest {
            created_at: at,
            day_of_week: 1,
            description: None,
            exp_value: exp,
            id,
            image_content_type: None,
            image_data: None,
            is_active: true,
            title: format!("Quest {id}"),
            updated_at: at,
        },
        completed,
    }
}

fn state() -> TuiState {
    let mut days: Vec<Vec<QuestWithCompletion>> = (0..7).map(|_| Vec::new()).collect();
    days[1] = vec![quest(10, 20, true), quest(11, 5, false)];
    days[3] = vec![quest(12, 7, true)];
    let rewards = vec![RewardWithClaimed {
        id: 1,
        title: "Cake".to_string(),
        description: None,
        required_exp: 50,
        is_active: true,
    }];
    TuiState::new(days, rewards, 100, 1)
}

#[test]
fn opens_on_todays_quests() {
    let s = state();
    assert_eq!(s.current_tab(), Tab::Quests);
    assert_eq!(s.current_day(), 1);
    assert_eq!(s.current_quest_index(), 0);
    assert!(s.is_view_list());
    assert_eq!(s.input_goal, "100");
    assert_eq!(s.total_quest_count(), 3);
    assert_eq!(s.quest_count_for_day(1), 2);
    assert_eq!(s.quest_count_for_day(9), 0);
    assert_eq!(s.reward_count(), 1);
    assert_eq!(s.get_weekly_exp(), (27, 32));
}

#[test]
fn arrows_move_between_days_and_quests() {
    let mut s = state();
    s.handle_key(Key::Down);
    assert_eq!(s.current_quest_index(), 1);
    s.handle_key(Key::Down);
    assert_eq!(s.current_quest_index(), 1);
    s.handle_key(Key::Left);
    assert_eq!((s.current_day(), s.current_quest_index()), (0, 0));
    s.handle_key(Key::Left);
    assert_eq!(s.current_day(), 6);
    s.handle_key(Key::Right);
    assert_eq!(s.current_day(), 0);
    s.handle_key(Key::Up);
    assert_eq!(s.current_quest_index(), 0);
}

#[test]
fn enter_toggles_the_selected_quest() {
    let mut s = state();
    s.handle_key(Key::Down);
    match s.handle_key(Key::Enter) {
        TuiAction::ToggleQuest(id) => assert_eq!(id, 11),
        other => panic!("unexpected {other:?}"),
    }
    assert_eq!(s.message.as_deref(), Some("🎯 Toggled quest"));
    s.clear_message();
    assert_eq!(s.message, None);
    s.handle_key(Key::Left);
    assert!(matches!(s.handle_key(Key::Enter), TuiAction::Nothing));
}

#[test]
fn tabs_cycle_and_letters_jump() {
    let mut s = state();
    s.handle_key(Key::Tab);
    assert_eq!(s.current_tab(), Tab::Rewards);
    s.handle_key(Key::Tab);
    assert_eq!(s.current_tab(), Tab::Settings);
    s.handle_key(Key::Tab);
    assert_eq!(s.current_tab(), Tab::Quests);
    s.handle_key(Key::Char('s'));
    assert_eq!(s.current_tab(), Tab::Settings);
    s.handle_key(Key::Char('t'));
    assert_eq!(s.current_tab(), Tab::Quests);
    s.handle_key(Key::Char('h'));
    assert!(s.is_view_help());
    s.handle_key(Key::Char('x'));
    assert!(s.is_view_help());
    s.handle_key(Key::Esc);
    assert!(s.is_view_list());
    assert!(matches!(s.handle_key(Key::Char('q')), TuiAction::Quit));
}

#[test]
fn quest_form_builds_a_create_request() {
    let mut s = state();
    s.handle_key(Key::Char('n'));
    assert!(s.is_view_create());
    assert_eq!(s.input_mode, InputMode::Title);
    assert_eq!(s.input_exp, 10);
    for c in "Swim".chars() {
        s.handle_key(Key::Char(c));
    }
    s.handle_key(Key::Backspace);
    s.handle_key(Key::Tab);
    assert_eq!(s.input_mode, InputMode::Exp);
    s.handle_key(Key::Char('5'));
    s.handle_key(Key::Char('x'));
    assert_eq!(s.input_exp, 105);
    s.handle_key(Key::Backspace);
    assert_eq!(s.input_exp, 10);
    s.handle_key(Key::Tab);
    s.handle_key(Key::Char('9'));
    assert_eq!(s.input_day, 1);
    s.handle_key(Key::Char('4'));
    assert_eq!(s.input_day, 4);
    match s.handle_key(Key::Enter) {
        TuiAction::CreateQuest(req) => {
            assert_eq!(req.title, "Swi");
            assert_eq!(req.exp_value, Some(10));
            assert_eq!(req.day_of_week, 4);
            assert_eq!(req.description, None);
        }
        other => panic!("unexpected {other:?}"),
    }
    assert!(s.is_view_list());
    assert_eq!(s.input_mode, InputMode::NoInput);
    assert_eq!(s.input_buffer, "");
    assert_eq!(s.message.as_deref(), Some("✅ Quest created!"));
}

#[test]
fn empty_titles_are_refused() {
    let mut s = state();
    s.handle_key(Key::Tab);
    s.handle_key(Key::Char('n'));
    assert_eq!(s.input_exp, 50);
    s.handle_key(Key::Char(' '));
    assert!(matches!(s.handle_key(Key::Enter), TuiAction::Nothing));
    assert_eq!(s.message.as_deref(), Some("❌ Title cannot be empty"));
    assert!(s.is_view_create());
    s.handle_key(Key::Esc);
    assert!(s.is_view_list());
    assert_eq!(s.input_buffer, "");
}

#[test]
fn settings_store_the_typed_goal() {
    let mut s = state();
    s.handle_key(Key::Char('s'));
    s.input_goal = String::new();
    s.handle_key(Key::Char('n'));
    s.handle_key(Key::Tab);
    assert_eq!(s.input_mode, InputMode::Goal);
    s.handle_key(Key::Char('2'));
    s.handle_key(Key::Char('a'));
    s.handle_key(Key::Char('5'));
    assert_eq!(s.input_goal, "25");
    match s.handle_key(Key::Enter) {
        TuiAction::SaveSettings(g) => assert_eq!(g, 25),
        other => panic!("unexpected {other:?}"),
    }
    assert_eq!(s.weekly_goal, 25);
    s.input_goal = "lots".to_string();
    match s.handle_key(Key::Enter) {
        TuiAction::SaveSettings(g) => assert_eq!(g, 25),
        other => panic!("unexpected {other:?}"),
    }
}

#[test]
fn deleting_a_quest_asks_first() {
    let mut s = state();
    s.handle_key(Key::Down);
    s.handle_key(Key::Char('d'));
    assert_eq!(s.current_view, View::Delete);
    s.handle_key(Key::Char('n'));
    assert!(s.is_view_list());
    s.handle_key(Key::Char('d'));
    match s.handle_key(Key::Char('y')) {
        TuiAction::DeleteQuest(id) => assert_eq!(id, 11),
        other => panic!("unexpected {other:?}"),
    }
    assert_eq!(s.current_quest_index(), 0);
    assert!(s.is_view_list());
    s.handle_key(Key::Char('r'));
    s.handle_key(Key::Char('d'));
    assert!(matches!(s.handle_key(Key::Enter), TuiAction::Nothing));
    assert_eq!(s.message.as_deref(), Some("⚠️ Reward deletion not implemented"));
}

#[test]
fn digits_that_would_overflow_are_not_accepted() {
    let mut s = state();
    s.handle_key(Key::Char('n'));
    s.handle_key(Key::Tab);
    s.input_exp = i32::MAX / 10 + 1;
    assert!(!s.accepts_key(Key::Char('1')));
    assert!(s.handle_key_checked(Key::Char('1')).is_none());
    assert_eq!(s.input_exp, i32::MAX / 10 + 1);
    assert!(!s.accepts_key(Key::Char('٣')));
    s.input_exp = 1;
    assert!(s.handle_key_checked(Key::Char('2')).is_some());
    assert_eq!(s.input_exp, 12);
}

#[test]
fn reload_keeps_the_selection() {
    let mut s = state();
    s.handle_key(Key::Down);
    let days: Vec<Vec<QuestWithCompletion>> = (0..7).map(|_| vec![quest(1, 1, false)]).collect();
    s.reload(days, Vec::new(), 70);
    assert_eq!(s.current_quest_index(), 1);
    assert_eq!(s.weekly_goal, 70);
    assert_eq!(s.reward_count(), 0);
    assert_eq!(s.get_weekly_exp(), (0, 7));
}

#[test]
fn list_input_wraps_days_in_any_view() {
    let mut s = state();
    s.handle_key(Key::Char('h'));
    assert!(s.is_view_help());
    // The list input itself does not look at the view.
    s.handle_list_input(Key::Left);
    assert_eq!((s.current_day(), s.current_quest_index()), (0, 0));
    s.handle_list_input(Key::Left);
    assert_eq!(s.current_day(), 6);
    s.handle_list_input(Key::Right);
    assert_eq!(s.current_day(), 0);
    assert!(s.is_view_help());
}
