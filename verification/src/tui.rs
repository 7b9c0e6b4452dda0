//! The terminal interface's state and how each key press changes it. The
//! application draws the state, reads keys, and carries out the database
//! work that a key press asks for.

use crate::models::{CreateQuestRequest, CreateRewardRequest, Quest};
use crate::stats::{flagged_sums_fit, prefix_sums_fit, sum_flagged, sum_of};
use crate::text::{chars_of, parse_int, parse_integer, push_char, string_of_chars, trim, trim_chars};
use vstd::prelude::*;
use vstd::view::View as _;

verus! {

/// A quest with whether it was completed today.
#[derive(Debug, Clone)]
pub struct QuestWithCompletion {
    /// The quest.
    pub quest: Quest,
    /// Whether it was completed today.
    pub completed: bool,
}

/// A reward as the terminal interface lists it.
#[derive(Debug, Clone)]
pub struct RewardWithClaimed {
    /// Identifier of the reward.
    pub id: i64,
    /// Title of the reward.
    pub title: String,
    /// Description of the reward.
    pub description: Option<String>,
    /// EXP needed to claim it.
    pub required_exp: i32,
    /// Whether the reward is active.
    pub is_active: bool,
}

/// The tabs of the interface.
#[derive(Debug, Clone, Copy, PartialEq, Eq, Structural)]
pub enum Tab {
    /// Quests of each day of the week.
    Quests,
    /// Rewards.
    Rewards,
    /// Settings.
    Settings,
}

/// What the interface shows over the tab.
#[derive(Debug, Clone, Copy, PartialEq, Eq, Structural)]
pub enum View {
    /// The tab's list.
    List,
    /// The form that creates an item.
    Create,
    /// The confirmation of a deletion.
    Delete,
    /// The help.
    Help,
}

/// Which input of a form has the focus.
#[derive(Debug, Clone, Copy, PartialEq, Eq, Structural)]
pub enum InputMode {
    /// No input.
    NoInput,
    /// The title.
    Title,
    /// The EXP value.
    Exp,
    /// The day of the week.
    Day,
    /// The confirmation of a deletion.
    ConfirmDelete,
    /// The weekly goal.
    Goal,
}

/// A key press.
#[derive(Debug, Clone, Copy, PartialEq, Eq, Structural)]
pub enum Key {
    /// A character key.
    Char(char),
    /// The tab key.
    Tab,
    /// Arrow left.
    Left,
    /// Arrow right.
    Right,
    /// Arrow up.
    Up,
    /// Arrow down.
    Down,
    /// Enter.
    Enter,
    /// Escape.
    Esc,
    /// Backspace.
    Backspace,
    /// Any other key.
    Other,
}

/// The database work that a key press asks for.
#[derive(Debug, Clone)]
pub enum TuiAction {
    /// Nothing to do.
    Nothing,
    /// Leave the program.
    Quit,
    /// Toggle today's completion of the quest, then reload.
    ToggleQuest(i64),
    /// Delete the quest, then reload.
    DeleteQuest(i64),
    /// Create the quest, then reload.
    CreateQuest(CreateQuestRequest),
    /// Create the reward, then reload.
    CreateReward(CreateRewardRequest),
    /// Store the weekly goal.
    SaveSettings(i32),
}

/// What an action asks for, over plain values.
pub enum ActionSpec {
    /// Nothing to do.
    Nothing,
    /// Leave the program.
    Quit,
    /// Toggle the quest with this identifier.
    ToggleQuest(i64),
    /// Delete the quest with this identifier.
    DeleteQuest(i64),
    /// Create a quest: title, EXP value, day of the week.
    CreateQuest(Seq<char>, i32, i32),
    /// Create a reward: title, required EXP.
    CreateReward(Seq<char>, i32),
    /// Store this weekly goal.
    SaveSettings(i32),
}

/// The plain values of an action.
pub open spec fn action_spec(a: TuiAction) -> ActionSpec {
    match a {
        TuiAction::Nothing => ActionSpec::Nothing,
        TuiAction::Quit => ActionSpec::Quit,
        TuiAction::ToggleQuest(id) => ActionSpec::ToggleQuest(id),
        TuiAction::DeleteQuest(id) => ActionSpec::DeleteQuest(id),
        TuiAction::CreateQuest(r) => {
            if r.description is None && r.exp_value is Some {
                ActionSpec::CreateQuest(r.title@, r.exp_value->0, r.day_of_week)
            } else {
                ActionSpec::Nothing
            }
        },
        TuiAction::CreateReward(r) => {
            if r.description is None {
                ActionSpec::CreateReward(r.title@, r.required_exp)
            } else {
                ActionSpec::Nothing
            }
        },
        TuiAction::SaveSettings(g) => ActionSpec::SaveSettings(g),
    }
}

/// The state of the interface that key presses change.
#[verifier::ext_equal]
pub struct TuiModel {
    /// The selected tab.
    pub tab: Tab,
    /// What is shown over the tab.
    pub view: View,
    /// The input with the focus.
    pub mode: InputMode,
    /// The selected day (0 = Sunday).
    pub day: int,
    /// The selected quest of the day.
    pub quest: int,
    /// The selected reward.
    pub reward: int,
    /// The title typed in.
    pub buffer: Seq<char>,
    /// The EXP value typed in.
    pub exp: i32,
    /// The day typed in.
    pub input_day: i32,
    /// The weekly goal typed in.
    pub goal: Seq<char>,
    /// The stored weekly goal.
    pub weekly_goal: i32,
    /// The message shown to the user.
    pub message: Option<Seq<char>>,
}

/// `char::is_numeric`: `c` has one of Unicode's general categories for
/// numbers.
pub uninterp spec fn unicode_numeric(c: char) -> bool;

/// Calls `char::is_numeric`. Claims: the answer is the named property, which
/// the ASCII digits have (they are decimal numbers).
#[verifier::external_body]
fn char_is_numeric(c: char) -> (b: bool)
    ensures
        b == unicode_numeric(c),
        ('0' <= c <= '9') ==> b,
{
    c.is_numeric()
}

/// `c` is an ASCII digit.
pub open spec fn is_ascii_digit(c: char) -> bool {
    '0' <= c <= '9'
}

/// The value of an ASCII digit.
pub open spec fn digit_of(c: char) -> int {
    (c as u32) - ('0' as u32)
}

/// `x / 10` rounded toward zero, as Rust divides an `i32`.
pub open spec fn div10_toward_zero(x: int) -> int {
    if x >= 0 {
        x / 10
    } else {
        -((-x) / 10)
    }
}

/// `s` without its last character (unchanged where it is empty).
pub open spec fn drop_last_char(s: Seq<char>) -> Seq<char> {
    if s.len() > 0 {
        s.drop_last()
    } else {
        s
    }
}

/// The weekly goal that a typed goal stores: the text read as an `i32`,
/// else the current goal.
pub open spec fn typed_goal(m: TuiModel) -> i32 {
    match parse_int(m.goal, i32::MIN as int, i32::MAX as int) {
        Some(g) => g as i32,
        None => m.weekly_goal,
    }
}

/// Saving the settings: the typed goal is stored and the form closes.
pub open spec fn save_settings_step(m: TuiModel) -> (TuiModel, ActionSpec) {
    (
        TuiModel {
            weekly_goal: typed_goal(m),
            message: Some("✅ Settings saved!"@),
            view: View::List,
            mode: InputMode::NoInput,
            ..m
        },
        ActionSpec::SaveSettings(typed_goal(m)),
    )
}

/// Toggling the selected quest of the selected day, where there is one.
pub open spec fn toggle_step(m: TuiModel, day_ids: Seq<i64>) -> (TuiModel, ActionSpec) {
    if day_ids.len() > 0 && m.quest < day_ids.len() {
        (
            TuiModel { message: Some("🎯 Toggled quest"@), ..m },
            ActionSpec::ToggleQuest(day_ids[m.quest]),
        )
    } else {
        (m, ActionSpec::Nothing)
    }
}

/// A key press in the list view. `day_ids` are the identifiers of the
/// selected day's quests; `reward_count` is the number of rewards.
pub open spec fn list_step(m: TuiModel, day_ids: Seq<i64>, reward_count: int, key: Key) -> (
    TuiModel,
    ActionSpec,
) {
    let day_len = day_ids.len();
    match key {
        Key::Char('q') => (m, ActionSpec::Quit),
        Key::Char('h') => (TuiModel { view: View::Help, ..m }, ActionSpec::Nothing),
        Key::Char('t') => (TuiModel { tab: Tab::Quests, ..m }, ActionSpec::Nothing),
        Key::Char('r') => (TuiModel { tab: Tab::Rewards, ..m }, ActionSpec::Nothing),
        Key::Char('s') => (TuiModel { tab: Tab::Settings, ..m }, ActionSpec::Nothing),
        Key::Char('n') => (
            TuiModel {
                view: View::Create,
                mode: InputMode::Title,
                buffer: Seq::empty(),
                exp: match m.tab {
                    Tab::Quests => 10,
                    Tab::Rewards => 50,
                    Tab::Settings => m.weekly_goal,
                },
                input_day: m.day as i32,
                ..m
            },
            ActionSpec::Nothing,
        ),
        Key::Char('d') => {
            let has_items = match m.tab {
                Tab::Quests => day_len > 0,
                Tab::Rewards => reward_count > 0,
                Tab::Settings => false,
            };
            if has_items {
                (
                    TuiModel { view: View::Delete, mode: InputMode::ConfirmDelete, ..m },
                    ActionSpec::Nothing,
                )
            } else {
                (m, ActionSpec::Nothing)
            }
        },
        Key::Tab => (
            TuiModel {
                tab: match m.tab {
                    Tab::Quests => Tab::Rewards,
                    Tab::Rewards => Tab::Settings,
                    Tab::Settings => Tab::Quests,
                },
                ..m
            },
            ActionSpec::Nothing,
        ),
        Key::Left => if m.tab == Tab::Quests {
            (
                TuiModel {
                    day: if m.day > 0 {
                        m.day - 1
                    } else {
                        6
                    },
                    quest: 0,
                    ..m
                },
                ActionSpec::Nothing,
            )
        } else {
            (m, ActionSpec::Nothing)
        },
        Key::Right => if m.tab == Tab::Quests {
            (
                TuiModel {
                    day: if m.day < 6 {
                        m.day + 1
                    } else {
                        0
                    },
                    quest: 0,
                    ..m
                },
                ActionSpec::Nothing,
            )
        } else {
            (m, ActionSpec::Nothing)
        },
        Key::Up => match m.tab {
            Tab::Quests => if m.quest > 0 {
                (TuiModel { quest: m.quest - 1, ..m }, ActionSpec::Nothing)
            } else {
                (m, ActionSpec::Nothing)
            },
            Tab::Rewards => if m.reward > 0 {
                (TuiModel { reward: m.reward - 1, ..m }, ActionSpec::Nothing)
            } else {
                (m, ActionSpec::Nothing)
            },
            Tab::Settings => (m, ActionSpec::Nothing),
        },
        Key::Down => match m.tab {
            Tab::Quests => if day_len > 0 && m.quest + 1 < day_len {
                (TuiModel { quest: m.quest + 1, ..m }, ActionSpec::Nothing)
            } else {
                (m, ActionSpec::Nothing)
            },
            Tab::Rewards => if m.reward + 1 < reward_count {
                (TuiModel { reward: m.reward + 1, ..m }, ActionSpec::Nothing)
            } else {
                (m, ActionSpec::Nothing)
            },
            Tab::Settings => (m, ActionSpec::Nothing),
        },
        Key::Enter => match m.tab {
            Tab::Quests => toggle_step(m, day_ids),
            Tab::Rewards => (m, ActionSpec::Nothing),
            Tab::Settings => save_settings_step(m),
        },
        _ => (m, ActionSpec::Nothing),
    }
}

/// Submitting the quest form: an empty title (once trimmed) is refused with
/// a message; otherwise the quest is created with the title as typed and the
/// form closes.
pub open spec fn create_quest_step(m: TuiModel) -> (TuiModel, ActionSpec) {
    if trim(m.buffer).len() == 0 {
        (TuiModel { message: Some("❌ Title cannot be empty"@), ..m }, ActionSpec::Nothing)
    } else {
        (
            TuiModel {
                message: Some("✅ Quest created!"@),
                buffer: Seq::empty(),
                exp: 10,
                view: View::List,
                mode: InputMode::NoInput,
                ..m
            },
            ActionSpec::CreateQuest(m.buffer, m.exp, m.input_day),
        )
    }
}

/// Submitting the reward form, as the quest form.
pub open spec fn create_reward_step(m: TuiModel) -> (TuiModel, ActionSpec) {
    if trim(m.buffer).len() == 0 {
        (TuiModel { message: Some("❌ Title cannot be empty"@), ..m }, ActionSpec::Nothing)
    } else {
        (
            TuiModel {
                message: Some("✅ Reward created!"@),
                buffer: Seq::empty(),
                exp: 50,
                view: View::List,
                mode: InputMode::NoInput,
                ..m
            },
            ActionSpec::CreateReward(m.buffer, m.exp),
        )
    }
}

/// A key press in a form. A digit typed into the EXP value is appended to
/// it; a digit up to 6 typed into the day replaces it.
pub open spec fn create_step(m: TuiModel, key: Key) -> (TuiModel, ActionSpec) {
    match key {
        Key::Esc => (
            TuiModel { view: View::List, mode: InputMode::NoInput, buffer: Seq::empty(), ..m },
            ActionSpec::Nothing,
        ),
        Key::Tab => (
            TuiModel {
                mode: match m.tab {
                    Tab::Quests => match m.mode {
                        InputMode::Title => InputMode::Exp,
                        InputMode::Exp => InputMode::Day,
                        InputMode::Day => InputMode::Title,
                        _ => InputMode::Title,
                    },
                    Tab::Rewards => match m.mode {
                        InputMode::Title => InputMode::Exp,
                        InputMode::Exp => InputMode::Title,
                        _ => InputMode::Title,
                    },
                    Tab::Settings => InputMode::Goal,
                },
                ..m
            },
            ActionSpec::Nothing,
        ),
        Key::Char(c) => match m.mode {
            InputMode::Title => (TuiModel { buffer: m.buffer.push(c), ..m }, ActionSpec::Nothing),
            InputMode::Exp => if unicode_numeric(c) {
                (TuiModel { exp: (m.exp * 10 + digit_of(c)) as i32, ..m }, ActionSpec::Nothing)
            } else {
                (m, ActionSpec::Nothing)
            },
            InputMode::Day => if unicode_numeric(c) && digit_of(c) <= 6 {
                (TuiModel { input_day: digit_of(c) as i32, ..m }, ActionSpec::Nothing)
            } else {
                (m, ActionSpec::Nothing)
            },
            InputMode::Goal => if unicode_numeric(c) {
                (TuiModel { goal: m.goal.push(c), ..m }, ActionSpec::Nothing)
            } else {
                (m, ActionSpec::Nothing)
            },
            _ => (m, ActionSpec::Nothing),
        },
        Key::Backspace => match m.mode {
            InputMode::Title => (
                TuiModel { buffer: drop_last_char(m.buffer), ..m },
                ActionSpec::Nothing,
            ),
            InputMode::Exp => (
                TuiModel { exp: div10_toward_zero(m.exp as int) as i32, ..m },
                ActionSpec::Nothing,
            ),
            InputMode::Goal => (TuiModel { goal: drop_last_char(m.goal), ..m }, ActionSpec::Nothing),
            _ => (m, ActionSpec::Nothing),
        },
        Key::Enter => match m.tab {
            Tab::Quests => create_quest_step(m),
            Tab::Rewards => create_reward_step(m),
            Tab::Settings => save_settings_step(m),
        },
        _ => (m, ActionSpec::Nothing),
    }
}

/// A key press in the deletion confirmation.
pub open spec fn delete_step(m: TuiModel, day_ids: Seq<i64>, reward_count: int, key: Key) -> (
    TuiModel,
    ActionSpec,
) {
    let closed = TuiModel { view: View::List, mode: InputMode::NoInput, ..m };
    match key {
        Key::Esc | Key::Char('n') => (closed, ActionSpec::Nothing),
        Key::Enter | Key::Char('y') => match m.tab {
            Tab::Quests => if day_ids.len() > 0 && m.quest < day_ids.len() {
                (
                    TuiModel {
                        message: Some("🗑️ Quest deleted"@),
                        quest: if m.quest > 0 {
                            m.quest - 1
                        } else {
                            0
                        },
                        ..closed
                    },
                    ActionSpec::DeleteQuest(day_ids[m.quest]),
                )
            } else {
                (closed, ActionSpec::Nothing)
            },
            Tab::Rewards => if m.reward < reward_count {
                (
                    TuiModel { message: Some("⚠️ Reward deletion not implemented"@), ..closed },
                    ActionSpec::Nothing,
                )
            } else {
                (closed, ActionSpec::Nothing)
            },
            Tab::Settings => (m, ActionSpec::Nothing),
        },
        _ => (m, ActionSpec::Nothing),
    }
}

/// A key press in the help: escape closes it.
pub open spec fn help_step(m: TuiModel, key: Key) -> (TuiModel, ActionSpec) {
    if key == Key::Esc {
        (TuiModel { view: View::List, ..m }, ActionSpec::Nothing)
    } else {
        (m, ActionSpec::Nothing)
    }
}

/// A key press in any view.
pub open spec fn key_step(m: TuiModel, day_ids: Seq<i64>, reward_count: int, key: Key) -> (
    TuiModel,
    ActionSpec,
) {
    match m.view {
        View::Help => help_step(m, key),
        View::Create => create_step(m, key),
        View::Delete => delete_step(m, day_ids, reward_count, key),
        View::List => list_step(m, day_ids, reward_count, key),
    }
}

/// A key press that the interface accepts: a numeric character typed into
/// the EXP value must be an ASCII digit that keeps the value, and the value
/// times ten, within `i32`; and
/// one typed into the day must be an ASCII digit.
pub open spec fn key_accepted(m: TuiModel, key: Key) -> bool {
    m.view == View::Create ==> match key {
        Key::Char(c) => match m.mode {
            InputMode::Exp => unicode_numeric(c) ==> is_ascii_digit(c) && i32::MIN <= m.exp * 10
                <= i32::MAX && i32::MIN <= m.exp * 10 + digit_of(c) <= i32::MAX,
            InputMode::Day => unicode_numeric(c) ==> is_ascii_digit(c),
            _ => true,
        },
        _ => true,
    }
}

/// The EXP values of the quests of the days, day after day.
pub open spec fn week_exps(days: Seq<Vec<QuestWithCompletion>>) -> Seq<i32>
    decreases days.len(),
{
    if days.len() == 0 {
        Seq::empty()
    } else {
        week_exps(days.drop_last()) + days.last()@.map_values(
            |q: QuestWithCompletion| q.quest.exp_value,
        )
    }
}

/// Whether each quest of the days was completed, in the order of `week_exps`.
pub open spec fn week_flags(days: Seq<Vec<QuestWithCompletion>>) -> Seq<bool>
    decreases days.len(),
{
    if days.len() == 0 {
        Seq::empty()
    } else {
        week_flags(days.drop_last()) + days.last()@.map_values(
            |q: QuestWithCompletion| q.completed,
        )
    }
}

/// The number of quests of the days.
pub open spec fn quest_total(days: Seq<Vec<QuestWithCompletion>>) -> int
    decreases days.len(),
{
    if days.len() == 0 {
        0
    } else {
        quest_total(days.drop_last()) + days.last().len()
    }
}

/// The terminal interface's state.
pub struct TuiState {
    /// The quests of each day of the week, Sunday first.
    pub quests: Vec<Vec<QuestWithCompletion>>,
    /// The available rewards.
    pub rewards: Vec<RewardWithClaimed>,
    /// The selected tab.
    pub selected_tab: Tab,
    /// The selected day (0 = Sunday).
    pub selected_day: usize,
    /// The selected quest of the day.
    pub selected_quest: usize,
    /// The selected reward.
    pub selected_reward: usize,
    /// The stored weekly goal.
    pub weekly_goal: i32,
    /// The message shown to the user.
    pub message: Option<String>,
    /// What is shown over the tab.
    pub current_view: View,
    /// The input with the focus.
    pub input_mode: InputMode,
    /// The title typed in.
    pub input_buffer: String,
    /// The EXP value typed in.
    pub input_exp: i32,
    /// The day typed in.
    pub input_day: i32,
    /// The weekly goal typed in.
    pub input_goal: String,
}

impl TuiState {
    /// Seven days of quests and a selected day among them.
    pub open spec fn wf(&self) -> bool {
        self.quests@.len() == 7 && self.selected_day < 7
    }

    /// The state that key presses change.
    pub open spec fn model(&self) -> TuiModel {
        TuiModel {
            tab: self.selected_tab,
            view: self.current_view,
            mode: self.input_mode,
            day: self.selected_day as int,
            quest: self.selected_quest as int,
            reward: self.selected_reward as int,
            buffer: self.input_buffer@,
            exp: self.input_exp,
            input_day: self.input_day,
            goal: self.input_goal@,
            weekly_goal: self.weekly_goal,
            message: crate::editor::opt_text(self.message),
        }
    }

    /// The identifiers of the selected day's quests.
    pub open spec fn day_ids(&self) -> Seq<i64> {
        self.quests@[self.selected_day as int]@.map_values(|q: QuestWithCompletion| q.quest.id)
    }

    /// The interface as it opens: the quests tab on today's weekday
    /// (`today`, 0 = Sunday), with the stored weekly goal in the goal input.
    pub fn new(
        quests: Vec<Vec<QuestWithCompletion>>,
        rewards: Vec<RewardWithClaimed>,
        weekly_goal: i32,
        today: usize,
    ) -> (s: Self)
        requires
            quests@.len() == 7,
            today < 7,
        ensures
            s.wf(),
            s.quests == quests,
            s.rewards == rewards,
            s.model() == (TuiModel {
                tab: Tab::Quests,
                view: View::List,
                mode: InputMode::NoInput,
                day: today as int,
                quest: 0,
                reward: 0,
                buffer: Seq::empty(),
                exp: 10,
                input_day: today as i32,
                goal: crate::text::int_text(weekly_goal as int),
                weekly_goal,
                message: None,
            }),
    {
        let s = TuiState {
            quests,
            rewards,
            selected_tab: Tab::Quests,
            selected_day: today,
            selected_quest: 0,
            selected_reward: 0,
            weekly_goal,
            message: None,
            current_view: View::List,
            input_mode: InputMode::NoInput,
            input_buffer: String::new(),
            input_exp: 10,
            input_day: today as i32,
            input_goal: crate::text::int_to_string(weekly_goal as i64),
        };
        assert(s.model() =~= (TuiModel {
            tab: Tab::Quests,
            view: View::List,
            mode: InputMode::NoInput,
            day: today as int,
            quest: 0,
            reward: 0,
            buffer: Seq::empty(),
            exp: 10,
            input_day: today as i32,
            goal: crate::text::int_text(weekly_goal as int),
            weekly_goal,
            message: None,
        }));
        s
    }

    /// Replaces the quests, rewards and weekly goal with those reloaded from
    /// the database; the selection stays as it is.
    pub fn reload(
        &mut self,
        quests: Vec<Vec<QuestWithCompletion>>,
        rewards: Vec<RewardWithClaimed>,
        weekly_goal: i32,
    )
        requires
            old(self).wf(),
            quests@.len() == 7,
        ensures
            final(self).wf(),
            final(self).quests == quests,
            final(self).rewards == rewards,
            final(self).model() == (TuiModel { weekly_goal, ..old(self).model() }),
    {
        self.quests = quests;
        self.rewards = rewards;
        self.weekly_goal = weekly_goal;
    }

    /// Clears the message once a key press has been handled.
    pub fn clear_message(&mut self)
        ensures
            final(self).quests == old(self).quests,
            final(self).rewards == old(self).rewards,
            final(self).model() == (TuiModel { message: None, ..old(self).model() }),
    {
        self.message = None;
    }

    /// Total quest count across all days.
    pub fn total_quest_count(&self) -> (n: usize)
        requires
            quest_total(self.quests@) <= usize::MAX,
        ensures
            n == quest_total(self.quests@),
    {
        let mut n: usize = 0;
        let mut i: usize = 0;
        while i < self.quests.len()
            invariant
                i <= self.quests@.len(),
                quest_total(self.quests@) <= usize::MAX,
                n == quest_total(self.quests@.take(i as int)),
            decreases self.quests.len() - i,
        {
            assert(self.quests@.take(i + 1).drop_last() =~= self.quests@.take(i as int));
            proof {
                lemma_quest_total_prefix(self.quests@, i + 1);
            }
            n = n + self.quests[i].len();
            i += 1;
        }
        assert(self.quests@.take(self.quests.len() as int) =~= self.quests@);
        n
    }

    /// Quest count of day `day`, or 0 for a day that does not exist.
    pub fn quest_count_for_day(&self, day: usize) -> (n: usize)
        ensures
            n == (if day < self.quests@.len() {
                self.quests@[day as int].len()
            } else {
                0
            }),
    {
        if day < self.quests.len() {
            self.quests[day].len()
        } else {
            0
        }
    }

    /// Whether the list is shown.
    pub fn is_view_list(&self) -> (b: bool)
        ensures
            b == (self.current_view == View::List),
    {
        self.current_view == View::List
    }

    /// Whether a form is shown.
    pub fn is_view_create(&self) -> (b: bool)
        ensures
            b == (self.current_view == View::Create),
    {
        self.current_view == View::Create
    }

    /// Whether the help is shown.
    pub fn is_view_help(&self) -> (b: bool)
        ensures
            b == (self.current_view == View::Help),
    {
        self.current_view == View::Help
    }

    /// The selected tab.
    pub fn current_tab(&self) -> (t: Tab)
        ensures
            t == self.selected_tab,
    {
        self.selected_tab
    }

    /// The selected day.
    pub fn current_day(&self) -> (d: usize)
        ensures
            d == self.selected_day,
    {
        self.selected_day
    }

    /// The selected quest of the day.
    pub fn current_quest_index(&self) -> (q: usize)
        ensures
            q == self.selected_quest,
    {
        self.selected_quest
    }

    /// The number of rewards.
    pub fn reward_count(&self) -> (n: usize)
        ensures
            n == self.rewards@.len(),
    {
        self.rewards.len()
    }

    /// EXP of the completed quests of the week, and EXP of all its quests.
    pub fn get_weekly_exp(&self) -> (r: (i32, i32))
        requires
            prefix_sums_fit(week_exps(self.quests@)),
            flagged_sums_fit(week_exps(self.quests@), week_flags(self.quests@)),
        ensures
            r.0 == sum_flagged(week_exps(self.quests@), week_flags(self.quests@)),
            r.1 == sum_of(week_exps(self.quests@)),
    {
        let mut completed: i32 = 0;
        let mut total: i32 = 0;
        let ghost all_exps = week_exps(self.quests@);
        let ghost all_flags = week_flags(self.quests@);
        proof {
            lemma_week_lens(self.quests@);
        }
        let mut i: usize = 0;
        while i < self.quests.len()
            invariant
                i <= self.quests@.len(),
                all_exps == week_exps(self.quests@),
                all_flags == week_flags(self.quests@),
                all_exps.len() == all_flags.len(),
                prefix_sums_fit(all_exps),
                flagged_sums_fit(all_exps, all_flags),
                total == sum_of(week_exps(self.quests@.take(i as int))),
                completed == sum_flagged(
                    week_exps(self.quests@.take(i as int)),
                    week_flags(self.quests@.take(i as int)),
                ),
            decreases self.quests.len() - i,
        {
            let day = &self.quests[i];
            let ghost before_exps = week_exps(self.quests@.take(i as int));
            let ghost before_flags = week_flags(self.quests@.take(i as int));
            let ghost day_exps = day@.map_values(|q: QuestWithCompletion| q.quest.exp_value);
            let ghost day_flags = day@.map_values(|q: QuestWithCompletion| q.completed);
            proof {
                assert(self.quests@.take(i + 1).drop_last() =~= self.quests@.take(i as int));
                lemma_week_prefix(self.quests@, i + 1);
                lemma_week_lens(self.quests@.take(i as int));
            }
            let mut j: usize = 0;
            while j < day.len()
                invariant
                    i < self.quests@.len(),
                    day == self.quests@[i as int],
                    j <= day@.len(),
                    day_exps == day@.map_values(|q: QuestWithCompletion| q.quest.exp_value),
                    day_flags == day@.map_values(|q: QuestWithCompletion| q.completed),
                    before_exps.len() == before_flags.len(),
                    all_exps.len() == all_flags.len(),
                    (before_exps + day_exps).len() <= all_exps.len(),
                    all_exps.take((before_exps + day_exps).len() as int) == before_exps + day_exps,
                    all_flags.take((before_flags + day_flags).len() as int) == before_flags
                        + day_flags,
                    prefix_sums_fit(all_exps),
                    flagged_sums_fit(all_exps, all_flags),
                    total == sum_of(before_exps + day_exps.take(j as int)),
                    completed == sum_flagged(
                        before_exps + day_exps.take(j as int),
                        before_flags + day_flags.take(j as int),
                    ),
                decreases day.len() - j,
            {
                let q = &day[j];
                let ghost k = before_exps.len() + j + 1;
                proof {
                    assert((before_exps + day_exps.take(j + 1)) =~= all_exps.take(k));
                    assert((before_flags + day_flags.take(j + 1)) =~= all_flags.take(k));
                    assert((before_exps + day_exps.take(j + 1)).drop_last() =~= before_exps
                        + day_exps.take(j as int));
                    assert((before_flags + day_flags.take(j + 1)).drop_last() =~= before_flags
                        + day_flags.take(j as int));
                    assert((before_flags + day_flags.take(j + 1)).take(k - 1) =~= before_flags
                        + day_flags.take(j as int));
                    assert(crate::stats::fits_i32(sum_of(all_exps.take(k))));
                    assert(crate::stats::fits_i32(sum_flagged(all_exps.take(k), all_flags.take(k))));
                    assert(sum_of(before_exps + day_exps.take(j + 1)) == total + q.quest.exp_value);
                }
                total = total + q.quest.exp_value;
                if q.completed {
                    completed = completed + q.quest.exp_value;
                }
                j += 1;
            }
            assert(day_exps.take(day@.len() as int) =~= day_exps);
            assert(day_flags.take(day@.len() as int) =~= day_flags);
            i += 1;
        }
        assert(self.quests@.take(self.quests@.len() as int) =~= self.quests@);
        (completed, total)
    }
}

fn string_without_last(s: &String) -> (r: String)
    ensures
        r@ == drop_last_char(s@),
{
    let cs = chars_of(s.as_str());
    let mut out: Vec<char> = Vec::new();
    if cs.len() == 0 {
        return string_of_chars(&out);
    }
    let n = cs.len() - 1;
    let mut i: usize = 0;
    while i < n
        invariant
            n + 1 == cs@.len(),
            i <= n,
            out@ == cs@.take(i as int),
        decreases n - i,
    {
        out.push(cs[i]);
        assert(cs@.take(i + 1) =~= cs@.take(i as int).push(cs@[i as int]));
        i += 1;
    }
    assert(out@ =~= cs@.drop_last());
    string_of_chars(&out)
}

impl TuiState {
    fn typed_goal_value(&self) -> (g: i32)
        ensures
            g == typed_goal(self.model()),
    {
        let cs = chars_of(self.input_goal.as_str());
        match parse_integer(&cs, i32::MIN as i128, i32::MAX as i128) {
            Some(v) => v as i32,
            None => self.weekly_goal,
        }
    }

    fn save_settings(&mut self) -> (a: TuiAction)
        requires
            old(self).wf(),
        ensures
            final(self).wf(),
            final(self).quests == old(self).quests,
            final(self).rewards == old(self).rewards,
            final(self).model() =~= save_settings_step(old(self).model()).0,
            action_spec(a) == save_settings_step(old(self).model()).1,
    {
        let goal = self.typed_goal_value();
        self.weekly_goal = goal;
        self.message = Some(String::from_str("✅ Settings saved!"));
        self.current_view = View::List;
        self.input_mode = InputMode::NoInput;
        TuiAction::SaveSettings(goal)
    }

    fn selected_quest_id(&self) -> (id: Option<i64>)
        requires
            self.wf(),
        ensures
            match id {
                Some(v) => self.day_ids().len() > 0 && self.selected_quest < self.day_ids().len()
                    && v == self.day_ids()[self.selected_quest as int],
                None => !(self.day_ids().len() > 0 && self.selected_quest < self.day_ids().len()),
            },
    {
        let day = &self.quests[self.selected_day];
        if day.len() > 0 && self.selected_quest < day.len() {
            Some(day[self.selected_quest].quest.id)
        } else {
            None
        }
    }

    /// A key press in the list view.
    pub fn handle_list_input(&mut self, key: Key) -> (a: TuiAction)
        requires
            old(self).wf(),
        ensures
            final(self).wf(),
            final(self).quests == old(self).quests,
            final(self).rewards == old(self).rewards,
            final(self).model() =~= list_step(
                old(self).model(),
                old(self).day_ids(),
                old(self).rewards@.len() as int,
                key,
            ).0,
            action_spec(a) == list_step(
                old(self).model(),
                old(self).day_ids(),
                old(self).rewards@.len() as int,
                key,
            ).1,
    {
        let day_len = self.quests[self.selected_day].len();
        match key {
            Key::Char('q') => TuiAction::Quit,
            Key::Char('h') => {
                self.current_view = View::Help;
                TuiAction::Nothing
            },
            Key::Char('t') => {
                self.selected_tab = Tab::Quests;
                TuiAction::Nothing
            },
            Key::Char('r') => {
                self.selected_tab = Tab::Rewards;
                TuiAction::Nothing
            },
            Key::Char('s') => {
                self.selected_tab = Tab::Settings;
                TuiAction::Nothing
            },
            Key::Char('n') => {
                self.current_view = View::Create;
                self.input_mode = InputMode::Title;
                self.input_buffer = String::new();
                self.input_exp = match self.selected_tab {
                    Tab::Quests => 10,
                    Tab::Rewards => 50,
                    Tab::Settings => self.weekly_goal,
                };
                self.input_day = self.selected_day as i32;
                TuiAction::Nothing
            },
            Key::Char('d') => {
                let has_items = match self.selected_tab {
                    Tab::Quests => day_len > 0,
                    Tab::Rewards => self.rewards.len() > 0,
                    Tab::Settings => false,
                };
                if has_items {
                    self.current_view = View::Delete;
                    self.input_mode = InputMode::ConfirmDelete;
                }
                TuiAction::Nothing
            },
            Key::Tab => {
                self.selected_tab = match self.selected_tab {
                    Tab::Quests => Tab::Rewards,
                    Tab::Rewards => Tab::Settings,
                    Tab::Settings => Tab::Quests,
                };
                TuiAction::Nothing
            },
            Key::Left => {
                if self.selected_tab == Tab::Quests {
                    if self.selected_day > 0 {
                        self.selected_day = self.selected_day - 1;
                    } else {
                        self.selected_day = 6;
                    }
                    self.selected_quest = 0;
                }
                TuiAction::Nothing
            },
            Key::Right => {
                if self.selected_tab == Tab::Quests {
                    if self.selected_day < 6 {
                        self.selected_day = self.selected_day + 1;
                    } else {
                        self.selected_day = 0;
                    }
                    self.selected_quest = 0;
                }
                TuiAction::Nothing
            },
            Key::Up => {
                match self.selected_tab {
                    Tab::Quests => {
                        if self.selected_quest > 0 {
                            self.selected_quest = self.selected_quest - 1;
                        }
                    },
                    Tab::Rewards => {
                        if self.selected_reward > 0 {
                            self.selected_reward = self.selected_reward - 1;
                        }
                    },
                    Tab::Settings => {},
                }
                TuiAction::Nothing
            },
            Key::Down => {
                match self.selected_tab {
                    Tab::Quests => {
                        if day_len > 0 && self.selected_quest < day_len - 1 {
                            self.selected_quest = self.selected_quest + 1;
                        }
                    },
                    Tab::Rewards => {
                        let n = self.rewards.len();
                        if n > 0 && self.selected_reward < n - 1 {
                            self.selected_reward = self.selected_reward + 1;
                        }
                    },
                    Tab::Settings => {},
                }
                TuiAction::Nothing
            },
            Key::Enter => match self.selected_tab {
                Tab::Quests => match self.selected_quest_id() {
                    Some(id) => {
                        self.message = Some(String::from_str("🎯 Toggled quest"));
                        TuiAction::ToggleQuest(id)
                    },
                    None => TuiAction::Nothing,
                },
                Tab::Rewards => TuiAction::Nothing,
                Tab::Settings => self.save_settings(),
            },
            _ => TuiAction::Nothing,
        }
    }

    fn create_quest(&mut self) -> (a: TuiAction)
        requires
            old(self).wf(),
        ensures
            final(self).wf(),
            final(self).quests == old(self).quests,
            final(self).rewards == old(self).rewards,
            final(self).model() =~= create_quest_step(old(self).model()).0,
            action_spec(a) == create_quest_step(old(self).model()).1,
            trim(old(self).input_buffer@).len() > 0 ==> (a matches TuiAction::CreateQuest(req)
                && req.title@ == old(self).input_buffer@ && req.exp_value == Some(old(self).input_exp)
                && req.day_of_week == old(self).input_day && req.description is None),
            trim(old(self).input_buffer@).len() == 0 ==> a is Nothing,
    {
        let cs = chars_of(self.input_buffer.as_str());
        let t = trim_chars(&cs);
        if t.len() == 0 {
            self.message = Some(String::from_str("❌ Title cannot be empty"));
            return TuiAction::Nothing;
        }
        let req = CreateQuestRequest {
            title: self.input_buffer.clone(),
            description: None,
            exp_value: Some(self.input_exp),
            day_of_week: self.input_day,
        };
        self.message = Some(String::from_str("✅ Quest created!"));
        self.input_buffer = String::new();
        self.input_exp = 10;
        self.current_view = View::List;
        self.input_mode = InputMode::NoInput;
        TuiAction::CreateQuest(req)
    }

    fn create_reward(&mut self) -> (a: TuiAction)
        requires
            old(self).wf(),
        ensures
            final(self).wf(),
            final(self).quests == old(self).quests,
            final(self).rewards == old(self).rewards,
            final(self).model() =~= create_reward_step(old(self).model()).0,
            action_spec(a) == create_reward_step(old(self).model()).1,
            trim(old(self).input_buffer@).len() > 0 ==> (a matches TuiAction::CreateReward(req)
                && req.title@ == old(self).input_buffer@ && req.required_exp == old(self).input_exp
                && req.description is None),
            trim(old(self).input_buffer@).len() == 0 ==> a is Nothing,
    {
        let cs = chars_of(self.input_buffer.as_str());
        let t = trim_chars(&cs);
        if t.len() == 0 {
            self.message = Some(String::from_str("❌ Title cannot be empty"));
            return TuiAction::Nothing;
        }
        let req = CreateRewardRequest {
            title: self.input_buffer.clone(),
            description: None,
            required_exp: self.input_exp,
        };
        self.message = Some(String::from_str("✅ Reward created!"));
        self.input_buffer = String::new();
        self.input_exp = 50;
        self.current_view = View::List;
        self.input_mode = InputMode::NoInput;
        TuiAction::CreateReward(req)
    }

    /// A key press in a form.
    pub fn handle_create_input(&mut self, key: Key) -> (a: TuiAction)
        requires
            old(self).wf(),
            old(self).current_view == View::Create,
            key_accepted(old(self).model(), key),
        ensures
            final(self).wf(),
            final(self).quests == old(self).quests,
            final(self).rewards == old(self).rewards,
            final(self).model() =~= create_step(old(self).model(), key).0,
            action_spec(a) == create_step(old(self).model(), key).1,
    {
        match key {
            Key::Esc => {
                self.current_view = View::List;
                self.input_mode = InputMode::NoInput;
                self.input_buffer = String::new();
                TuiAction::Nothing
            },
            Key::Tab => {
                self.input_mode = match self.selected_tab {
                    Tab::Quests => match self.input_mode {
                        InputMode::Title => InputMode::Exp,
                        InputMode::Exp => InputMode::Day,
                        InputMode::Day => InputMode::Title,
                        _ => InputMode::Title,
                    },
                    Tab::Rewards => match self.input_mode {
                        InputMode::Title => InputMode::Exp,
                        InputMode::Exp => InputMode::Title,
                        _ => InputMode::Title,
                    },
                    Tab::Settings => InputMode::Goal,
                };
                TuiAction::Nothing
            },
            Key::Char(c) => {
                match self.input_mode {
                    InputMode::Title => {
                        push_char(&mut self.input_buffer, c);
                    },
                    InputMode::Exp => {
                        if char_is_numeric(c) {
                            let d = (c as u32 - '0' as u32) as i32;
                            self.input_exp = self.input_exp * 10 + d;
                        }
                    },
                    InputMode::Day => {
                        if char_is_numeric(c) {
                            let d = (c as u32 - '0' as u32) as i32;
                            if d <= 6 {
                                self.input_day = d;
                            }
                        }
                    },
                    InputMode::Goal => {
                        if char_is_numeric(c) {
                            push_char(&mut self.input_goal, c);
                        }
                    },
                    _ => {},
                }
                TuiAction::Nothing
            },
            Key::Backspace => {
                match self.input_mode {
                    InputMode::Title => {
                        self.input_buffer = string_without_last(&self.input_buffer);
                    },
                    InputMode::Exp => {
                        let x = self.input_exp as i64;
                        let q: i64 = if x >= 0 {
                            x / 10
                        } else {
                            0 - ((0 - x) / 10)
                        };
                        self.input_exp = q as i32;
                    },
                    InputMode::Goal => {
                        self.input_goal = string_without_last(&self.input_goal);
                    },
                    _ => {},
                }
                TuiAction::Nothing
            },
            Key::Enter => match self.selected_tab {
                Tab::Quests => self.create_quest(),
                Tab::Rewards => self.create_reward(),
                Tab::Settings => self.save_settings(),
            },
            _ => TuiAction::Nothing,
        }
    }

    /// A key press in the deletion confirmation.
    pub fn handle_delete_input(&mut self, key: Key) -> (a: TuiAction)
        requires
            old(self).wf(),
            old(self).current_view == View::Delete,
        ensures
            final(self).wf(),
            final(self).quests == old(self).quests,
            final(self).rewards == old(self).rewards,
            final(self).model() =~= delete_step(
                old(self).model(),
                old(self).day_ids(),
                old(self).rewards@.len() as int,
                key,
            ).0,
            action_spec(a) == delete_step(
                old(self).model(),
                old(self).day_ids(),
                old(self).rewards@.len() as int,
                key,
            ).1,
    {
        match key {
            Key::Esc | Key::Char('n') => {
                self.current_view = View::List;
                self.input_mode = InputMode::NoInput;
                TuiAction::Nothing
            },
            Key::Enter | Key::Char('y') => match self.selected_tab {
                Tab::Quests => {
                    let chosen = self.selected_quest_id();
                    let a = match chosen {
                        Some(id) => {
                            self.message = Some(String::from_str("🗑️ Quest deleted"));
                            if self.selected_quest > 0 {
                                self.selected_quest = self.selected_quest - 1;
                            }
                            TuiAction::DeleteQuest(id)
                        },
                        None => TuiAction::Nothing,
                    };
                    self.current_view = View::List;
                    self.input_mode = InputMode::NoInput;
                    a
                },
                Tab::Rewards => {
                    if self.selected_reward < self.rewards.len() {
                        self.message = Some(
                            String::from_str("⚠️ Reward deletion not implemented"),
                        );
                    }
                    self.current_view = View::List;
                    self.input_mode = InputMode::NoInput;
                    TuiAction::Nothing
                },
                Tab::Settings => TuiAction::Nothing,
            },
            _ => TuiAction::Nothing,
        }
    }

    /// Handles a key press: the view decides what the key does. The
    /// returned action is the database work to carry out next.
    pub fn handle_key(&mut self, key: Key) -> (a: TuiAction)
        requires
            old(self).wf(),
            key_accepted(old(self).model(), key),
        ensures
            final(self).wf(),
            final(self).quests == old(self).quests,
            final(self).rewards == old(self).rewards,
            final(self).model() =~= key_step(
                old(self).model(),
                old(self).day_ids(),
                old(self).rewards@.len() as int,
                key,
            ).0,
            action_spec(a) == key_step(
                old(self).model(),
                old(self).day_ids(),
                old(self).rewards@.len() as int,
                key,
            ).1,
    {
        match self.current_view {
            View::Help => {
                if key == Key::Esc {
                    self.current_view = View::List;
                }
                TuiAction::Nothing
            },
            View::Create => self.handle_create_input(key),
            View::Delete => self.handle_delete_input(key),
            View::List => self.handle_list_input(key),
        }
    }

    /// Whether the interface accepts a key press (see `key_accepted`).
    pub fn accepts_key(&self, key: Key) -> (b: bool)
        ensures
            b == key_accepted(self.model(), key),
    {
        if self.current_view != View::Create {
            return true;
        }
        match key {
            Key::Char(c) => match self.input_mode {
                InputMode::Exp => {
                    if !char_is_numeric(c) {
                        return true;
                    }
                    if !('0' <= c && c <= '9') {
                        return false;
                    }
                    let t = self.input_exp as i64 * 10;
                    let v = t + (c as u32 - '0' as u32) as i64;
                    i32::MIN as i64 <= t && t <= i32::MAX as i64 && i32::MIN as i64 <= v && v
                        <= i32::MAX as i64
                },
                InputMode::Day => !char_is_numeric(c) || ('0' <= c && c <= '9'),
                _ => true,
            },
            _ => true,
        }
    }

    /// Handles a key press where the interface accepts it; a key that it
    /// does not accept (a numeric character that is no ASCII digit, or a
    /// digit that would overflow the EXP value) leaves the state unchanged
    /// and gives `None`.
    pub fn handle_key_checked(&mut self, key: Key) -> (a: Option<TuiAction>)
        requires
            old(self).wf(),
        ensures
            final(self).wf(),
            final(self).quests == old(self).quests,
            final(self).rewards == old(self).rewards,
            match a {
                Some(act) => key_accepted(old(self).model(), key) && final(self).model() =~= key_step(
                    old(self).model(),
                    old(self).day_ids(),
                    old(self).rewards@.len() as int,
                    key,
                ).0 && action_spec(act) == key_step(
                    old(self).model(),
                    old(self).day_ids(),
                    old(self).rewards@.len() as int,
                    key,
                ).1,
                None => !key_accepted(old(self).model(), key) && final(self).model() == old(
                    self,
                ).model(),
            },
    {
        if self.accepts_key(key) {
            Some(self.handle_key(key))
        } else {
            None
        }
    }
}

proof fn lemma_quest_total_prefix(days: Seq<Vec<QuestWithCompletion>>, i: int)
    requires
        0 <= i <= days.len(),
    ensures
        quest_total(days.take(i)) <= quest_total(days),
    decreases days.len() - i,
{
    if i < days.len() {
        lemma_quest_total_prefix(days, i + 1);
        assert(days.take(i + 1).drop_last() =~= days.take(i));
    } else {
        assert(days.take(i) =~= days);
    }
}

proof fn lemma_week_lens(days: Seq<Vec<QuestWithCompletion>>)
    ensures
        week_exps(days).len() == week_flags(days).len(),
    decreases days.len(),
{
    if days.len() > 0 {
        lemma_week_lens(days.drop_last());
    }
}

proof fn lemma_week_prefix(days: Seq<Vec<QuestWithCompletion>>, i: int)
    requires
        0 <= i <= days.len(),
    ensures
        week_exps(days.take(i)).len() <= week_exps(days).len(),
        week_flags(days.take(i)).len() <= week_flags(days).len(),
        week_exps(days).take(week_exps(days.take(i)).len() as int) == week_exps(days.take(i)),
        week_flags(days).take(week_flags(days.take(i)).len() as int) == week_flags(days.take(i)),
    decreases days.len() - i,
{
    if i < days.len() {
        lemma_week_prefix(days, i + 1);
        assert(days.take(i + 1).drop_last() =~= days.take(i));
        lemma_week_lens(days.take(i));
        lemma_week_lens(days.take(i + 1));
        lemma_week_lens(days);
        let a = week_exps(days.take(i + 1));
        let f = week_flags(days.take(i + 1));
        assert(days.take(i + 1).drop_last() =~= days.take(i));
        let b = week_exps(days.take(i));
        let g = week_flags(days.take(i));
        assert(a.take(b.len() as int) =~= b);
        assert(f.take(g.len() as int) =~= g);
        assert(week_exps(days).take(b.len() as int) =~= week_exps(days).take(a.len() as int).take(
            b.len() as int,
        ));
        assert(week_flags(days).take(g.len() as int) =~= week_flags(days).take(
            f.len() as int,
        ).take(g.len() as int));
    } else {
        assert(days.take(i) =~= days);
        assert(week_exps(days).take(week_exps(days).len() as int) =~= week_exps(days));
        assert(week_flags(days).take(week_flags(days).len() as int) =~= week_flags(days));
    }
}

// ---------------------------------------------------------------------------
// Laws

/// In the list view, pressing Tab three times comes back to the same tab
/// with nothing else changed and nothing to do.
pub proof fn lemma_tab_cycles(m: TuiModel, day_ids: Seq<i64>, reward_count: int)
    requires
        m.view == View::List,
    ensures
        ({
            let s1 = key_step(m, day_ids, reward_count, Key::Tab);
            let s2 = key_step(s1.0, day_ids, reward_count, Key::Tab);
            let s3 = key_step(s2.0, day_ids, reward_count, Key::Tab);
            &&& s3.0 == m
            &&& s1.1 == ActionSpec::Nothing
            &&& s2.1 == ActionSpec::Nothing
            &&& s3.1 == ActionSpec::Nothing
        }),
{
    let s1 = key_step(m, day_ids, reward_count, Key::Tab);
    let s2 = key_step(s1.0, day_ids, reward_count, Key::Tab);
    let s3 = key_step(s2.0, day_ids, reward_count, Key::Tab);
    assert(s3.0 =~= m);
}

/// On the quests tab of the list view, arrow left then arrow right comes
/// back to the same day (0 to 6), with the first quest selected.
pub proof fn lemma_left_right_returns(m: TuiModel, day_ids: Seq<i64>, reward_count: int)
    requires
        m.view == View::List,
        m.tab == Tab::Quests,
        0 <= m.day < 7,
    ensures
        ({
            let s1 = key_step(m, day_ids, reward_count, Key::Left);
            let s2 = key_step(s1.0, day_ids, reward_count, Key::Right);
            s2.0 == TuiModel { quest: 0, ..m }
        }),
{
    let s1 = key_step(m, day_ids, reward_count, Key::Left);
    let s2 = key_step(s1.0, day_ids, reward_count, Key::Right);
    assert(s2.0 =~= TuiModel { quest: 0, ..m });
}

/// In the list input, on the quests tab, arrow left moves to the previous
/// day and arrow right to the next, wrapping around the week (Sunday before
/// Monday is Saturday, after Saturday comes Sunday); the first quest is
/// selected, nothing else changes and nothing is to be done. This holds in
/// whatever view the list input is given the key.
pub proof fn lemma_list_arrows_wrap_day(m: TuiModel, day_ids: Seq<i64>, reward_count: int)
    requires
        m.tab == Tab::Quests,
        0 <= m.day < 7,
    ensures
        list_step(m, day_ids, reward_count, Key::Left) == (
            TuiModel { day: (m.day + 6) % 7, quest: 0, ..m },
            ActionSpec::Nothing,
        ),
        list_step(m, day_ids, reward_count, Key::Right) == (
            TuiModel { day: (m.day + 1) % 7, quest: 0, ..m },
            ActionSpec::Nothing,
        ),
        0 <= list_step(m, day_ids, reward_count, Key::Left).0.day < 7,
        0 <= list_step(m, day_ids, reward_count, Key::Right).0.day < 7,
{
    assert(list_step(m, day_ids, reward_count, Key::Left).0 =~= TuiModel {
        day: (m.day + 6) % 7,
        quest: 0,
        ..m
    });
    assert(list_step(m, day_ids, reward_count, Key::Right).0 =~= TuiModel {
        day: (m.day + 1) % 7,
        quest: 0,
        ..m
    });
}

/// Escape closes a form without creating anything: the list is shown again,
/// no input has the focus and the typed title is gone.
pub proof fn lemma_escape_discards_form(m: TuiModel, day_ids: Seq<i64>, reward_count: int)
    requires
        m.view == View::Create,
    ensures
        ({
            let s = key_step(m, day_ids, reward_count, Key::Esc);
            &&& s.0.view == View::List
            &&& s.0.mode == InputMode::NoInput
            &&& s.0.buffer == Seq::<char>::empty()
            &&& s.1 == ActionSpec::Nothing
        }),
{
}

/// Enter on a reward form with a title creates a reward with the typed
/// title and exactly the EXP value in the form; on a quest form, a quest
/// with the typed title, EXP value and day. With a blank title nothing is
/// created.
pub proof fn lemma_submit_creates_what_was_typed(m: TuiModel, day_ids: Seq<i64>, reward_count: int)
    requires
        m.view == View::Create,
    ensures
        m.tab == Tab::Rewards && trim(m.buffer).len() > 0 ==> key_step(
            m,
            day_ids,
            reward_count,
            Key::Enter,
        ).1 == ActionSpec::CreateReward(m.buffer, m.exp),
        m.tab == Tab::Quests && trim(m.buffer).len() > 0 ==> key_step(
            m,
            day_ids,
            reward_count,
            Key::Enter,
        ).1 == ActionSpec::CreateQuest(m.buffer, m.exp, m.input_day),
        m.tab != Tab::Settings && trim(m.buffer).len() == 0 ==> key_step(
            m,
            day_ids,
            reward_count,
            Key::Enter,
        ).1 == ActionSpec::Nothing,
{
}

} // verus!
