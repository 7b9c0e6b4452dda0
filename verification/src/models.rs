//! Data models and request payloads for quests, rewards and settings.

use crate::dates::{Date, UtcTimestamp};
use crate::day_view::QuestId;
use vstd::prelude::*;

verus! {

/// A daily quest that players can complete.
#[derive(Debug, Clone)]
pub struct Quest {
    /// When the quest was created.
    pub created_at: UtcTimestamp,
    /// Day of the week (0 = Sunday, 6 = Saturday).
    pub day_of_week: i32,
    /// Optional description giving quest details.
    pub description: Option<String>,
    /// Experience points awarded for completing the quest.
    pub exp_value: i32,
    /// Unique identifier of the quest.
    pub id: i64,
    /// MIME content type of the quest image, if any.
    pub image_content_type: Option<String>,
    /// Image data of the quest, if any.
    pub image_data: Option<Vec<u8>>,
    /// Whether the quest is active.
    pub is_active: bool,
    /// Title of the quest.
    pub title: String,
    /// When the quest was last updated.
    pub updated_at: UtcTimestamp,
}

/// A quest completed on a given date.
#[derive(Debug, Clone)]
pub struct QuestCompletion {
    /// The date on which the quest was completed.
    pub completed_date: Date,
    /// When the completion was recorded.
    pub created_at: UtcTimestamp,
    /// Unique identifier of the completion.
    pub id: i64,
    /// The completed quest.
    pub quest_id: i64,
}

/// A reward unlocked by weekly experience points.
#[derive(Debug, Clone)]
pub struct Reward {
    /// When the reward was created.
    pub created_at: UtcTimestamp,
    /// Optional description of the reward.
    pub description: Option<String>,
    /// Unique identifier of the reward.
    pub id: i64,
    /// MIME content type of the reward image, if any.
    pub image_content_type: Option<String>,
    /// Image data of the reward, if any.
    pub image_data: Option<Vec<u8>>,
    /// Whether the reward is active and claimable.
    pub is_active: bool,
    /// Experience points needed to claim the reward.
    pub required_exp: i32,
    /// Title of the reward.
    pub title: String,
    /// When the reward was last updated.
    pub updated_at: UtcTimestamp,
}

/// Application settings, stored as a single row.
#[derive(Debug, Clone)]
pub struct Settings {
    /// Always 1: the identifier of the single row.
    pub id: i32,
    /// When the settings were last updated.
    pub updated_at: UtcTimestamp,
    /// The weekly experience goal.
    pub weekly_exp_goal: i32,
}

/// Request to create a quest.
#[derive(Debug, Clone)]
pub struct CreateQuestRequest {
    /// Day of the week (0 = Sunday, 6 = Saturday).
    pub day_of_week: i32,
    /// Optional description.
    pub description: Option<String>,
    /// Optional experience value (10 where absent).
    pub exp_value: Option<i32>,
    /// Title of the quest.
    pub title: String,
}

/// Request to update a quest; absent fields stay as they are.
#[derive(Debug, Clone)]
pub struct UpdateQuestRequest {
    /// New day of the week.
    pub day_of_week: Option<i32>,
    /// New description.
    pub description: Option<String>,
    /// New experience value.
    pub exp_value: Option<i32>,
    /// New active flag.
    pub is_active: Option<bool>,
    /// New title.
    pub title: Option<String>,
}

/// Request to create a reward.
#[derive(Debug, Clone)]
pub struct CreateRewardRequest {
    /// Optional description.
    pub description: Option<String>,
    /// Experience points needed to claim it.
    pub required_exp: i32,
    /// Title of the reward.
    pub title: String,
}

/// Request to update a reward; absent fields stay as they are.
#[derive(Debug, Clone)]
pub struct UpdateRewardRequest {
    /// New description.
    pub description: Option<String>,
    /// New active flag.
    pub is_active: Option<bool>,
    /// New required experience points.
    pub required_exp: Option<i32>,
    /// New title.
    pub title: Option<String>,
}

/// Request to update the settings.
#[derive(Debug, Clone)]
pub struct UpdateSettingsRequest {
    /// New weekly experience goal.
    pub weekly_exp_goal: i32,
}

/// Outcome of toggling a quest's completion.
#[derive(Debug, Clone, Copy, PartialEq, Eq, Structural)]
pub enum ToggleResult {
    /// The quest was not completed and now is.
    NewlyCompleted,
    /// The quest was completed and now is not.
    NewlyUncompleted,
    /// Nothing changed (a concurrent request recorded the completion first).
    NoChange,
}

/// Claim state of a weekly reward.
#[derive(Debug, Clone, Copy, PartialEq, Eq, Structural)]
pub enum ClaimState {
    /// The reward can be claimed now.
    Claimable,
    /// The reward was claimed this week.
    Claimed,
    /// The reward cannot be claimed now.
    Locked,
}

/// A weekly reward with its claim state, for display.
#[derive(Debug, Clone)]
pub struct WeeklyRewardDisplay {
    /// Whether rewards of this week can be claimed today.
    pub can_claim_today: bool,
    /// Description of the reward.
    pub description: Option<String>,
    /// Identifier of the reward.
    pub id: i64,
    /// Experience points needed to claim it.
    pub required_exp: i32,
    /// Current claim state.
    pub state: ClaimState,
    /// Title of the reward.
    pub title: String,
    /// The player's experience points this week.
    pub weekly_exp: i32,
}

/// Progress statistics of the player.
#[derive(Debug, Clone, Copy, PartialEq, Eq, Structural)]
pub struct QuestStats {
    /// Experience earned today.
    pub exp_today: i32,
    /// Experience available today.
    pub exp_today_max: i32,
    /// Quests completed today.
    pub quests_completed: i32,
    /// Quests available today.
    pub quests_total: i32,
    /// Experience earned this week.
    pub week_exp: i32,
    /// Experience available in a week.
    pub week_exp_max: i32,
}

/// Aggregates shown on the highscore page.
#[derive(Debug, Clone, Copy, PartialEq, Eq, Structural)]
pub struct HighscoreStats {
    /// Experience earned from all completions.
    pub total_exp: i32,
    /// Number of quest completions.
    pub quests_completed: i32,
    /// Number of reward claims.
    pub rewards_claimed: i32,
    /// Number of weeks in which every reward was claimed.
    pub weekly_champions: i32,
}

/// A week in which every reward was claimed.
#[derive(Debug, Clone)]
pub struct WeeklyChampion {
    /// When the title was earned.
    pub earned_at: UtcTimestamp,
    /// Identifier of the record.
    pub id: i64,
    /// Monday of the week.
    pub week_start: Date,
}

/// A file chosen in a form: its name, MIME type and base64-encoded contents.
#[derive(Debug, Clone)]
pub struct FileUpload {
    /// File name.
    pub name: String,
    /// MIME type.
    pub mime: String,
    /// Contents, base64-encoded.
    pub contents: String,
}

/// Quest form payload sent by the editor.
#[derive(Debug, Clone)]
pub struct QuestJsonRequest {
    /// Title of the quest.
    pub quest_title: String,
    /// Optional description.
    pub quest_description: Option<String>,
    /// Optional experience value.
    pub quest_exp_value: Option<i32>,
    /// Day of the week (0 = Sunday).
    pub quest_day_of_week: i32,
    /// Chosen image files (the first one is used).
    pub quest_image: Vec<FileUpload>,
}

/// Reward form payload sent by the editor.
#[derive(Debug, Clone)]
pub struct RewardJsonRequest {
    /// Title of the reward.
    pub reward_title: String,
    /// Optional description.
    pub reward_description: Option<String>,
    /// Experience points needed to claim it.
    pub reward_required_exp: i32,
    /// Chosen image files (the first one is used).
    pub reward_image: Vec<FileUpload>,
}

/// A change to an optional column: leave it as it is, or set a new value.
#[derive(Debug, Clone)]
pub enum SetOrRemove<T> {
    /// No change to the existing value.
    Unchanged,
    /// Explicitly set to a new value.
    SetValue(T),
}

impl<T> Default for SetOrRemove<T> {
    fn default() -> (r: Self)
        ensures
            r is Unchanged,
    {
        SetOrRemove::Unchanged
    }
}

impl<T> SetOrRemove<T> {
    /// Creates a `SetOrRemove` that sets the given value.
    pub fn set(value: T) -> (r: Self)
        ensures
            r == SetOrRemove::SetValue(value),
    {
        SetOrRemove::SetValue(value)
    }

    /// Returns the contained value if set, or `None` if unchanged.
    pub fn as_option(&self) -> (r: Option<&T>)
        ensures
            match *self {
                SetOrRemove::SetValue(v) => r == Some(&v),
                SetOrRemove::Unchanged => r is None,
            },
    {
        match self {
            SetOrRemove::SetValue(value) => Some(value),
            SetOrRemove::Unchanged => None,
        }
    }

    /// Returns `true` if the value is unchanged.
    pub fn is_unchanged(&self) -> (b: bool)
        ensures
            b == (*self is Unchanged),
    {
        match self {
            SetOrRemove::Unchanged => true,
            SetOrRemove::SetValue(_) => false,
        }
    }
}

/// Message sent to connected clients over server-sent events.
#[derive(Debug, Clone)]
pub enum ServerMessage {
    /// HTML elements to patch into the page, and the client that caused it.
    Elements(String, Option<String>),
    /// Signals that update client-side state, and the client that caused it.
    Signals(String, Option<String>),
}

/// Query parameters of the quests page.
#[derive(Debug, Clone)]
pub struct QuestsQuery {
    /// Optional date in `YYYY-MM-DD` form.
    pub date: Option<String>,
}

/// Request to toggle a quest's completion.
#[derive(Debug, Clone)]
pub struct ToggleQuestRequest {
    /// Client identifier, to skip the sender when broadcasting.
    pub client_id: Option<String>,
    /// The quest to toggle.
    pub quest_id: QuestId,
}

/// Path parameters of day navigation.
#[derive(Debug, Clone)]
pub struct NavigatePath {
    /// Target date in `YYYY-MM-DD` form.
    pub date: String,
}

/// Request to claim a weekly reward.
#[derive(Debug, Clone)]
pub struct ClaimRewardRequest {
    /// Client identifier, to skip the sender when broadcasting.
    pub client_id: Option<String>,
    /// The reward to claim.
    pub reward_id: i64,
}

/// Login form of the editor.
#[derive(Debug, Clone)]
pub struct LoginRequest {
    /// The password typed in.
    pub password: String,
}

} // verus!
