//! Weekly rewards: when a reward can be claimed, the claim state shown on the
//! bounty board, and the steps of claiming a reward.
//!
//! Rewards of a week (Monday to Sunday) can only be claimed on that week's
//! Sunday, once each, and only with enough EXP earned in that week.

use crate::dates::{day_in_range, days_from_sunday, Date};
use crate::models::{ClaimState, Reward, WeeklyRewardDisplay};
use vstd::prelude::*;

verus! {

/// Rewards of the week starting on day number `week_start` can be claimed on
/// day number `today`: today lies in that week and is its Sunday.
pub open spec fn claim_window_open(week_start: int, today: int) -> bool {
    &&& week_start <= today <= week_start + 6
    &&& days_from_sunday(today) == 0
}

/// The claim state of a reward: claimed if a claim exists this week, else
/// claimable when the claim window is open and the week's EXP reaches the
/// requirement, else locked.
pub open spec fn claim_state_of(
    is_claimed: bool,
    can_claim_this_week: bool,
    weekly_exp: int,
    required_exp: int,
) -> ClaimState {
    if is_claimed {
        ClaimState::Claimed
    } else if can_claim_this_week && weekly_exp >= required_exp {
        ClaimState::Claimable
    } else {
        ClaimState::Locked
    }
}

/// The last day (Sunday) of the week starting on `week_start`, if representable.
pub fn week_end_of(week_start: Date) -> (r: Option<Date>)
    ensures
        r is Some <==> day_in_range(week_start@ + 6),
        r matches Some(e) ==> e@ == week_start@ + 6,
{
    week_start.checked_add_days(6)
}

/// Whether rewards of the week starting on `week_start` can be claimed on `today`.
pub fn can_claim_in_week(week_start: Date, today: Date) -> (b: bool)
    requires
        day_in_range(week_start@ + 6),
    ensures
        b == claim_window_open(week_start@, today@),
{
    let week_end = week_start.add_days(6);
    let is_sunday = today.weekday().num_days_from_sunday() == 0;
    today.day_number() >= week_start.day_number() && today.day_number() <= week_end.day_number()
        && is_sunday
}

/// The claim state of one reward.
pub fn reward_claim_state(
    is_claimed: bool,
    can_claim_this_week: bool,
    weekly_exp: i32,
    required_exp: i32,
) -> (s: ClaimState)
    ensures
        s == claim_state_of(is_claimed, can_claim_this_week, weekly_exp as int, required_exp as int),
{
    if is_claimed {
        ClaimState::Claimed
    } else if can_claim_this_week && weekly_exp >= required_exp {
        ClaimState::Claimable
    } else {
        ClaimState::Locked
    }
}

/// `d` shows reward `r` with the given week data.
pub open spec fn shows_reward(
    d: WeeklyRewardDisplay,
    r: Reward,
    claims: int,
    window: bool,
    weekly_exp: int,
) -> bool {
    &&& d.id == r.id
    &&& d.title == r.title
    &&& d.description == r.description
    &&& d.required_exp == r.required_exp
    &&& d.weekly_exp == weekly_exp
    &&& d.can_claim_today == window
    &&& d.state == claim_state_of(claims > 0, window, weekly_exp, r.required_exp as int)
}

/// The bounty board of the week starting on `week_start`, seen on `today`:
/// each active reward (in the order given) with its claim state, where
/// `claim_counts[i]` is the number of claims of `rewards[i]` made this week
/// and `weekly_exp` the EXP earned this week.
pub fn weekly_reward_status(
    week_start: Date,
    today: Date,
    weekly_exp: i32,
    rewards: Vec<Reward>,
    claim_counts: &Vec<i64>,
) -> (r: Vec<WeeklyRewardDisplay>)
    requires
        day_in_range(week_start@ + 6),
        claim_counts.len() == rewards.len(),
    ensures
        r.len() == rewards.len(),
        forall|i: int|
            0 <= i < r.len() ==> shows_reward(
                #[trigger] r[i],
                rewards[i],
                claim_counts[i] as int,
                claim_window_open(week_start@, today@),
                weekly_exp as int,
            ),
{
    let can_claim_this_week = can_claim_in_week(week_start, today);
    let mut result: Vec<WeeklyRewardDisplay> = Vec::new();
    let mut i: usize = 0;
    let n = rewards.len();
    while i < n
        invariant
            n == rewards.len() == claim_counts.len(),
            i <= n,
            result.len() == i,
            can_claim_this_week == claim_window_open(week_start@, today@),
            forall|j: int|
                0 <= j < i ==> shows_reward(
                    #[trigger] result[j],
                    rewards[j],
                    claim_counts[j] as int,
                    can_claim_this_week,
                    weekly_exp as int,
                ),
        decreases n - i,
    {
        let reward = &rewards[i];
        let is_claimed = claim_counts[i] > 0;
        let state = reward_claim_state(
            is_claimed,
            can_claim_this_week,
            weekly_exp,
            reward.required_exp,
        );
        result.push(
            WeeklyRewardDisplay {
                id: reward.id,
                title: reward.title.clone(),
                description: reward.description.clone(),
                required_exp: reward.required_exp,
                weekly_exp,
                state,
                can_claim_today: can_claim_this_week,
            },
        );
        i += 1;
    }
    result
}

/// Every reward of the list is claimed, and there is at least one.
pub open spec fn all_claimed(states: Seq<ClaimState>) -> bool {
    &&& states.len() > 0
    &&& forall|i: int| 0 <= i < states.len() ==> states[i] == ClaimState::Claimed
}

/// The claim states of a bounty board.
pub open spec fn states_of(rewards: Seq<WeeklyRewardDisplay>) -> Seq<ClaimState> {
    rewards.map_values(|r: WeeklyRewardDisplay| r.state)
}

/// Whether every reward shown is claimed (and there is at least one): the
/// week's champion condition.
pub fn all_rewards_claimed(rewards: &Vec<WeeklyRewardDisplay>) -> (b: bool)
    ensures
        b == all_claimed(states_of(rewards@)),
        b <==> rewards@.len() > 0 && forall|i: int|
            0 <= i < rewards@.len() ==> #[trigger] rewards@[i].state == ClaimState::Claimed,
{
    if rewards.len() == 0 {
        return false;
    }
    let mut i: usize = 0;
    while i < rewards.len()
        invariant
            i <= rewards.len(),
            forall|j: int| 0 <= j < i ==> #[trigger] rewards@[j].state == ClaimState::Claimed,
        decreases rewards.len() - i,
    {
        if rewards[i].state != ClaimState::Claimed {
            assert(states_of(rewards@)[i as int] != ClaimState::Claimed);
            return false;
        }
        i += 1;
    }
    true
}

/// Whether every state of the list is `Claimed` (and there is at least one).
pub fn all_states_claimed(states: &Vec<ClaimState>) -> (b: bool)
    ensures
        b == all_claimed(states@),
        b <==> states@.len() > 0 && forall|i: int|
            0 <= i < states@.len() ==> #[trigger] states@[i] == ClaimState::Claimed,
{
    if states.len() == 0 {
        return false;
    }
    let mut i: usize = 0;
    while i < states.len()
        invariant
            i <= states.len(),
            forall|j: int| 0 <= j < i ==> states@[j] == ClaimState::Claimed,
        decreases states.len() - i,
    {
        if states[i] != ClaimState::Claimed {
            return false;
        }
        i += 1;
    }
    true
}

// ---------------------------------------------------------------------------
// Claiming a reward

/// Where a claim of a reward for a week stands.
#[derive(Debug, Clone, Copy, PartialEq, Eq, Structural)]
pub enum ClaimStep {
    /// Nothing done yet.
    Start,
    /// Waiting for the reward, if it exists and is active.
    AwaitReward,
    /// Waiting for the week's EXP; the reward needs `required_exp`.
    AwaitWeeklyExp {
        /// EXP needed by the reward.
        required_exp: i32,
    },
    /// Waiting for the number of claims of the reward made this week.
    AwaitClaimCount,
    /// Waiting for the claim to be recorded (dated today).
    AwaitInsert,
    /// Waiting for the claim states of all rewards of the week.
    AwaitStatus,
    /// Waiting for the week's champion record to be written.
    AwaitChampion,
    /// Finished: whether the reward was claimed.
    Done(bool),
}

/// What was learnt since the last step.
#[derive(Debug, Clone, PartialEq, Eq)]
pub enum ClaimEvent {
    /// The claim begins.
    Started,
    /// The reward's required EXP, or `None` if no active reward has the id.
    RewardLoaded(Option<i32>),
    /// EXP earned in the week.
    WeeklyExpLoaded(i32),
    /// Claims of the reward already made in the week.
    ClaimCountLoaded(i64),
    /// The claim was recorded.
    Inserted,
    /// The store refused the claim as a duplicate (made concurrently).
    InsertRejectedAsDuplicate,
    /// Claim states of all active rewards of the week, after the claim.
    StatusLoaded(Vec<ClaimState>),
    /// The champion record was attempted (its outcome does not matter).
    ChampionAttempted,
}

/// What to do next.
#[derive(Debug, Clone, Copy, PartialEq, Eq, Structural)]
pub enum ClaimAction {
    /// Load the reward, active only.
    LoadActiveReward,
    /// Compute the week's EXP.
    LoadWeeklyExp,
    /// Count the claims of the reward in the week.
    CountClaims,
    /// Record a claim of the reward dated today.
    InsertClaim,
    /// Load the claim states of the week's rewards.
    LoadStatus,
    /// Record the week's champion.
    CreateChampion,
    /// Stop and answer.
    Finish(bool),
}

/// The event answers what the step waits for.
pub open spec fn event_fits(step: ClaimStep, event: ClaimEvent) -> bool {
    match step {
        ClaimStep::Start => event == ClaimEvent::Started,
        ClaimStep::AwaitReward => event is RewardLoaded,
        ClaimStep::AwaitWeeklyExp { .. } => event is WeeklyExpLoaded,
        ClaimStep::AwaitClaimCount => event is ClaimCountLoaded,
        ClaimStep::AwaitInsert => event == ClaimEvent::Inserted || event
            == ClaimEvent::InsertRejectedAsDuplicate,
        ClaimStep::AwaitStatus => event is StatusLoaded,
        ClaimStep::AwaitChampion => event == ClaimEvent::ChampionAttempted,
        ClaimStep::Done(_) => false,
    }
}

/// The next step and action of a claim of a reward for the week starting on
/// `week_start`, made on `today`.
pub open spec fn claim_transition(week_start: int, today: int, step: ClaimStep, event: ClaimEvent) -> (
    ClaimStep,
    ClaimAction,
) {
    match step {
        ClaimStep::Start => if claim_window_open(week_start, today) {
            (ClaimStep::AwaitReward, ClaimAction::LoadActiveReward)
        } else {
            (ClaimStep::Done(false), ClaimAction::Finish(false))
        },
        ClaimStep::AwaitReward => match event {
            ClaimEvent::RewardLoaded(Some(required)) => (
                ClaimStep::AwaitWeeklyExp { required_exp: required },
                ClaimAction::LoadWeeklyExp,
            ),
            _ => (ClaimStep::Done(false), ClaimAction::Finish(false)),
        },
        ClaimStep::AwaitWeeklyExp { required_exp } => match event {
            ClaimEvent::WeeklyExpLoaded(exp) => if exp < required_exp {
                (ClaimStep::Done(false), ClaimAction::Finish(false))
            } else {
                (ClaimStep::AwaitClaimCount, ClaimAction::CountClaims)
            },
            _ => (step, ClaimAction::LoadWeeklyExp),
        },
        ClaimStep::AwaitClaimCount => match event {
            ClaimEvent::ClaimCountLoaded(n) => if n > 0 {
                (ClaimStep::Done(false), ClaimAction::Finish(false))
            } else {
                (ClaimStep::AwaitInsert, ClaimAction::InsertClaim)
            },
            _ => (step, ClaimAction::CountClaims),
        },
        ClaimStep::AwaitInsert => match event {
            ClaimEvent::Inserted => (ClaimStep::AwaitStatus, ClaimAction::LoadStatus),
            _ => (ClaimStep::Done(false), ClaimAction::Finish(false)),
        },
        ClaimStep::AwaitStatus => match event {
            ClaimEvent::StatusLoaded(states) => if all_claimed(states@) {
                (ClaimStep::AwaitChampion, ClaimAction::CreateChampion)
            } else {
                (ClaimStep::Done(true), ClaimAction::Finish(true))
            },
            _ => (step, ClaimAction::LoadStatus),
        },
        ClaimStep::AwaitChampion => (ClaimStep::Done(true), ClaimAction::Finish(true)),
        ClaimStep::Done(b) => (step, ClaimAction::Finish(b)),
    }
}

/// One step of claiming a reward for the week starting on `week_start`,
/// made on `today` (claim_reward_for_week_on): outside the week's Sunday
/// nothing is claimed; a missing or inactive reward, too little EXP this
/// week, or an existing claim this week answer `false`; otherwise the claim
/// is recorded, a duplicate refused by the store answers `false`, and once
/// every reward of the week is claimed the week's champion is recorded
/// before answering `true`.
pub fn claim_step(week_start: Date, today: Date, step: ClaimStep, event: ClaimEvent) -> (r: (
    ClaimStep,
    ClaimAction,
))
    requires
        day_in_range(week_start@ + 6),
        event_fits(step, event),
    ensures
        r == claim_transition(week_start@, today@, step, event),
{
    match step {
        ClaimStep::Start => {
            if can_claim_in_week(week_start, today) {
                (ClaimStep::AwaitReward, ClaimAction::LoadActiveReward)
            } else {
                (ClaimStep::Done(false), ClaimAction::Finish(false))
            }
        },
        ClaimStep::AwaitReward => match event {
            ClaimEvent::RewardLoaded(Some(required)) => (
                ClaimStep::AwaitWeeklyExp { required_exp: required },
                ClaimAction::LoadWeeklyExp,
            ),
            _ => (ClaimStep::Done(false), ClaimAction::Finish(false)),
        },
        ClaimStep::AwaitWeeklyExp { required_exp } => match event {
            ClaimEvent::WeeklyExpLoaded(exp) => {
                if exp < required_exp {
                    (ClaimStep::Done(false), ClaimAction::Finish(false))
                } else {
                    (ClaimStep::AwaitClaimCount, ClaimAction::CountClaims)
                }
            },
            _ => (step, ClaimAction::LoadWeeklyExp),
        },
        ClaimStep::AwaitClaimCount => match event {
            ClaimEvent::ClaimCountLoaded(n) => {
                if n > 0 {
                    (ClaimStep::Done(false), ClaimAction::Finish(false))
                } else {
                    (ClaimStep::AwaitInsert, ClaimAction::InsertClaim)
                }
            },
            _ => (step, ClaimAction::CountClaims),
        },
        ClaimStep::AwaitInsert => match event {
            ClaimEvent::Inserted => (ClaimStep::AwaitStatus, ClaimAction::LoadStatus),
            _ => (ClaimStep::Done(false), ClaimAction::Finish(false)),
        },
        ClaimStep::AwaitStatus => match event {
            ClaimEvent::StatusLoaded(states) => {
                if all_states_claimed(&states) {
                    (ClaimStep::AwaitChampion, ClaimAction::CreateChampion)
                } else {
                    (ClaimStep::Done(true), ClaimAction::Finish(true))
                }
            },
            _ => (step, ClaimAction::LoadStatus),
        },
        ClaimStep::AwaitChampion => (ClaimStep::Done(true), ClaimAction::Finish(true)),
        ClaimStep::Done(b) => (step, ClaimAction::Finish(b)),
    }
}

// ---------------------------------------------------------------------------
// Laws

/// The steps of a claim that meets no concurrent claim, given what the store
/// holds: the active reward's requirement (or none), the week's EXP and the
/// week's claims of the reward. The result is the action taken after the
/// claim count is known (or the earlier finish).
pub open spec fn claim_decision(
    week_start: int,
    today: int,
    reward: Option<i32>,
    weekly_exp: i32,
    claims: i64,
) -> ClaimAction {
    let s1 = claim_transition(week_start, today, ClaimStep::Start, ClaimEvent::Started);
    if s1.0 != ClaimStep::AwaitReward {
        s1.1
    } else {
        let s2 = claim_transition(
            week_start,
            today,
            s1.0,
            ClaimEvent::RewardLoaded(reward),
        );
        if !(s2.0 is AwaitWeeklyExp) {
            s2.1
        } else {
            let s3 = claim_transition(
                week_start,
                today,
                s2.0,
                ClaimEvent::WeeklyExpLoaded(weekly_exp),
            );
            if s3.0 != ClaimStep::AwaitClaimCount {
                s3.1
            } else {
                claim_transition(week_start, today, s3.0, ClaimEvent::ClaimCountLoaded(claims)).1
            }
        }
    }
}

/// The bounty board and the claim agree: an active reward shows as
/// `Claimable` exactly when claiming it now records a claim.
pub proof fn lemma_claimable_iff_claim_recorded(
    week_start: int,
    today: int,
    required_exp: i32,
    weekly_exp: i32,
    claims: i64,
)
    ensures
        (claim_state_of(
            claims > 0,
            claim_window_open(week_start, today),
            weekly_exp as int,
            required_exp as int,
        ) == ClaimState::Claimable) <==> (claim_decision(
            week_start,
            today,
            Some(required_exp),
            weekly_exp,
            claims,
        ) == ClaimAction::InsertClaim),
{
}

/// A claim is recorded only on the Sunday of the claimed week, for an active
/// reward, with enough EXP earned that week, and when the reward was not
/// claimed that week yet.
pub proof fn lemma_claim_recorded_only_when_allowed(
    week_start: int,
    today: int,
    reward: Option<i32>,
    weekly_exp: i32,
    claims: i64,
)
    requires
        claim_decision(week_start, today, reward, weekly_exp, claims) == ClaimAction::InsertClaim,
    ensures
        claim_window_open(week_start, today),
        reward matches Some(req) && weekly_exp >= req,
        claims <= 0,
{
}

/// A claim answers `true` only once the claim was recorded: the only step
/// that leads to a `true` answer is the one after `Inserted`.
pub proof fn lemma_true_only_after_insert(
    week_start: int,
    today: int,
    step: ClaimStep,
    event: ClaimEvent,
)
    requires
        event_fits(step, event),
        claim_transition(week_start, today, step, event).1 == ClaimAction::Finish(true)
            || claim_transition(week_start, today, step, event).0 == ClaimStep::AwaitStatus,
    ensures
        step == ClaimStep::AwaitStatus || step == ClaimStep::AwaitChampion || step
            == ClaimStep::AwaitInsert,
        step == ClaimStep::AwaitInsert ==> event == ClaimEvent::Inserted,
{
}

/// After a claim, the week's champion is recorded exactly when every reward
/// of the week shows as claimed.
pub proof fn lemma_champion_when_all_claimed(
    week_start: int,
    today: int,
    states: Vec<ClaimState>,
)
    ensures
        (claim_transition(
            week_start,
            today,
            ClaimStep::AwaitStatus,
            ClaimEvent::StatusLoaded(states),
        ).1 == ClaimAction::CreateChampion) <==> all_claimed(states@),
{
}

/// Once a claim is recorded, the week's champion is recorded only when every
/// reward of the week shows as claimed: a status list that is empty, or that
/// holds a state other than `Claimed` at any position, finishes the claim
/// with `true` and records no champion; a non-empty list of `Claimed` states
/// only records the champion.
pub proof fn lemma_champion_needs_every_reward_claimed(
    week_start: int,
    today: int,
    states: Vec<ClaimState>,
)
    ensures
        (states@.len() == 0 || exists|i: int|
            0 <= i < states@.len() && #[trigger] states@[i] != ClaimState::Claimed) ==> claim_transition(
            week_start,
            today,
            ClaimStep::AwaitStatus,
            ClaimEvent::StatusLoaded(states),
        ) == (ClaimStep::Done(true), ClaimAction::Finish(true)),
        (states@.len() > 0 && forall|i: int|
            0 <= i < states@.len() ==> #[trigger] states@[i] == ClaimState::Claimed) ==> claim_transition(
            week_start,
            today,
            ClaimStep::AwaitStatus,
            ClaimEvent::StatusLoaded(states),
        ) == (ClaimStep::AwaitChampion, ClaimAction::CreateChampion),
{
}

} // verus!
