use quest_log::dates::{Date, UtcTimestamp};
use quest_log::models::{ClaimState, QuestStats, Reward, ToggleResult};
use quest_log::rewards::{
    all_rewards_claimed, all_states_claimed, can_claim_in_week, claim_step, reward_claim_state,
    week_end_of, weekly_reward_status, ClaimAction, ClaimEvent, ClaimStep,
};
use quest_log::stats::{
    capped_i32, completion_flags, fallback_stats, highscore_stats, saturating_add_i32,
    saturating_day_totals, sum_exp, toggle_step, week_exp_max_of, week_stats, StatsError,
    ToggleAction, ToggleEvent, ToggleStep,
};

fn ymd(y: i32, m: u32, d: u32) -> Date {
    Date::from_ymd_opt(y, m, d).unwrap()
}

fn reward(id: i64, required_exp: i32) -> Reward {
    let at = UtcTimestamp { secs: 0, nanos: 0 };
    Reward {
        created_at: at,
        description: None,
        id,
        image_content_type: None,
        image_data: None,
        is_active: true,
        required_exp,
        title: format!("Reward {id}"),
        updated_at: at,
    }
}

#[test]
fn claim_window_is_the_weeks_sunday() {
    let monday = ymd(2024, 1, 1);
    assert_eq!(week_end_of(monday), Some(ymd(2024, 1, 7)));
    assert!(can_claim_in_week(monday, ymd(2024, 1, 7)));
    assert!(!can_claim_in_week(monday, ymd(2024, 1, 6)));
    assert!(!can_claim_in_week(monday, ymd(2024, 1, 14)));
}

#[test]
fn claim_states() {
    assert_eq!(reward_claim_state(true, false, 0, 10), ClaimState::Claimed);
    assert_eq!(reward_claim_state(false, true, 10, 10), ClaimState::Claimable);
    assert_eq!(reward_claim_state(false, true, 9, 10), ClaimState::Locked);
    assert_eq!(reward_claim_state(false, false, 99, 10), ClaimState::Locked);
}

#[test]
fn bounty_board_of_a_sunday() {
    let board = weekly_reward_status(
        ymd(2024, 1, 1),
        ymd(2024, 1, 7),
        25,
        vec![reward(1, 0), reward(2, 25), reward(3, 26)],
        &vec![1, 0, 0],
    );
    let states: Vec<ClaimState> = board.iter().map(|r| r.state).collect();
    assert_eq!(states, vec![ClaimState::Claimed, ClaimState::Claimable, ClaimState::Locked]);
    assert!(board.iter().all(|r| r.can_claim_today && r.weekly_exp == 25));
    assert_eq!(board[1].title, "Reward 2");
    assert!(!all_rewards_claimed(&board));
    assert!(all_states_claimed(&vec![ClaimState::Claimed]));
    assert!(!all_states_claimed(&vec![]));
}

#[test]
fn a_claim_that_succeeds_and_crowns_a_champion() {
    let (ws, today) = (ymd(2024, 1, 1), ymd(2024, 1, 7));
    let (s, a) = claim_step(ws, today, ClaimStep::Start, ClaimEvent::Started);
    assert_eq!(a, ClaimAction::LoadActiveReward);
    let (s, a) = claim_step(ws, today, s, ClaimEvent::RewardLoaded(Some(25)));
    assert_eq!(a, ClaimAction::LoadWeeklyExp);
    let (s, a) = claim_step(ws, today, s, ClaimEvent::WeeklyExpLoaded(25));
    assert_eq!(a, ClaimAction::CountClaims);
    let (s, a) = claim_step(ws, today, s, ClaimEvent::ClaimCountLoaded(0));
    assert_eq!(a, ClaimAction::InsertClaim);
    let (s, a) = claim_step(ws, today, s, ClaimEvent::Inserted);
    assert_eq!(a, ClaimAction::LoadStatus);
    let (s, a) = claim_step(ws, today, s, ClaimEvent::StatusLoaded(vec![ClaimState::Claimed]));
    assert_eq!(a, ClaimAction::CreateChampion);
    let (s, a) = claim_step(ws, today, s, ClaimEvent::ChampionAttempted);
    assert_eq!((s, a), (ClaimStep::Done(true), ClaimAction::Finish(true)));
}

#[test]
fn claims_that_are_refused() {
    let (ws, today) = (ymd(2024, 1, 1), ymd(2024, 1, 7));
    assert_eq!(
        claim_step(ws, ymd(2024, 1, 6), ClaimStep::Start, ClaimEvent::Started).1,
        ClaimAction::Finish(false)
    );
    assert_eq!(
        claim_step(ws, today, ClaimStep::AwaitReward, ClaimEvent::RewardLoaded(None)).1,
        ClaimAction::Finish(false)
    );
    let waiting = ClaimStep::AwaitWeeklyExp { required_exp: 30 };
    assert_eq!(claim_step(ws, today, waiting, ClaimEvent::WeeklyExpLoaded(29)).1, ClaimAction::Finish(false));
    assert_eq!(
        claim_step(ws, today, ClaimStep::AwaitClaimCount, ClaimEvent::ClaimCountLoaded(1)).1,
        ClaimAction::Finish(false)
    );
    assert_eq!(
        claim_step(ws, today, ClaimStep::AwaitInsert, ClaimEvent::InsertRejectedAsDuplicate).1,
        ClaimAction::Finish(false)
    );
    assert_eq!(
        claim_step(ws, today, ClaimStep::AwaitStatus, ClaimEvent::StatusLoaded(vec![ClaimState::Locked])).1,
        ClaimAction::Finish(true)
    );
}

#[test]
fn toggling_flips_completion() {
    let (s, a) = toggle_step(ToggleStep::Start, ToggleEvent::Started);
    assert_eq!(a, ToggleAction::LoadQuest);
    let (s2, a) = toggle_step(s, ToggleEvent::QuestLoaded(true));
    assert_eq!(a, ToggleAction::CheckCompleted);
    let (s3, a) = toggle_step(s2, ToggleEvent::CompletedLoaded(false));
    assert_eq!(a, ToggleAction::InsertCompletion);
    assert_eq!(
        toggle_step(s3, ToggleEvent::Inserted).1,
        ToggleAction::Finish(ToggleResult::NewlyCompleted)
    );
    assert_eq!(
        toggle_step(s3, ToggleEvent::InsertRejectedAsDuplicate).1,
        ToggleAction::Finish(ToggleResult::NoChange)
    );
    let (s4, _) = toggle_step(s2, ToggleEvent::CompletedLoaded(true));
    assert_eq!(
        toggle_step(s4, ToggleEvent::Deleted).1,
        ToggleAction::Finish(ToggleResult::NewlyUncompleted)
    );
    assert_eq!(toggle_step(s, ToggleEvent::QuestLoaded(false)).1, ToggleAction::FailNotFound);
}

#[test]
fn day_stats() {
    let exps = vec![10, 20, 5];
    let done = vec![true, false, true];
    assert_eq!(
        week_stats(&exps, &done, 40, 200),
        Ok(QuestStats {
            exp_today: 15,
            exp_today_max: 35,
            quests_completed: 2,
            quests_total: 3,
            week_exp: 40,
            week_exp_max: 200,
        })
    );
    assert_eq!(week_stats(&exps, &done, 40, i64::MAX), Err(StatsError::WeekExpMaxOverflow));
    assert_eq!(
        week_stats(&vec![i32::MAX, -1, 1], &vec![true, false, true], 0, 0),
        Err(StatsError::ExpTodayOverflow)
    );
    let fallback = fallback_stats(&exps, &done);
    assert_eq!((fallback.week_exp, fallback.week_exp_max, fallback.exp_today), (0, 0, 15));
}

#[test]
fn saturating_sums() {
    assert_eq!(saturating_add_i32(i32::MAX, 1), i32::MAX);
    assert_eq!(saturating_add_i32(i32::MIN, -1), i32::MIN);
    assert_eq!(saturating_day_totals(&vec![i32::MAX, 5], &vec![true, true]), (i32::MAX, 2));
    assert_eq!(sum_exp(&vec![1, 2, 3]), 6);
    assert_eq!(week_exp_max_of(&vec![vec![i32::MAX], vec![1]]), i32::MAX);
    assert_eq!(week_exp_max_of(&vec![vec![1, 2], vec![], vec![3]]), 6);
}

#[test]
fn completion_flags_mark_completed_quests() {
    assert_eq!(completion_flags(&vec![1, 2, 3], &vec![3, 1]), vec![true, false, true]);
}

#[test]
fn highscores_are_capped() {
    assert_eq!(capped_i32(5), 5);
    assert_eq!(capped_i32(i64::MAX), i32::MAX);
    let h = highscore_stats(100, 7, 2, i64::MAX);
    assert_eq!((h.total_exp, h.quests_completed, h.rewards_claimed, h.weekly_champions), (100, 7, 2, i32::MAX));
}
