//! Progress statistics: EXP totals of a day and of a week, completion
//! flags, highscore aggregates, and the steps of toggling a quest.

use crate::models::{HighscoreStats, QuestStats, ToggleResult};
use vstd::prelude::*;

verus! {

/// `v` fits in an `i32`.
pub open spec fn fits_i32(v: int) -> bool {
    i32::MIN <= v <= i32::MAX
}

/// The sum of the values.
pub open spec fn sum_of(exps: Seq<i32>) -> int
    decreases exps.len(),
{
    if exps.len() == 0 {
        0
    } else {
        sum_of(exps.drop_last()) + exps.last()
    }
}

/// Adding the values one by one never leaves the `i32` range (as Rust's
/// checked `Iterator::sum` of `i32` needs).
pub open spec fn prefix_sums_fit(exps: Seq<i32>) -> bool {
    forall|k: int| 0 <= k <= exps.len() ==> fits_i32(#[trigger] sum_of(exps.take(k)))
}

/// The sum of the values whose flag is set.
pub open spec fn sum_flagged(exps: Seq<i32>, flags: Seq<bool>) -> int
    decreases exps.len(),
{
    if exps.len() == 0 || flags.len() < exps.len() {
        0
    } else {
        sum_flagged(exps.drop_last(), flags.take(exps.len() - 1)) + if flags[exps.len() - 1] {
            exps.last() as int
        } else {
            0
        }
    }
}

/// Number of set flags.
pub open spec fn count_flagged(flags: Seq<bool>) -> int
    decreases flags.len(),
{
    if flags.len() == 0 {
        0
    } else {
        count_flagged(flags.drop_last()) + if flags.last() {
            1int
        } else {
            0
        }
    }
}

/// Adding the flagged values one by one never leaves the `i32` range.
pub open spec fn flagged_sums_fit(exps: Seq<i32>, flags: Seq<bool>) -> bool {
    forall|k: int|
        0 <= k <= exps.len() ==> fits_i32(#[trigger] sum_flagged(exps.take(k), flags.take(k)))
}

/// `v` clamped into the `i32` range from above and below.
pub open spec fn saturate_i32(v: int) -> int {
    if v > i32::MAX {
        i32::MAX as int
    } else if v < i32::MIN {
        i32::MIN as int
    } else {
        v
    }
}

/// The flagged values added one by one with saturation at the `i32` bounds.
pub open spec fn saturating_sum_flagged(exps: Seq<i32>, flags: Seq<bool>) -> int
    decreases exps.len(),
{
    if exps.len() == 0 || flags.len() < exps.len() {
        0
    } else {
        let prev = saturating_sum_flagged(exps.drop_last(), flags.take(exps.len() - 1));
        if flags[exps.len() - 1] {
            saturate_i32(prev + exps.last())
        } else {
            prev
        }
    }
}

/// The values added one by one with saturation at the `i32` bounds.
pub open spec fn saturating_sum(exps: Seq<i32>) -> int
    decreases exps.len(),
{
    if exps.len() == 0 {
        0
    } else {
        saturate_i32(saturating_sum(exps.drop_last()) + exps.last())
    }
}

/// `a + b` clamped into the `i32` range (`i32::saturating_add`).
pub fn saturating_add_i32(a: i32, b: i32) -> (r: i32)
    ensures
        r == saturate_i32(a + b),
{
    let v = a as i64 + b as i64;
    if v > i32::MAX as i64 {
        i32::MAX
    } else if v < i32::MIN as i64 {
        i32::MIN
    } else {
        v as i32
    }
}

/// `len` as an `i32`, or `None` if it does not fit.
pub open spec fn len_as_i32(len: int) -> Option<int> {
    if len <= i32::MAX {
        Some(len)
    } else {
        None
    }
}

/// The sum of the values, which adds up without leaving the `i32` range.
pub fn sum_exp(exps: &Vec<i32>) -> (s: i32)
    requires
        prefix_sums_fit(exps@),
    ensures
        s == sum_of(exps@),
{
    let mut s: i32 = 0;
    let mut i: usize = 0;
    while i < exps.len()
        invariant
            i <= exps.len(),
            prefix_sums_fit(exps@),
            s == sum_of(exps@.take(i as int)),
        decreases exps.len() - i,
    {
        assert(exps@.take(i + 1).drop_last() =~= exps@.take(i as int));
        assert(fits_i32(sum_of(exps@.take(i + 1))));
        s = s + exps[i];
        i += 1;
    }
    assert(exps@.take(exps.len() as int) =~= exps@);
    s
}

/// The sum of the flagged values, which adds up without leaving the `i32` range.
pub fn sum_flagged_exp(exps: &Vec<i32>, flags: &Vec<bool>) -> (s: i32)
    requires
        flags.len() == exps.len(),
        flagged_sums_fit(exps@, flags@),
    ensures
        s == sum_flagged(exps@, flags@),
{
    let mut s: i32 = 0;
    let mut i: usize = 0;
    while i < exps.len()
        invariant
            i <= exps.len() == flags.len(),
            flagged_sums_fit(exps@, flags@),
            s == sum_flagged(exps@.take(i as int), flags@.take(i as int)),
        decreases exps.len() - i,
    {
        assert(exps@.take(i + 1).drop_last() =~= exps@.take(i as int));
        assert(flags@.take(i + 1).take(i as int) =~= flags@.take(i as int));
        assert(fits_i32(sum_flagged(exps@.take(i + 1), flags@.take(i + 1))));
        if flags[i] {
            s = s + exps[i];
        }
        i += 1;
    }
    assert(exps@.take(exps.len() as int) =~= exps@);
    assert(flags@.take(flags.len() as int) =~= flags@);
    s
}

/// Number of set flags, as an `i32` (0 where it does not fit).
pub fn count_flagged_or_zero(flags: &Vec<bool>) -> (c: i32)
    ensures
        c == (match len_as_i32(count_flagged(flags@)) {
            Some(v) => v,
            None => 0,
        }),
{
    let mut c: usize = 0;
    let mut i: usize = 0;
    while i < flags.len()
        invariant
            i <= flags.len(),
            c == count_flagged(flags@.take(i as int)),
            c <= i,
        decreases flags.len() - i,
    {
        assert(flags@.take(i + 1).drop_last() =~= flags@.take(i as int));
        if flags[i] {
            c = c + 1;
        }
        i += 1;
    }
    assert(flags@.take(flags.len() as int) =~= flags@);
    if c <= i32::MAX as usize {
        c as i32
    } else {
        0
    }
}

/// A length as an `i32`, or `default` where it does not fit.
pub fn len_to_i32_or(len: usize, default: i32) -> (v: i32)
    ensures
        v == (match len_as_i32(len as int) {
            Some(x) => x,
            None => default as int,
        }),
{
    if len <= i32::MAX as usize {
        len as i32
    } else {
        default
    }
}

/// The flagged values added with saturation, and the number of flagged
/// values added with saturation.
pub fn saturating_day_totals(exps: &Vec<i32>, flags: &Vec<bool>) -> (r: (i32, i32))
    requires
        flags.len() == exps.len(),
    ensures
        r.0 == saturating_sum_flagged(exps@, flags@),
        r.1 == saturate_i32(count_flagged(flags@)),
        flagged_sums_fit(exps@, flags@) ==> r.0 == sum_flagged(exps@, flags@),
{
    let mut total: i32 = 0;
    let mut count: i32 = 0;
    let mut i: usize = 0;
    while i < exps.len()
        invariant
            i <= exps.len() == flags.len(),
            total == saturating_sum_flagged(exps@.take(i as int), flags@.take(i as int)),
            count == saturate_i32(count_flagged(flags@.take(i as int))),
            count_flagged(flags@.take(i as int)) >= 0,
        decreases exps.len() - i,
    {
        assert(exps@.take(i + 1).drop_last() =~= exps@.take(i as int));
        assert(flags@.take(i + 1).take(i as int) =~= flags@.take(i as int));
        assert(flags@.take(i + 1).drop_last() =~= flags@.take(i as int));
        if flags[i] {
            total = saturating_add_i32(total, exps[i]);
            count = saturating_add_i32(count, 1);
        }
        i += 1;
    }
    assert(exps@.take(exps.len() as int) =~= exps@);
    assert(flags@.take(flags.len() as int) =~= flags@);
    proof {
        if flagged_sums_fit(exps@, flags@) {
            lemma_saturating_flagged_exact(exps@, flags@);
        }
    }
    (total, count)
}

/// The values added with saturation at the `i32` bounds.
pub fn saturating_sum_exp(exps: &Vec<i32>) -> (s: i32)
    ensures
        s == saturating_sum(exps@),
{
    let mut s: i32 = 0;
    let mut i: usize = 0;
    while i < exps.len()
        invariant
            i <= exps.len(),
            s == saturating_sum(exps@.take(i as int)),
        decreases exps.len() - i,
    {
        assert(exps@.take(i + 1).drop_last() =~= exps@.take(i as int));
        s = saturating_add_i32(s, exps[i]);
        i += 1;
    }
    assert(exps@.take(exps.len() as int) =~= exps@);
    s
}

/// The completion flag of each quest id: whether it is among the completed ids.
pub fn completion_flags(quest_ids: &Vec<i64>, completed_ids: &Vec<i64>) -> (r: Vec<bool>)
    ensures
        r.len() == quest_ids.len(),
        forall|i: int| 0 <= i < r.len() ==> r[i] == completed_ids@.contains(#[trigger] quest_ids[i]),
{
    let mut r: Vec<bool> = Vec::new();
    let mut i: usize = 0;
    while i < quest_ids.len()
        invariant
            i <= quest_ids.len(),
            r.len() == i,
            forall|k: int| 0 <= k < i ==> r[k] == completed_ids@.contains(#[trigger] quest_ids[k]),
        decreases quest_ids.len() - i,
    {
        let id = quest_ids[i];
        let mut found = false;
        let mut j: usize = 0;
        while j < completed_ids.len()
            invariant
                j <= completed_ids.len(),
                found == exists|k: int| 0 <= k < j && completed_ids[k] == id,
            decreases completed_ids.len() - j,
        {
            if completed_ids[j] == id {
                found = true;
            }
            j += 1;
        }
        proof {
            if found {
                let k = choose|k: int| 0 <= k < completed_ids.len() && completed_ids[k] == id;
                assert(completed_ids@[k] == id);
            }
        }
        r.push(found);
        i += 1;
    }
    r
}

/// Why the week's statistics could not be computed.
#[derive(Debug, Clone, Copy, PartialEq, Eq, Structural)]
pub enum StatsError {
    /// Today's earned EXP does not fit in an `i32`.
    ExpTodayOverflow,
    /// The EXP of all active quests does not fit in an `i32`.
    WeekExpMaxOverflow,
}

/// The statistics of today and of the week (get_week_stats): today's quests
/// have EXP values `exps` and completion flags `completed`; `week_exp` is the
/// EXP earned this week and `week_exp_max_raw` the EXP of all active quests.
pub fn week_stats(exps: &Vec<i32>, completed: &Vec<bool>, week_exp: i32, week_exp_max_raw: i64) -> (r:
    Result<QuestStats, StatsError>)
    requires
        completed.len() == exps.len(),
        exps.len() <= i32::MAX,
        prefix_sums_fit(exps@),
    ensures
        r is Ok <==> flagged_sums_fit(exps@, completed@) && fits_i32(week_exp_max_raw as int),
        r matches Ok(st) ==> st == (QuestStats {
            exp_today: sum_flagged(exps@, completed@) as i32,
            exp_today_max: sum_of(exps@) as i32,
            quests_completed: count_flagged(completed@) as i32,
            quests_total: exps.len() as i32,
            week_exp,
            week_exp_max: week_exp_max_raw as i32,
        }),
        r matches Err(e) ==> e == (if !flagged_sums_fit(exps@, completed@) {
            StatsError::ExpTodayOverflow
        } else {
            StatsError::WeekExpMaxOverflow
        }),
{
    let exp_today_max = sum_exp(exps);
    let quests_total = len_to_i32_or(exps.len(), i32::MAX);
    let mut exp_today: i32 = 0;
    let mut quests_completed: i32 = 0;
    let mut i: usize = 0;
    while i < exps.len()
        invariant
            i <= exps.len() == completed.len() <= i32::MAX,
            forall|k: int|
                0 <= k <= i ==> fits_i32(#[trigger] sum_flagged(exps@.take(k), completed@.take(k))),
            exp_today == sum_flagged(exps@.take(i as int), completed@.take(i as int)),
            quests_completed == count_flagged(completed@.take(i as int)),
            0 <= quests_completed <= i,
        decreases exps.len() - i,
    {
        assert(exps@.take(i + 1).drop_last() =~= exps@.take(i as int));
        assert(completed@.take(i + 1).take(i as int) =~= completed@.take(i as int));
        assert(completed@.take(i + 1).drop_last() =~= completed@.take(i as int));
        if completed[i] {
            match exp_today.checked_add(exps[i]) {
                Some(v) => exp_today = v,
                None => {
                    proof {
                        assert(!fits_i32(sum_flagged(exps@.take(i + 1), completed@.take(i + 1))));
                    }
                    return Err(StatsError::ExpTodayOverflow);
                },
            }
            quests_completed = quests_completed + 1;
        }
        i += 1;
    }
    assert(exps@.take(exps.len() as int) =~= exps@);
    assert(completed@.take(completed.len() as int) =~= completed@);
    if week_exp_max_raw < i32::MIN as i64 || week_exp_max_raw > i32::MAX as i64 {
        return Err(StatsError::WeekExpMaxOverflow);
    }
    Ok(
        QuestStats {
            exp_today,
            exp_today_max,
            quests_completed,
            quests_total,
            week_exp,
            week_exp_max: week_exp_max_raw as i32,
        },
    )
}

/// The statistics shown when the week's statistics cannot be loaded: today's
/// EXP and counts from the displayed quests, and no week data.
pub fn fallback_stats(exps: &Vec<i32>, completed: &Vec<bool>) -> (st: QuestStats)
    requires
        completed.len() == exps.len(),
        prefix_sums_fit(exps@),
        flagged_sums_fit(exps@, completed@),
    ensures
        st.exp_today == sum_flagged(exps@, completed@),
        st.exp_today_max == sum_of(exps@),
        st.week_exp == 0,
        st.week_exp_max == 0,
        st.quests_completed == (match len_as_i32(count_flagged(completed@)) {
            Some(v) => v,
            None => 0,
        }),
        st.quests_total == (match len_as_i32(exps.len() as int) {
            Some(v) => v,
            None => 0,
        }),
{
    QuestStats {
        exp_today: sum_flagged_exp(exps, completed),
        exp_today_max: sum_exp(exps),
        week_exp: 0,
        week_exp_max: 0,
        quests_completed: count_flagged_or_zero(completed),
        quests_total: len_to_i32_or(exps.len(), 0),
    }
}

/// `value` as an `i32`, or `i32::MAX` where it does not fit.
pub open spec fn capped(value: int) -> int {
    if fits_i32(value) {
        value
    } else {
        i32::MAX as int
    }
}

/// `value` as an `i32`, or `i32::MAX` where it does not fit.
pub fn capped_i32(value: i64) -> (r: i32)
    ensures
        r == capped(value as int),
{
    if value >= i32::MIN as i64 && value <= i32::MAX as i64 {
        value as i32
    } else {
        i32::MAX
    }
}

/// The highscore aggregates from the stored totals: EXP of all completions,
/// number of completions, of claims and of champion weeks, each capped.
pub fn highscore_stats(total_exp: i64, completions: i64, claims: i64, champions: i64) -> (h:
    HighscoreStats)
    ensures
        h.total_exp == capped(total_exp as int),
        h.quests_completed == capped(completions as int),
        h.rewards_claimed == capped(claims as int),
        h.weekly_champions == capped(champions as int),
{
    HighscoreStats {
        total_exp: capped_i32(total_exp),
        quests_completed: capped_i32(completions),
        rewards_claimed: capped_i32(claims),
        weekly_champions: capped_i32(champions),
    }
}

/// The EXP offered in a week: each day's EXP sum added with saturation.
pub fn week_exp_max_of(days: &Vec<Vec<i32>>) -> (s: i32)
    requires
        forall|d: int| 0 <= d < days.len() ==> prefix_sums_fit(#[trigger] days[d]@),
    ensures
        s == saturating_sum(days@.map_values(|v: Vec<i32>| sum_of(v@) as i32)),
{
    let ghost sums = days@.map_values(|v: Vec<i32>| sum_of(v@) as i32);
    let mut s: i32 = 0;
    let mut i: usize = 0;
    while i < days.len()
        invariant
            i <= days.len(),
            sums == days@.map_values(|v: Vec<i32>| sum_of(v@) as i32),
            forall|d: int| 0 <= d < days.len() ==> prefix_sums_fit(#[trigger] days[d]@),
            s == saturating_sum(sums.take(i as int)),
        decreases days.len() - i,
    {
        let day_sum = sum_exp(&days[i]);
        assert(sums.take(i + 1).drop_last() =~= sums.take(i as int));
        s = saturating_add_i32(s, day_sum);
        i += 1;
    }
    assert(sums.take(days.len() as int) =~= sums);
    s
}

// ---------------------------------------------------------------------------
// Toggling a quest's completion

/// Where a toggle of a quest's completion on a date stands.
#[derive(Debug, Clone, Copy, PartialEq, Eq, Structural)]
pub enum ToggleStep {
    /// Nothing done yet.
    Start,
    /// Waiting to learn whether the quest exists.
    AwaitQuest,
    /// Waiting to learn whether the quest is completed on the date.
    AwaitCompleted,
    /// Waiting for the completion to be removed.
    AwaitDelete,
    /// Waiting for the completion to be recorded.
    AwaitInsert,
    /// Finished with a result.
    Done(ToggleResult),
    /// Finished: the quest does not exist.
    NotFound,
}

/// What was learnt since the last step.
#[derive(Debug, Clone, Copy, PartialEq, Eq, Structural)]
pub enum ToggleEvent {
    /// The toggle begins.
    Started,
    /// Whether the quest exists.
    QuestLoaded(bool),
    /// Whether the quest is completed on the date.
    CompletedLoaded(bool),
    /// The completion was removed.
    Deleted,
    /// The completion was recorded.
    Inserted,
    /// The store refused the completion as a duplicate (recorded concurrently).
    InsertRejectedAsDuplicate,
}

/// What to do next.
#[derive(Debug, Clone, Copy, PartialEq, Eq, Structural)]
pub enum ToggleAction {
    /// Look the quest up.
    LoadQuest,
    /// Check whether the quest is completed on the date.
    CheckCompleted,
    /// Remove the completion of the date.
    DeleteCompletion,
    /// Record a completion on the date.
    InsertCompletion,
    /// Stop with the result.
    Finish(ToggleResult),
    /// Stop: the quest does not exist.
    FailNotFound,
}

/// The next step and action of a toggle.
pub open spec fn toggle_transition(step: ToggleStep, event: ToggleEvent) -> (ToggleStep, ToggleAction) {
    match (step, event) {
        (ToggleStep::Start, _) => (ToggleStep::AwaitQuest, ToggleAction::LoadQuest),
        (ToggleStep::AwaitQuest, ToggleEvent::QuestLoaded(exists)) => if exists {
            (ToggleStep::AwaitCompleted, ToggleAction::CheckCompleted)
        } else {
            (ToggleStep::NotFound, ToggleAction::FailNotFound)
        },
        (ToggleStep::AwaitCompleted, ToggleEvent::CompletedLoaded(done)) => if done {
            (ToggleStep::AwaitDelete, ToggleAction::DeleteCompletion)
        } else {
            (ToggleStep::AwaitInsert, ToggleAction::InsertCompletion)
        },
        (ToggleStep::AwaitDelete, _) => (
            ToggleStep::Done(ToggleResult::NewlyUncompleted),
            ToggleAction::Finish(ToggleResult::NewlyUncompleted),
        ),
        (ToggleStep::AwaitInsert, ToggleEvent::Inserted) => (
            ToggleStep::Done(ToggleResult::NewlyCompleted),
            ToggleAction::Finish(ToggleResult::NewlyCompleted),
        ),
        (ToggleStep::AwaitInsert, _) => (
            ToggleStep::Done(ToggleResult::NoChange),
            ToggleAction::Finish(ToggleResult::NoChange),
        ),
        (ToggleStep::Done(r), _) => (step, ToggleAction::Finish(r)),
        (ToggleStep::NotFound, _) => (step, ToggleAction::FailNotFound),
        (_, _) => (step, ToggleAction::LoadQuest),
    }
}

/// The event answers what the step waits for.
pub open spec fn toggle_event_fits(step: ToggleStep, event: ToggleEvent) -> bool {
    match step {
        ToggleStep::Start => event == ToggleEvent::Started,
        ToggleStep::AwaitQuest => event is QuestLoaded,
        ToggleStep::AwaitCompleted => event is CompletedLoaded,
        ToggleStep::AwaitDelete => event == ToggleEvent::Deleted,
        ToggleStep::AwaitInsert => event == ToggleEvent::Inserted || event
            == ToggleEvent::InsertRejectedAsDuplicate,
        _ => false,
    }
}

/// One step of toggling a quest's completion on a date
/// (toggle_quest_completion): a missing quest fails; a completed quest loses
/// its completion; otherwise a completion is recorded, and a duplicate refused
/// by the store means another request recorded it first.
pub fn toggle_step(step: ToggleStep, event: ToggleEvent) -> (r: (ToggleStep, ToggleAction))
    requires
        toggle_event_fits(step, event),
    ensures
        r == toggle_transition(step, event),
{
    match (step, event) {
        (ToggleStep::Start, _) => (ToggleStep::AwaitQuest, ToggleAction::LoadQuest),
        (ToggleStep::AwaitQuest, ToggleEvent::QuestLoaded(exists)) => {
            if exists {
                (ToggleStep::AwaitCompleted, ToggleAction::CheckCompleted)
            } else {
                (ToggleStep::NotFound, ToggleAction::FailNotFound)
            }
        },
        (ToggleStep::AwaitCompleted, ToggleEvent::CompletedLoaded(done)) => {
            if done {
                (ToggleStep::AwaitDelete, ToggleAction::DeleteCompletion)
            } else {
                (ToggleStep::AwaitInsert, ToggleAction::InsertCompletion)
            }
        },
        (ToggleStep::AwaitDelete, _) => (
            ToggleStep::Done(ToggleResult::NewlyUncompleted),
            ToggleAction::Finish(ToggleResult::NewlyUncompleted),
        ),
        (ToggleStep::AwaitInsert, ToggleEvent::Inserted) => (
            ToggleStep::Done(ToggleResult::NewlyCompleted),
            ToggleAction::Finish(ToggleResult::NewlyCompleted),
        ),
        (ToggleStep::AwaitInsert, _) => (
            ToggleStep::Done(ToggleResult::NoChange),
            ToggleAction::Finish(ToggleResult::NoChange),
        ),
        (ToggleStep::Done(r), _) => (step, ToggleAction::Finish(r)),
        (ToggleStep::NotFound, _) => (step, ToggleAction::FailNotFound),
        (_, _) => (step, ToggleAction::LoadQuest),
    }
}

/// The result of toggling an existing quest that is (or is not) completed,
/// when no other request interferes.
pub open spec fn toggle_result_of(completed: bool) -> ToggleResult {
    let s1 = toggle_transition(ToggleStep::Start, ToggleEvent::Started);
    let s2 = toggle_transition(s1.0, ToggleEvent::QuestLoaded(true));
    let s3 = toggle_transition(s2.0, ToggleEvent::CompletedLoaded(completed));
    let ev = if completed {
        ToggleEvent::Deleted
    } else {
        ToggleEvent::Inserted
    };
    match toggle_transition(s3.0, ev).0 {
        ToggleStep::Done(r) => r,
        _ => ToggleResult::NoChange,
    }
}

/// Whether the quest is completed after a toggle with the given result.
pub open spec fn completed_after(result: ToggleResult) -> bool {
    match result {
        ToggleResult::NewlyCompleted => true,
        ToggleResult::NewlyUncompleted => false,
        ToggleResult::NoChange => true,
    }
}

/// Toggling flips a quest's completion, and toggling twice restores it.
pub proof fn lemma_toggle_flips(completed: bool)
    ensures
        completed_after(toggle_result_of(completed)) == !completed,
        completed_after(toggle_result_of(completed_after(toggle_result_of(completed))))
            == completed,
        toggle_result_of(completed) == (if completed {
            ToggleResult::NewlyUncompleted
        } else {
            ToggleResult::NewlyCompleted
        }),
{
}

/// Toggling a quest that does not exist changes nothing and fails.
pub proof fn lemma_toggle_missing_quest_fails()
    ensures
        toggle_transition(
            toggle_transition(ToggleStep::Start, ToggleEvent::Started).0,
            ToggleEvent::QuestLoaded(false),
        ) == (ToggleStep::NotFound, ToggleAction::FailNotFound),
{
}

/// Where adding the flagged values one by one stays within `i32`, the
/// saturating sum of the flagged values is their exact sum.
pub proof fn lemma_saturating_flagged_exact(exps: Seq<i32>, flags: Seq<bool>)
    requires
        flags.len() == exps.len(),
        flagged_sums_fit(exps, flags),
    ensures
        saturating_sum_flagged(exps, flags) == sum_flagged(exps, flags),
{
    lemma_saturating_flagged_exact_prefix(exps, flags, exps.len() as int);
    assert(exps.take(exps.len() as int) =~= exps);
    assert(flags.take(exps.len() as int) =~= flags);
}

proof fn lemma_saturating_flagged_exact_prefix(exps: Seq<i32>, flags: Seq<bool>, k: int)
    requires
        flags.len() == exps.len(),
        flagged_sums_fit(exps, flags),
        0 <= k <= exps.len(),
    ensures
        saturating_sum_flagged(exps.take(k), flags.take(k)) == sum_flagged(exps.take(k), flags.take(k)),
    decreases k,
{
    if k > 0 {
        lemma_saturating_flagged_exact_prefix(exps, flags, k - 1);
        assert(exps.take(k).drop_last() =~= exps.take(k - 1));
        assert(flags.take(k).take(k - 1) =~= flags.take(k - 1));
        assert(fits_i32(sum_flagged(exps.take(k), flags.take(k))));
    }
}

/// Only the flagged values count: two lists of values that agree wherever
/// the flag is set have the same saturating sum of flagged values, whatever
/// the unflagged values are.
pub proof fn lemma_unflagged_values_never_count(a: Seq<i32>, b: Seq<i32>, flags: Seq<bool>)
    requires
        a.len() == b.len() == flags.len(),
        forall|i: int| 0 <= i < flags.len() && #[trigger] flags[i] ==> a[i] == b[i],
    ensures
        saturating_sum_flagged(a, flags) == saturating_sum_flagged(b, flags),
        sum_flagged(a, flags) == sum_flagged(b, flags),
    decreases a.len(),
{
    if a.len() > 0 {
        let n = a.len() - 1;
        let f = flags.take(n as int);
        assert forall|i: int| 0 <= i < f.len() && #[trigger] f[i] implies a.drop_last()[i] == b.drop_last()[i] by {
            assert(flags[i]);
        }
        lemma_unflagged_values_never_count(a.drop_last(), b.drop_last(), f);
        if flags[n as int] {
            assert(a[n as int] == b[n as int]);
        }
    }
}

/// A day on which no quest is completed earns nothing: with no flag set,
/// the saturating sum of flagged values is 0.
pub proof fn lemma_nothing_flagged_earns_nothing(exps: Seq<i32>, flags: Seq<bool>)
    requires
        flags.len() == exps.len(),
        forall|i: int| 0 <= i < flags.len() ==> !#[trigger] flags[i],
    ensures
        saturating_sum_flagged(exps, flags) == 0,
        sum_flagged(exps, flags) == 0,
    decreases exps.len(),
{
    if exps.len() > 0 {
        let f = flags.take(exps.len() - 1);
        assert forall|i: int| 0 <= i < f.len() implies !#[trigger] f[i] by {
            assert(!flags[i]);
        }
        lemma_nothing_flagged_earns_nothing(exps.drop_last(), f);
        assert(!flags[exps.len() - 1]);
    }
}

} // verus!
