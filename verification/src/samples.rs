//! The quests and rewards that a new database starts with.

use crate::models::{CreateQuestRequest, CreateRewardRequest};
use vstd::prelude::*;

verus! {

/// The sample quests: title, description, EXP value and day of the week
/// (0 = Sunday), two for each weekday, one for Saturday and one for Sunday.
pub open spec fn sample_quest(i: int) -> (Seq<char>, Seq<char>, i32, i32) {
    if i == 0 {
        ("Morning exercise"@, "Get your body moving for the day"@, 15, 1)
    } else if i == 1 {
        ("Read for 30 minutes"@, "Expand your knowledge"@, 20, 1)
    } else if i == 2 {
        ("Help with chores"@, "Contribute to household tasks"@, 10, 2)
    } else if i == 3 {
        ("Practice instrument"@, "Improve your musical skills"@, 25, 2)
    } else if i == 4 {
        ("Learn something new"@, "Discover a new topic or skill"@, 30, 3)
    } else if i == 5 {
        ("Call a friend"@, "Maintain social connections"@, 5, 3)
    } else if i == 6 {
        ("Organize workspace"@, "Create a productive environment"@, 15, 4)
    } else if i == 7 {
        ("Healthy meal prep"@, "Plan nutritious meals"@, 20, 4)
    } else if i == 8 {
        ("Meditation session"@, "Center your mind and spirit"@, 10, 5)
    } else if i == 9 {
        ("Review weekly goals"@, "Assess progress and plan ahead"@, 15, 5)
    } else if i == 10 {
        ("Weekend project"@, "Work on a personal project"@, 40, 6)
    } else {
        ("Family time"@, "Spend quality time with loved ones"@, 25, 0)
    }
}

/// The number of sample quests.
pub const SAMPLE_QUEST_COUNT: usize = 12;

/// The sample rewards: title, description and required EXP.
pub open spec fn sample_reward(i: int) -> (Seq<char>, Seq<char>, i32) {
    if i == 0 {
        ("Small treat"@, "Enjoy a favorite snack or small indulgence"@, 50)
    } else if i == 1 {
        ("Movie night"@, "Watch a movie or show you've been wanting to see"@, 100)
    } else {
        ("Weekend outing"@, "Plan a fun activity or trip"@, 200)
    }
}

/// The number of sample rewards.
pub const SAMPLE_REWARD_COUNT: usize = 3;

fn quest_request(title: &str, description: &str, exp_value: i32, day_of_week: i32) -> (r:
    CreateQuestRequest)
    ensures
        r.title@ == title@,
        r.description matches Some(d) && d@ == description@,
        r.exp_value == Some(exp_value),
        r.day_of_week == day_of_week,
{
    CreateQuestRequest {
        day_of_week,
        description: Some(String::from_str(description)),
        exp_value: Some(exp_value),
        title: String::from_str(title),
    }
}

fn reward_request(title: &str, description: &str, required_exp: i32) -> (r: CreateRewardRequest)
    ensures
        r.title@ == title@,
        r.description matches Some(d) && d@ == description@,
        r.required_exp == required_exp,
{
    CreateRewardRequest {
        description: Some(String::from_str(description)),
        required_exp,
        title: String::from_str(title),
    }
}

/// The sample quests, in order, as creation requests.
pub fn sample_quests() -> (v: Vec<CreateQuestRequest>)
    ensures
        v@.len() == SAMPLE_QUEST_COUNT,
        forall|i: int|
            0 <= i < v@.len() ==> {
                let (t, d, e, day) = sample_quest(i);
                &&& #[trigger] v@[i].title@ == t
                &&& v@[i].description matches Some(x) && x@ == d
                &&& v@[i].exp_value == Some(e)
                &&& v@[i].day_of_week == day
            },
{
    let mut v: Vec<CreateQuestRequest> = Vec::new();
    v.push(quest_request("Morning exercise", "Get your body moving for the day", 15, 1));
    v.push(quest_request("Read for 30 minutes", "Expand your knowledge", 20, 1));
    v.push(quest_request("Help with chores", "Contribute to household tasks", 10, 2));
    v.push(quest_request("Practice instrument", "Improve your musical skills", 25, 2));
    v.push(quest_request("Learn something new", "Discover a new topic or skill", 30, 3));
    v.push(quest_request("Call a friend", "Maintain social connections", 5, 3));
    v.push(quest_request("Organize workspace", "Create a productive environment", 15, 4));
    v.push(quest_request("Healthy meal prep", "Plan nutritious meals", 20, 4));
    v.push(quest_request("Meditation session", "Center your mind and spirit", 10, 5));
    v.push(quest_request("Review weekly goals", "Assess progress and plan ahead", 15, 5));
    v.push(quest_request("Weekend project", "Work on a personal project", 40, 6));
    v.push(quest_request("Family time", "Spend quality time with loved ones", 25, 0));
    v
}

/// The sample rewards, in order, as creation requests.
pub fn sample_rewards() -> (v: Vec<CreateRewardRequest>)
    ensures
        v@.len() == SAMPLE_REWARD_COUNT,
        forall|i: int|
            0 <= i < v@.len() ==> {
                let (t, d, e) = sample_reward(i);
                &&& #[trigger] v@[i].title@ == t
                &&& v@[i].description matches Some(x) && x@ == d
                &&& v@[i].required_exp == e
            },
{
    let mut v: Vec<CreateRewardRequest> = Vec::new();
    v.push(reward_request("Small treat", "Enjoy a favorite snack or small indulgence", 50));
    v.push(reward_request("Movie night", "Watch a movie or show you've been wanting to see", 100));
    v.push(reward_request("Weekend outing", "Plan a fun activity or trip", 200));
    v
}

/// A new database has a quest on every day of the week.
pub proof fn lemma_every_day_has_a_sample_quest(day: int)
    requires
        0 <= day < 7,
    ensures
        exists|i: int| 0 <= i < SAMPLE_QUEST_COUNT && (#[trigger] sample_quest(i)).3 == day,
{
    let i: int = if day == 0 {
        11
    } else if day == 6 {
        10
    } else {
        2 * day - 2
    };
    assert(sample_quest(i).3 == day);
}

} // verus!
