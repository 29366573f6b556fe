//! Profile reads and the two fields computed at read time: total XP as
//! the sum of completed lessons' rewards, and the level as one more
//! than that total divided by a thousand. Also the statistics,
//! achievement and profile-patch planners.
//!
//! The sums accumulate in 32 bits, two's complement, wrapping. A law
//! below says the wrapped total is the plain sum whenever every step
//! stays in range.

use vstd::prelude::*;
use vstd::arithmetic::div_mod::lemma_fundamental_div_mod;
use crate::strutil::{concat2, concat3};
use crate::types::{HttpMethod, RestBody, RestPlan, UserProfile, UserProgress, UserStatistics};

verus! {

/// The query that reads one profile row.
pub fn profile_query_plan(user_id: &str) -> (r: RestPlan)
    ensures
        r.method == HttpMethod::Get,
        r.endpoint@ == "profiles?select=*&id=eq."@ + user_id@,
        r.body is None,
{
    RestPlan {
        method: HttpMethod::Get,
        endpoint: concat2("profiles?select=*&id=eq.", user_id),
        body: None,
    }
}

/// The query that lists, for one user's completed lessons, the XP
/// reward embedded from each lesson row.
pub fn completed_xp_plan(user_id: &str) -> (r: RestPlan)
    ensures
        r.method == HttpMethod::Get,
        r.endpoint@ == "user_progress?select=lesson_id,lessons(xp_reward)&user_id=eq."@ + user_id@
            + "&status=eq.completed"@,
        r.body is None,
{
    RestPlan {
        method: HttpMethod::Get,
        endpoint: concat3(
            "user_progress?select=lesson_id,lessons(xp_reward)&user_id=eq.",
            user_id,
            "&status=eq.completed",
        ),
        body: None,
    }
}

/// The query that lists one user's completed progress rows whole.
pub fn completed_progress_plan(user_id: &str) -> (r: RestPlan)
    ensures
        r.method == HttpMethod::Get,
        r.endpoint@ == "user_progress?select=*&user_id=eq."@ + user_id@ + "&status=eq.completed"@,
        r.body is None,
{
    RestPlan {
        method: HttpMethod::Get,
        endpoint: concat3("user_progress?select=*&user_id=eq.", user_id, "&status=eq.completed"),
        body: None,
    }
}

/// The query that lists one user's earned achievements with each
/// achievement row embedded.
pub fn user_achievements_plan(user_id: &str) -> (r: RestPlan)
    ensures
        r.method == HttpMethod::Get,
        r.endpoint@ == "user_achievements?select=*,achievements(*)&user_id=eq."@ + user_id@,
        r.body is None,
{
    RestPlan {
        method: HttpMethod::Get,
        endpoint: concat2("user_achievements?select=*,achievements(*)&user_id=eq.", user_id),
        body: None,
    }
}

/// The query that lists every achievement there is.
pub fn available_achievements_plan() -> (r: RestPlan)
    ensures
        r.method == HttpMethod::Get,
        r.endpoint@ == "achievements?select=*"@,
        r.body is None,
{
    RestPlan { method: HttpMethod::Get, endpoint: "achievements?select=*".to_owned(), body: None }
}

/// The patch that points a profile at a new avatar.
pub fn update_user_avatar_plan(user_id: &str, avatar_url: String) -> (r: RestPlan)
    ensures
        r.method == HttpMethod::Patch,
        r.endpoint@ == "profiles?id=eq."@ + user_id@,
        r.body == Some(RestBody::AvatarUpdate { avatar_url }),
{
    RestPlan {
        method: HttpMethod::Patch,
        endpoint: concat2("profiles?id=eq.", user_id),
        body: Some(RestBody::AvatarUpdate { avatar_url }),
    }
}

/// The patch that renames a profile.
pub fn update_user_username_plan(user_id: &str, username: String) -> (r: RestPlan)
    ensures
        r.method == HttpMethod::Patch,
        r.endpoint@ == "profiles?id=eq."@ + user_id@,
        r.body == Some(RestBody::UsernameUpdate { username }),
{
    RestPlan {
        method: HttpMethod::Patch,
        endpoint: concat2("profiles?id=eq.", user_id),
        body: Some(RestBody::UsernameUpdate { username }),
    }
}

/// The profile row a single-id query returned, or `Profile not found`.
pub fn profile_row_result(rows: Vec<UserProfile>) -> (r: Result<UserProfile, String>)
    ensures
        rows@.len() == 0 ==> (r matches Err(e) && e@ == "Profile not found"@),
        rows@.len() > 0 ==> (r matches Ok(p) && p == rows@[0]),
{
    crate::commands::first_row(rows, "Profile not found")
}

/// One accumulation step of the XP total: a row whose embedded reward
/// parsed contributes it, narrowed to 32 bits; a row without one
/// contributes nothing.
pub open spec fn xp_step(total: i32, xp: Option<i64>) -> i32 {
    match xp {
        Some(v) => total.wrapping_add(v as i32),
        None => total,
    }
}

/// The XP total of a list of reward entries, accumulated left to right.
pub open spec fn spec_total_xp(rows: Seq<Option<i64>>) -> i32
    decreases rows.len(),
{
    if rows.len() == 0 {
        0i32
    } else {
        xp_step(spec_total_xp(rows.drop_last()), rows.last())
    }
}

/// Division that rounds toward zero, as the hardware divides.
pub open spec fn spec_trunc_div(x: int, d: int) -> int {
    if x >= 0 {
        x / d
    } else {
        -((-x) / d)
    }
}

/// The level a total makes: one more than the total divided by a
/// thousand.
pub open spec fn spec_level(total: i32) -> int {
    spec_trunc_div(total as int, 1000) + 1
}

/// Compute the level of a total.
pub fn level_from_xp(total: i32) -> (r: i32)
    ensures
        r as int == spec_level(total),
{
    if total >= 0 {
        let q: u32 = (total as u32) / 1000;
        proof {
            lemma_fundamental_div_mod(total as int, 1000);
        }
        (q as i32) + 1
    } else {
        let m: u32 = (-(total as i64)) as u32;
        let q: u32 = m / 1000;
        proof {
            lemma_fundamental_div_mod(m as int, 1000);
        }
        -(q as i32) + 1
    }
}

/// Seconds, whole minutes: divided by sixty, rounded toward zero.
pub fn minutes_from_seconds(total: i32) -> (r: i32)
    ensures
        r as int == spec_trunc_div(total as int, 60),
{
    if total >= 0 {
        let q: u32 = (total as u32) / 60;
        proof {
            lemma_fundamental_div_mod(total as int, 60);
        }
        q as i32
    } else {
        let m: u32 = (-(total as i64)) as u32;
        let q: u32 = m / 60;
        proof {
            lemma_fundamental_div_mod(m as int, 60);
        }
        -(q as i32)
    }
}

/// Sum the reward entries, wrapping, left to right.
fn total_xp_of(rows: &Vec<Option<i64>>) -> (r: i32)
    ensures
        r == spec_total_xp(rows@),
{
    let mut total: i32 = 0;
    let mut i: usize = 0;
    while i < rows.len()
        invariant
            i <= rows@.len(),
            total == spec_total_xp(rows@.take(i as int)),
        decreases rows@.len() - i,
    {
        proof {
            assert(rows@.take(i + 1).drop_last() =~= rows@.take(i as int));
            assert(rows@.take(i + 1).last() == rows@[i as int]);
        }
        if let Some(v) = rows[i] {
            total = total.wrapping_add(#[verifier::truncate] (v as i32));
        }
        i = i + 1;
    }
    proof {
        assert(rows@.take(rows@.len() as int) =~= rows@);
    }
    total
}

/// The profile as the caller sees it: the stored fields as they came,
/// and the two computed ones filled in — the XP total of the completed
/// lessons' rewards, and the level that total makes.
pub fn get_user_profile(profile: UserProfile, completed_xp: Vec<Option<i64>>) -> (r: UserProfile)
    ensures
        r.id == profile.id && r.email == profile.email && r.username == profile.username
            && r.avatar_url == profile.avatar_url,
        r.total_xp matches Some(t) && t == spec_total_xp(completed_xp@),
        r.level matches Some(lv) && lv as int == spec_level(spec_total_xp(completed_xp@)),
{
    let total = total_xp_of(&completed_xp);
    let level = level_from_xp(total);
    UserProfile {
        id: profile.id,
        email: profile.email,
        username: profile.username,
        avatar_url: profile.avatar_url,
        total_xp: Some(total),
        level: Some(level),
    }
}

/// One accumulation step of the time total: a row that recorded time
/// contributes its seconds; one that did not contributes nothing.
pub open spec fn seconds_step(total: i32, t: Option<i32>) -> i32 {
    match t {
        Some(v) => total.wrapping_add(v),
        None => total,
    }
}

/// The seconds total of a list of progress rows, accumulated left to
/// right.
pub open spec fn spec_total_seconds(rows: Seq<UserProgress>) -> i32
    decreases rows.len(),
{
    if rows.len() == 0 {
        0i32
    } else {
        seconds_step(spec_total_seconds(rows.drop_last()), rows.last().time_spent_seconds)
    }
}

/// The statistics of a user's completed lessons: how many there are,
/// and their recorded time as whole minutes. Course completion is not
/// computed and reads zero.
pub fn get_user_statistics(completed: Vec<UserProgress>) -> (r: UserStatistics)
    ensures
        r.total_lessons_completed == completed@.len(),
        r.total_courses_completed == 0,
        r.total_minutes_spent as int == spec_trunc_div(
            spec_total_seconds(completed@) as int,
            60,
        ),
{
    let mut total: i32 = 0;
    let mut i: usize = 0;
    while i < completed.len()
        invariant
            i <= completed@.len(),
            total == spec_total_seconds(completed@.take(i as int)),
        decreases completed@.len() - i,
    {
        proof {
            assert(completed@.take(i + 1).drop_last() =~= completed@.take(i as int));
            assert(completed@.take(i + 1).last() == completed@[i as int]);
        }
        if let Some(v) = completed[i].time_spent_seconds {
            total = total.wrapping_add(v);
        }
        i = i + 1;
    }
    proof {
        assert(completed@.take(completed@.len() as int) =~= completed@);
    }
    UserStatistics {
        total_lessons_completed: completed.len(),
        total_courses_completed: 0,
        total_minutes_spent: minutes_from_seconds(total),
    }
}

/// The plain (unbounded) XP sum of a list of reward entries.
pub open spec fn plain_xp_sum(rows: Seq<Option<i64>>) -> int
    decreases rows.len(),
{
    if rows.len() == 0 {
        0
    } else {
        plain_xp_sum(rows.drop_last()) + (match rows.last() {
            Some(v) => v as int,
            None => 0int,
        })
    }
}

/// Law: when every reward fits in 32 bits and every left-to-right
/// partial sum stays in range, the wrapped XP total is exactly the
/// plain sum of the rewards.
pub proof fn lemma_total_xp_plain(rows: Seq<Option<i64>>)
    requires
        forall|i: int|
            0 <= i < rows.len() ==> (#[trigger] rows[i] matches Some(v) ==> i32::MIN <= v
                <= i32::MAX),
        forall|k: int|
            0 <= k <= rows.len() ==> i32::MIN <= plain_xp_sum(#[trigger] rows.take(k))
                <= i32::MAX,
    ensures
        spec_total_xp(rows) as int == plain_xp_sum(rows),
    decreases rows.len(),
{
    if rows.len() > 0 {
        let prefix = rows.drop_last();
        assert forall|i: int| 0 <= i < prefix.len() implies (#[trigger] prefix[i] matches Some(v)
            ==> i32::MIN <= v <= i32::MAX) by {
            assert(prefix[i] == rows[i]);
        }
        assert forall|k: int| 0 <= k <= prefix.len() implies i32::MIN <= plain_xp_sum(
            #[trigger] prefix.take(k),
        ) <= i32::MAX by {
            assert(prefix.take(k) =~= rows.take(k));
        }
        lemma_total_xp_plain(prefix);
        assert(rows.take(rows.len() - 1) =~= prefix);
        assert(rows.take(rows.len() as int) =~= rows);
    }
}

} // verus!
