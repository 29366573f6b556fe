use coursedesk::profile::{
    available_achievements_plan, completed_progress_plan, completed_xp_plan, get_user_profile,
    get_user_statistics, level_from_xp, minutes_from_seconds, profile_query_plan,
    profile_row_result, update_user_avatar_plan, update_user_username_plan,
    user_achievements_plan,
};
use coursedesk::types::{HttpMethod, RestBody, UserProfile, UserProgress};

fn profile() -> UserProfile {
    UserProfile {
        id: "u-1".to_string(),
        email: Some("a@b.c".to_string()),
        username: Some("ania".to_string()),
        avatar_url: None,
        total_xp: None,
        level: None,
    }
}

fn completed(time: Option<i32>) -> UserProgress {
    UserProgress {
        id: Some("row-1".to_string()),
        user_id: "u-1".to_string(),
        lesson_id: "l-1".to_string(),
        status: "completed".to_string(),
        score: None,
        attempts: 1,
        completed_at: None,
        time_spent_seconds: time,
    }
}

#[test]
fn profile_plans_select_the_right_rows() {
    assert_eq!(profile_query_plan("u-1").endpoint, "profiles?select=*&id=eq.u-1");
    assert_eq!(
        completed_xp_plan("u-1").endpoint,
        "user_progress?select=lesson_id,lessons(xp_reward)&user_id=eq.u-1&status=eq.completed"
    );
    assert_eq!(
        completed_progress_plan("u-1").endpoint,
        "user_progress?select=*&user_id=eq.u-1&status=eq.completed"
    );
    assert_eq!(
        user_achievements_plan("u-1").endpoint,
        "user_achievements?select=*,achievements(*)&user_id=eq.u-1"
    );
    assert_eq!(available_achievements_plan().endpoint, "achievements?select=*");
}

#[test]
fn avatar_and_username_patches_carry_one_field() {
    let p = update_user_avatar_plan("u-1", "pic.png".to_string());
    assert_eq!(p.method, HttpMethod::Patch);
    assert_eq!(p.endpoint, "profiles?id=eq.u-1");
    match p.body {
        Some(RestBody::AvatarUpdate { avatar_url }) => assert_eq!(avatar_url, "pic.png"),
        _ => panic!("wrong body shape"),
    }
    let q = update_user_username_plan("u-1", "basia".to_string());
    assert_eq!(q.endpoint, "profiles?id=eq.u-1");
    match q.body {
        Some(RestBody::UsernameUpdate { username }) => assert_eq!(username, "basia"),
        _ => panic!("wrong body shape"),
    }
}

#[test]
fn missing_profile_is_reported() {
    assert_eq!(
        profile_row_result(Vec::new()).map(|p| p.id),
        Err("Profile not found".to_string())
    );
    let p = profile_row_result(vec![profile()]).unwrap();
    assert_eq!(p.id, "u-1");
}

#[test]
fn two_completed_lessons_make_total_and_level() {
    let p = get_user_profile(profile(), vec![Some(600), Some(500)]);
    assert_eq!(p.total_xp, Some(1100));
    assert_eq!(p.level, Some(2));
    assert_eq!(p.id, "u-1");
    assert_eq!(p.email.as_deref(), Some("a@b.c"));
    assert_eq!(p.username.as_deref(), Some("ania"));
}

#[test]
fn rows_without_a_reward_count_nothing() {
    let p = get_user_profile(profile(), vec![Some(600), None, Some(500), None]);
    assert_eq!(p.total_xp, Some(1100));
    assert_eq!(p.level, Some(2));
}

#[test]
fn no_completed_lessons_is_level_one() {
    let p = get_user_profile(profile(), Vec::new());
    assert_eq!(p.total_xp, Some(0));
    assert_eq!(p.level, Some(1));
}

#[test]
fn level_steps_at_each_thousand() {
    assert_eq!(level_from_xp(0), 1);
    assert_eq!(level_from_xp(999), 1);
    assert_eq!(level_from_xp(1000), 2);
    assert_eq!(level_from_xp(2500), 3);
    assert_eq!(level_from_xp(-1500), 0);
    assert_eq!(level_from_xp(i32::MAX), 2147484);
}

#[test]
fn minutes_round_toward_zero() {
    assert_eq!(minutes_from_seconds(0), 0);
    assert_eq!(minutes_from_seconds(59), 0);
    assert_eq!(minutes_from_seconds(181), 3);
    assert_eq!(minutes_from_seconds(-120), -2);
    assert_eq!(minutes_from_seconds(-61), -1);
}

#[test]
fn statistics_count_and_sum_completed_time() {
    let s = get_user_statistics(vec![
        completed(Some(120)),
        completed(None),
        completed(Some(61)),
    ]);
    assert_eq!(s.total_lessons_completed, 3);
    assert_eq!(s.total_courses_completed, 0);
    assert_eq!(s.total_minutes_spent, 3);
}

#[test]
fn statistics_of_nothing_are_zero() {
    let s = get_user_statistics(Vec::new());
    assert_eq!(s.total_lessons_completed, 0);
    assert_eq!(s.total_courses_completed, 0);
    assert_eq!(s.total_minutes_spent, 0);
}
