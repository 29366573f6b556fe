//! The data model: mirrors of the remote store's rows, the inputs that
//! create them, and the request descriptions the planners produce.
//!
//! Rows are held as plain values; the one structured-but-opaque field
//! (a lesson's content blob) is carried as its JSON text, never inspected.

use vstd::prelude::*;

verus! {

/// Caller-visible outcome of a sign-in or sign-up attempt.
#[derive(Debug, Clone)]
pub struct AuthResponse {
    pub success: bool,
    pub message: String,
    pub user_id: Option<String>,
    pub access_token: Option<String>,
    pub refresh_token: Option<String>,
}

/// Successful auth envelope returned by the signup and token endpoints.
#[derive(Debug, Clone)]
pub struct SupabaseAuthResponse {
    pub access_token: Option<String>,
    pub refresh_token: Option<String>,
    pub user: SupabaseUser,
}

/// The user part of the auth envelope.
#[derive(Debug, Clone)]
pub struct SupabaseUser {
    pub id: String,
    pub confirmation_sent_at: Option<String>,
}

/// Error envelope the auth endpoints return on a non-success status.
#[derive(Debug, Clone)]
pub struct SupabaseError {
    pub error: String,
    pub error_description: Option<String>,
}

/// One entry of a merged search: either a course or a lesson hit.
#[derive(Debug, Clone)]
pub struct SearchResult {
    pub result_type: String,
    pub id: String,
    pub title: String,
    pub description: Option<String>,
    pub course_name: Option<String>,
    pub module_name: Option<String>,
}

/// A course with its nested modules (populated only on a nested fetch).
#[derive(Debug, Clone)]
pub struct Course {
    pub id: String,
    pub title: String,
    pub description: String,
    pub difficulty: String,
    pub language: String,
    pub modules: Vec<Module>,
    pub color: String,
    pub order_index: i32,
    pub is_published: bool,
    pub estimated_hours: Option<i32>,
    pub icon_url: Option<String>,
}

/// A bare course row, as the store returns it from a mutation.
#[derive(Debug, Clone)]
pub struct CourseRow {
    pub id: String,
    pub title: String,
    pub description: String,
    pub difficulty: String,
    pub language: String,
    pub color: String,
    pub order_index: i32,
    pub is_published: bool,
    pub estimated_hours: Option<i32>,
    pub icon_url: Option<String>,
}

/// Fields a caller supplies to create a course.
#[derive(Debug, Clone)]
pub struct CreateCourseInput {
    pub title: String,
    pub description: String,
    pub difficulty: String,
    pub language: String,
    pub color: String,
    pub order_index: i32,
    pub is_published: bool,
    pub estimated_hours: Option<i32>,
    pub icon_url: Option<String>,
}

/// A module with its nested lessons (populated only on a nested fetch).
#[derive(Debug, Clone)]
pub struct Module {
    pub id: String,
    pub course_id: String,
    pub title: String,
    pub description: String,
    pub lessons: Vec<Lesson>,
    pub order_index: i32,
    pub icon_emoji: Option<String>,
}

/// A bare module row, as the store returns it from a mutation.
#[derive(Debug, Clone)]
pub struct ModuleRow {
    pub id: String,
    pub course_id: String,
    pub title: String,
    pub description: String,
    pub order_index: i32,
    pub icon_emoji: Option<String>,
}

/// Fields a caller supplies to create a module.
#[derive(Debug, Clone)]
pub struct CreateModuleInput {
    pub course_id: String,
    pub title: String,
    pub description: String,
    pub order_index: i32,
    pub icon_emoji: Option<String>,
}

/// A lesson row. `content` is an opaque structured blob whose schema is
/// not enforced locally; it is carried as its JSON text.
#[derive(Debug, Clone)]
pub struct Lesson {
    pub id: String,
    pub module_id: String,
    pub title: String,
    pub lesson_type: String,
    pub content: String,
    pub xp_reward: i32,
    pub order_index: i32,
    pub is_locked: bool,
    pub description: Option<String>,
    pub language: String,
    pub estimated_minutes: Option<i32>,
}

/// Fields a caller supplies to create a lesson.
#[derive(Debug, Clone)]
pub struct CreateLessonInput {
    pub module_id: String,
    pub title: String,
    pub lesson_type: String,
    pub content: String,
    pub xp_reward: i32,
    pub order_index: i32,
    pub is_locked: bool,
    pub description: Option<String>,
    pub language: String,
    pub estimated_minutes: Option<i32>,
}

/// One lesson hit of a search, as the store's nested select returns it:
/// every field may be absent, and the parent module and course titles
/// come flattened out of the embedded rows.
#[derive(Debug, Clone)]
pub struct LessonSearchRow {
    pub id: Option<String>,
    pub title: Option<String>,
    pub description: Option<String>,
    pub module_name: Option<String>,
    pub course_name: Option<String>,
}

/// One user's progress on one lesson. `id` is absent before the row is
/// first created. At most one row should exist per (user, lesson) pair;
/// the upsert planner preserves that invariant (absent races).
#[derive(Debug, Clone)]
pub struct UserProgress {
    pub id: Option<String>,
    pub user_id: String,
    pub lesson_id: String,
    pub status: String,
    pub score: Option<i32>,
    pub attempts: i32,
    pub completed_at: Option<String>,
    pub time_spent_seconds: Option<i32>,
}

/// Fields a caller supplies to record progress on a lesson.
#[derive(Debug, Clone)]
pub struct CreateProgressInput {
    pub user_id: String,
    pub lesson_id: String,
    pub status: String,
    pub score: Option<i32>,
    pub attempts: i32,
    pub completed_at: Option<String>,
    pub time_spent_seconds: Option<i32>,
}

/// A profile row, plus the two fields computed at read time.
#[derive(Debug, Clone)]
pub struct UserProfile {
    pub id: String,
    pub email: Option<String>,
    pub username: Option<String>,
    pub avatar_url: Option<String>,
    pub total_xp: Option<i32>,
    pub level: Option<i32>,
}

/// Aggregate numbers derived from a user's completed lessons.
#[derive(Debug, Clone)]
pub struct UserStatistics {
    pub total_lessons_completed: usize,
    pub total_courses_completed: i32,
    pub total_minutes_spent: i32,
}

/// Source text to run against an interpreter, with the output it should
/// produce.
#[derive(Debug, Clone)]
pub struct CodeValidationRequest {
    pub code: String,
    pub language: String,
    pub expected_output: String,
}

/// Verdict on one interpreter run.
#[derive(Debug, Clone)]
pub struct CodeValidationResponse {
    pub success: bool,
    pub output: String,
    pub error: Option<String>,
    pub is_correct: bool,
}

/// The HTTP verb of a planned request.
#[derive(Debug, Clone, Copy, PartialEq, Eq, Structural)]
pub enum HttpMethod {
    Get,
    Post,
    Patch,
    Delete,
}

/// The typed body of a planned mutation. Each variant pins exactly which
/// fields the request carries; turning a variant into JSON is the
/// caller's job.
#[derive(Debug, Clone)]
pub enum RestBody {
    /// Insert a course: every field of the input, nothing else.
    CreateCourse(CreateCourseInput),
    /// Insert a module: every field of the input, nothing else.
    CreateModule(CreateModuleInput),
    /// Insert a lesson: every field of the input, nothing else.
    CreateLesson(CreateLessonInput),
    /// Patch an existing progress row: the mutable fields only, never the
    /// (user, lesson) key.
    ProgressUpdate {
        status: String,
        score: Option<i32>,
        attempts: i32,
        completed_at: Option<String>,
        time_spent_seconds: Option<i32>,
    },
    /// Insert a progress row: key and fields.
    ProgressInsert(CreateProgressInput),
    /// Patch a profile's avatar reference.
    AvatarUpdate { avatar_url: String },
    /// Patch a profile's username.
    UsernameUpdate { username: String },
    /// A caller-supplied JSON document passed through unread.
    RawJson(String),
}

/// One planned request against the data API: verb, path-and-query
/// relative to the table root, and an optional typed body.
#[derive(Debug, Clone)]
pub struct RestPlan {
    pub method: HttpMethod,
    pub endpoint: String,
    pub body: Option<RestBody>,
}

} // verus!
