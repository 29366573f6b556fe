//! Progress tracking: the read-then-write upsert of one (user, lesson)
//! row, and the proof that repeating an identical update patches the
//! row it created instead of inserting a second one.
//!
//! The upsert is not atomic: two interleaved calls for the same pair
//! can still insert two rows. Everything proved here speaks of calls
//! that see each other's effect, which is the sequential case.

use vstd::prelude::*;
use crate::strutil::{concat2, concat4};
use crate::types::{CreateProgressInput, HttpMethod, RestBody, RestPlan, UserProgress};

verus! {

/// The query that looks up the existing row of one (user, lesson) pair.
pub fn progress_query_plan(user_id: &str, lesson_id: &str) -> (r: RestPlan)
    ensures
        r.method == HttpMethod::Get,
        r.endpoint@ == "user_progress?select=*&user_id=eq."@ + user_id@ + "&lesson_id=eq."@
            + lesson_id@,
        r.body is None,
{
    RestPlan {
        method: HttpMethod::Get,
        endpoint: concat4(
            "user_progress?select=*&user_id=eq.",
            user_id,
            "&lesson_id=eq.",
            lesson_id,
        ),
        body: None,
    }
}

/// The query that lists every progress row of one user.
pub fn user_progress_plan(user_id: &str) -> (r: RestPlan)
    ensures
        r.method == HttpMethod::Get,
        r.endpoint@ == "user_progress?select=*&user_id=eq."@ + user_id@,
        r.body is None,
{
    RestPlan {
        method: HttpMethod::Get,
        endpoint: concat2("user_progress?select=*&user_id=eq.", user_id),
        body: None,
    }
}

/// The body a progress patch carries: the mutable fields of the input,
/// never the (user, lesson) key.
pub open spec fn progress_patch_body(input: CreateProgressInput) -> RestBody {
    RestBody::ProgressUpdate {
        status: input.status,
        score: input.score,
        attempts: input.attempts,
        completed_at: input.completed_at,
        time_spent_seconds: input.time_spent_seconds,
    }
}

/// The one step of the upsert that decides: a matching row already
/// present is patched in place, through the id it carries; no match
/// inserts a fresh row keyed by the input. The caller hands in what its
/// lookup query returned.
pub fn update_progress_plan(existing: &Vec<UserProgress>, input: &CreateProgressInput) -> (r:
    RestPlan)
    requires
        existing@.len() > 0 ==> existing@[0].id is Some,
    ensures
        existing@.len() > 0 ==> r.method == HttpMethod::Patch && r.endpoint@
            == "user_progress?id=eq."@ + existing@[0].id->0@ && r.body == Some(
            progress_patch_body(*input),
        ),
        existing@.len() == 0 ==> r.method == HttpMethod::Post && r.endpoint@ == "user_progress"@
            && r.body == Some(RestBody::ProgressInsert(*input)),
{
    if existing.len() > 0 {
        let row_id: &String = match &existing[0].id {
            Some(s) => s,
            None => unreached(),
        };
        RestPlan {
            method: HttpMethod::Patch,
            endpoint: concat2("user_progress?id=eq.", row_id.as_str()),
            body: Some(
                RestBody::ProgressUpdate {
                    status: input.status.clone(),
                    score: input.score,
                    attempts: input.attempts,
                    completed_at: clone_opt_string(&input.completed_at),
                    time_spent_seconds: input.time_spent_seconds,
                },
            ),
        }
    } else {
        RestPlan {
            method: HttpMethod::Post,
            endpoint: "user_progress".to_owned(),
            body: Some(
                RestBody::ProgressInsert(
                    CreateProgressInput {
                        user_id: input.user_id.clone(),
                        lesson_id: input.lesson_id.clone(),
                        status: input.status.clone(),
                        score: input.score,
                        attempts: input.attempts,
                        completed_at: clone_opt_string(&input.completed_at),
                        time_spent_seconds: input.time_spent_seconds,
                    },
                ),
            ),
        }
    }
}

/// The error of a patch that returned no row.
pub fn update_failed_message() -> (r: String)
    ensures
        r@ == "Failed to update progress"@,
{
    "Failed to update progress".to_owned()
}

/// The error of an insert that returned no row.
pub fn create_failed_message() -> (r: String)
    ensures
        r@ == "Failed to create progress"@,
{
    "Failed to create progress".to_owned()
}

/// An owned copy of an optional string, equal to it.
fn clone_opt_string(s: &Option<String>) -> (r: Option<String>)
    ensures
        r == *s,
{
    match s {
        Some(v) => Some(v.clone()),
        None => None,
    }
}

/// A row belongs to one (user, lesson) pair.
pub open spec fn progress_matches(row: UserProgress, user_id: Seq<char>, lesson_id: Seq<char>) -> bool {
    row.user_id@ == user_id && row.lesson_id@ == lesson_id
}

/// What the lookup query returns: the rows of the pair, in table order.
pub open spec fn query_progress(
    table: Seq<UserProgress>,
    user_id: Seq<char>,
    lesson_id: Seq<char>,
) -> Seq<UserProgress> {
    table.filter(|row: UserProgress| progress_matches(row, user_id, lesson_id))
}

/// What a patch does to the row it hits: the mutable fields take the
/// input's values; the identity and the (user, lesson) key stay.
pub open spec fn patched_progress(row: UserProgress, input: CreateProgressInput) -> UserProgress {
    UserProgress {
        status: input.status,
        score: input.score,
        attempts: input.attempts,
        completed_at: input.completed_at,
        time_spent_seconds: input.time_spent_seconds,
        ..row
    }
}

/// The store's effect of one upsert round, given what the lookup saw:
/// with a match, every row carrying the matched id is patched in
/// place; with none, a fresh row is appended.
pub open spec fn apply_upsert(
    table: Seq<UserProgress>,
    existing: Seq<UserProgress>,
    input: CreateProgressInput,
    fresh: UserProgress,
) -> Seq<UserProgress> {
    if existing.len() > 0 {
        table.map_values(
            |row: UserProgress|
                if row.id == existing[0].id {
                    patched_progress(row, input)
                } else {
                    row
                },
        )
    } else {
        table.push(fresh)
    }
}

/// Filtering distributes over push: helper for the law below.
proof fn lemma_filter_push(
    table: Seq<UserProgress>,
    row: UserProgress,
    pred: spec_fn(UserProgress) -> bool,
)
    ensures
        pred(row) ==> table.push(row).filter(pred) == table.filter(pred).push(row),
        !pred(row) ==> table.push(row).filter(pred) == table.filter(pred),
{
    reveal(Seq::filter);
    assert(table.push(row).drop_last() =~= table);
    assert(table.push(row).last() == row);
}

/// A patch through an id keeps every row's identity and key, and so
/// keeps which rows a (user, lesson) lookup sees.
proof fn lemma_patch_preserves_matching(
    table: Seq<UserProgress>,
    existing: Seq<UserProgress>,
    input: CreateProgressInput,
    fresh: UserProgress,
    user_id: Seq<char>,
    lesson_id: Seq<char>,
)
    requires
        existing.len() > 0,
    ensures
        apply_upsert(table, existing, input, fresh).len() == table.len(),
        forall|i: int|
            0 <= i < table.len() ==> #[trigger] apply_upsert(table, existing, input, fresh)[i].id
                == table[i].id,
        query_progress(apply_upsert(table, existing, input, fresh), user_id, lesson_id).len()
            == query_progress(table, user_id, lesson_id).len(),
    decreases table.len(),
{
    reveal(Seq::filter);
    let t2 = apply_upsert(table, existing, input, fresh);
    if table.len() > 0 {
        lemma_patch_preserves_matching(
            table.drop_last(),
            existing,
            input,
            fresh,
            user_id,
            lesson_id,
        );
        assert(t2.drop_last() =~= apply_upsert(table.drop_last(), existing, input, fresh));
        assert(progress_matches(t2.last(), user_id, lesson_id) == progress_matches(
            table.last(),
            user_id,
            lesson_id,
        ));
    } else {
        assert(t2 =~= table);
    }
}

/// The law of the upsert: starting from a table with no row for the
/// input's (user, lesson) pair, the first round inserts exactly one row,
/// and a second identical round — seeing what the first one wrote —
/// patches that same row: the table keeps its length and every row its
/// identity, so no duplicate row for the pair ever appears.
pub proof fn lemma_upsert_idempotent(
    table: Seq<UserProgress>,
    input: CreateProgressInput,
    fresh: UserProgress,
)
    requires
        query_progress(table, input.user_id@, input.lesson_id@).len() == 0,
        fresh.id is Some,
        fresh.user_id@ == input.user_id@,
        fresh.lesson_id@ == input.lesson_id@,
    ensures
        ({
            let q1 = query_progress(table, input.user_id@, input.lesson_id@);
            let t1 = apply_upsert(table, q1, input, fresh);
            let q2 = query_progress(t1, input.user_id@, input.lesson_id@);
            let t2 = apply_upsert(t1, q2, input, fresh);
            &&& t1.len() == table.len() + 1
            &&& q2.len() == 1
            &&& q2[0] == fresh
            &&& t2.len() == t1.len()
            &&& forall|i: int| 0 <= i < t2.len() ==> #[trigger] t2[i].id == t1[i].id
            &&& query_progress(t2, input.user_id@, input.lesson_id@).len() == 1
        }),
{
    let u = input.user_id@;
    let l = input.lesson_id@;
    let pred = |row: UserProgress| progress_matches(row, u, l);
    let q1 = query_progress(table, u, l);
    let t1 = apply_upsert(table, q1, input, fresh);
    assert(t1 == table.push(fresh));
    lemma_filter_push(table, fresh, pred);
    let q2 = query_progress(t1, u, l);
    assert(q2 =~= query_progress(table, u, l).push(fresh));
    assert(q2[0] == fresh);
    lemma_patch_preserves_matching(t1, q2, input, fresh, u, l);
}

} // verus!
