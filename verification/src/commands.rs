//! Content handlers: course, module and lesson CRUD, and search. Each
//! write follows one shape: build a filtered query string or a typed
//! body, let the caller make the round trip, unwrap the first element
//! of the returned list ("no row returned" when it is empty), reshape.

use vstd::prelude::*;
use crate::encode::{percent_encoded, url_encode};
use crate::strutil::{concat2, concat3, concat5};
use crate::types::{
    Course, CourseRow, CreateCourseInput, CreateLessonInput, CreateModuleInput, HttpMethod,
    Lesson, LessonSearchRow, Module, ModuleRow, RestBody, RestPlan, SearchResult,
};

verus! {

/// Unwrap the single row a mutation is owed: the first element of the
/// returned list, or `missing` as the error when the list is empty.
pub fn first_row<T>(rows: Vec<T>, missing: &str) -> (r: Result<T, String>)
    ensures
        rows@.len() == 0 ==> (r matches Err(e) && e@ == missing@),
        rows@.len() > 0 ==> (r matches Ok(v) && v == rows@[0]),
{
    let mut rows = rows;
    if rows.len() == 0 {
        Err(missing.to_owned())
    } else {
        Ok(rows.remove(0))
    }
}

/// The published-courses query: nested select embedding each course's
/// modules and their lessons, ordered by the display index.
pub fn all_courses_plan() -> (r: RestPlan)
    ensures
        r.method == HttpMethod::Get,
        r.endpoint@ == "courses?select=*,modules(*,lessons(*))&is_published=eq.true&order=order_index"@,
        r.body is None,
{
    RestPlan {
        method: HttpMethod::Get,
        endpoint: "courses?select=*,modules(*,lessons(*))&is_published=eq.true&order=order_index".to_owned(),
        body: None,
    }
}

/// The single-lesson query: a plain select of one id, nothing embedded.
pub fn lesson_by_id_plan(lesson_id: &str) -> (r: RestPlan)
    ensures
        r.method == HttpMethod::Get,
        r.endpoint@ == "lessons?select=*&id=eq."@ + lesson_id@,
        r.body is None,
{
    RestPlan {
        method: HttpMethod::Get,
        endpoint: concat2("lessons?select=*&id=eq.", lesson_id),
        body: None,
    }
}

/// The lesson a single-id query returned, or `Lesson {id} not found`
/// when the store had none.
pub fn get_lesson_by_id(lessons: Vec<Lesson>, lesson_id: &str) -> (r: Result<Lesson, String>)
    ensures
        lessons@.len() == 0 ==> (r matches Err(e) && e@ == "Lesson "@ + lesson_id@
            + " not found"@),
        lessons@.len() > 0 ==> (r matches Ok(v) && v == lessons@[0]),
{
    let missing = concat3("Lesson ", lesson_id, " not found");
    first_row(lessons, missing.as_str())
}

/// The course insert: every field of the input and nothing else.
pub fn create_course_plan(course: CreateCourseInput) -> (r: RestPlan)
    ensures
        r.method == HttpMethod::Post,
        r.endpoint@ == "courses"@,
        r.body == Some(RestBody::CreateCourse(course)),
{
    RestPlan {
        method: HttpMethod::Post,
        endpoint: "courses".to_owned(),
        body: Some(RestBody::CreateCourse(course)),
    }
}

/// A freshly created course, shaped from its bare row: same fields, and
/// no modules yet (they are populated only by a nested fetch).
pub fn course_from_row(row: CourseRow) -> (r: Course)
    ensures
        r.id == row.id && r.title == row.title && r.description == row.description
            && r.difficulty == row.difficulty && r.language == row.language && r.color == row.color
            && r.order_index == row.order_index && r.is_published == row.is_published
            && r.estimated_hours == row.estimated_hours && r.icon_url == row.icon_url,
        r.modules@.len() == 0,
{
    Course {
        id: row.id,
        title: row.title,
        description: row.description,
        difficulty: row.difficulty,
        language: row.language,
        modules: Vec::new(),
        color: row.color,
        order_index: row.order_index,
        is_published: row.is_published,
        estimated_hours: row.estimated_hours,
        icon_url: row.icon_url,
    }
}

/// What a course insert returns: the first row, reshaped, or the
/// missing-row error.
pub fn create_course_result(rows: Vec<CourseRow>) -> (r: Result<Course, String>)
    ensures
        rows@.len() == 0 ==> (r matches Err(e) && e@ == "No course returned"@),
        rows@.len() > 0 ==> (r matches Ok(c) && c.id == rows@[0].id && c.title == rows@[0].title
            && c.description == rows@[0].description && c.difficulty == rows@[0].difficulty
            && c.language == rows@[0].language && c.color == rows@[0].color && c.order_index
            == rows@[0].order_index && c.is_published == rows@[0].is_published
            && c.estimated_hours == rows@[0].estimated_hours && c.icon_url == rows@[0].icon_url
            && c.modules@.len() == 0),
{
    match first_row(rows, "No course returned") {
        Ok(row) => Ok(course_from_row(row)),
        Err(e) => Err(e),
    }
}

/// The module insert: every field of the input and nothing else.
pub fn create_module_plan(module: CreateModuleInput) -> (r: RestPlan)
    ensures
        r.method == HttpMethod::Post,
        r.endpoint@ == "modules"@,
        r.body == Some(RestBody::CreateModule(module)),
{
    RestPlan {
        method: HttpMethod::Post,
        endpoint: "modules".to_owned(),
        body: Some(RestBody::CreateModule(module)),
    }
}

/// A freshly created module, shaped from its bare row: same fields, and
/// no lessons yet.
pub fn module_from_row(row: ModuleRow) -> (r: Module)
    ensures
        r.id == row.id && r.course_id == row.course_id && r.title == row.title && r.description
            == row.description && r.order_index == row.order_index && r.icon_emoji
            == row.icon_emoji,
        r.lessons@.len() == 0,
{
    Module {
        id: row.id,
        course_id: row.course_id,
        title: row.title,
        description: row.description,
        lessons: Vec::new(),
        order_index: row.order_index,
        icon_emoji: row.icon_emoji,
    }
}

/// What a module insert returns: the first row, reshaped, or the
/// missing-row error.
pub fn create_module_result(rows: Vec<ModuleRow>) -> (r: Result<Module, String>)
    ensures
        rows@.len() == 0 ==> (r matches Err(e) && e@ == "No module returned"@),
        rows@.len() > 0 ==> (r matches Ok(m) && m.id == rows@[0].id && m.course_id
            == rows@[0].course_id && m.title == rows@[0].title && m.description
            == rows@[0].description && m.order_index == rows@[0].order_index && m.icon_emoji
            == rows@[0].icon_emoji && m.lessons@.len() == 0),
{
    match first_row(rows, "No module returned") {
        Ok(row) => Ok(module_from_row(row)),
        Err(e) => Err(e),
    }
}

/// The lesson insert: every field of the input and nothing else.
pub fn create_lesson_plan(lesson: CreateLessonInput) -> (r: RestPlan)
    ensures
        r.method == HttpMethod::Post,
        r.endpoint@ == "lessons"@,
        r.body == Some(RestBody::CreateLesson(lesson)),
{
    RestPlan {
        method: HttpMethod::Post,
        endpoint: "lessons".to_owned(),
        body: Some(RestBody::CreateLesson(lesson)),
    }
}

/// What a lesson insert or patch returns: the first row as it stands,
/// or the missing-row error.
pub fn single_lesson_result(rows: Vec<Lesson>) -> (r: Result<Lesson, String>)
    ensures
        rows@.len() == 0 ==> (r matches Err(e) && e@ == "No lesson returned"@),
        rows@.len() > 0 ==> (r matches Ok(v) && v == rows@[0]),
{
    first_row(rows, "No lesson returned")
}

/// The lesson patch: a caller-supplied JSON document, passed through
/// unread, against the one lesson the filter selects.
pub fn update_lesson_plan(lesson_id: &str, updates: String) -> (r: RestPlan)
    ensures
        r.method == HttpMethod::Patch,
        r.endpoint@ == "lessons?id=eq."@ + lesson_id@,
        r.body == Some(RestBody::RawJson(updates)),
{
    RestPlan {
        method: HttpMethod::Patch,
        endpoint: concat2("lessons?id=eq.", lesson_id),
        body: Some(RestBody::RawJson(updates)),
    }
}

/// The lesson delete: no body, and the response body is discarded.
pub fn delete_lesson_plan(lesson_id: &str) -> (r: RestPlan)
    ensures
        r.method == HttpMethod::Delete,
        r.endpoint@ == "lessons?id=eq."@ + lesson_id@,
        r.body is None,
{
    RestPlan {
        method: HttpMethod::Delete,
        endpoint: concat2("lessons?id=eq.", lesson_id),
        body: None,
    }
}

/// The course delete: no body, and the response body is discarded.
pub fn delete_course_plan(course_id: &str) -> (r: RestPlan)
    ensures
        r.method == HttpMethod::Delete,
        r.endpoint@ == "courses?id=eq."@ + course_id@,
        r.body is None,
{
    RestPlan {
        method: HttpMethod::Delete,
        endpoint: concat2("courses?id=eq.", course_id),
        body: None,
    }
}

/// The course half of a search: published courses whose title or
/// description contains the encoded query, capped at five by the query
/// itself.
pub fn search_courses_plan(query: &str) -> (r: RestPlan)
    ensures
        r.method == HttpMethod::Get,
        r.endpoint@ == "courses?select=id,title,description&or=(title.ilike.*"@
            + percent_encoded(query@) + "*,description.ilike.*"@ + percent_encoded(query@)
            + "*)&is_published=eq.true&limit=5"@,
        r.body is None,
{
    let encoded = url_encode(query);
    RestPlan {
        method: HttpMethod::Get,
        endpoint: concat5(
            "courses?select=id,title,description&or=(title.ilike.*",
            encoded.as_str(),
            "*,description.ilike.*",
            encoded.as_str(),
            "*)&is_published=eq.true&limit=5",
        ),
        body: None,
    }
}

/// The lesson half of a search: lessons whose title or description
/// contains the encoded query, with the parent module and course titles
/// embedded, capped at ten by the query itself.
pub fn search_lessons_plan(query: &str) -> (r: RestPlan)
    ensures
        r.method == HttpMethod::Get,
        r.endpoint@
            == "lessons?select=id,title,description,language,module_id,modules(title,course_id,courses(title))&or=(title.ilike.*"@
            + percent_encoded(query@) + "*,description.ilike.*"@ + percent_encoded(query@)
            + "*)&limit=10"@,
        r.body is None,
{
    let encoded = url_encode(query);
    RestPlan {
        method: HttpMethod::Get,
        endpoint: concat5(
            "lessons?select=id,title,description,language,module_id,modules(title,course_id,courses(title))&or=(title.ilike.*",
            encoded.as_str(),
            "*,description.ilike.*",
            encoded.as_str(),
            "*)&limit=10",
        ),
        body: None,
    }
}

/// A stored lesson row carries exactly the fields of the input that
/// created it, under the identity the store assigned.
pub open spec fn lesson_represents(l: Lesson, input: CreateLessonInput, id: Seq<char>) -> bool {
    &&& l.id@ == id
    &&& l.module_id == input.module_id
    &&& l.title == input.title
    &&& l.lesson_type == input.lesson_type
    &&& l.content == input.content
    &&& l.xp_reward == input.xp_reward
    &&& l.order_index == input.order_index
    &&& l.is_locked == input.is_locked
    &&& l.description == input.description
    &&& l.language == input.language
    &&& l.estimated_minutes == input.estimated_minutes
}

/// Law of the create-then-fetch round trip. The store is assumed to do
/// its two documented parts: the insert returns the one row it stored,
/// carrying the input's fields under a fresh identity, and a fetch by
/// that identity returns that stored row. Then what the create call
/// hands back (the first created row) and what the fetch hands back
/// (the first fetched row) are the same lesson, and its fields are the
/// input's, with only the identity new.
pub proof fn lemma_lesson_round_trip(
    input: CreateLessonInput,
    created: Seq<Lesson>,
    fetched: Seq<Lesson>,
    id: Seq<char>,
)
    requires
        created.len() == 1,
        lesson_represents(created[0], input, id),
        fetched.len() == 1,
        fetched[0] == created[0],
    ensures
        fetched[0] == created[0],
        lesson_represents(fetched[0], input, id),
        fetched[0].module_id == input.module_id,
        fetched[0].title == input.title,
        fetched[0].lesson_type == input.lesson_type,
        fetched[0].content == input.content,
        fetched[0].xp_reward == input.xp_reward,
        fetched[0].order_index == input.order_index,
        fetched[0].is_locked == input.is_locked,
        fetched[0].description == input.description,
        fetched[0].language == input.language,
        fetched[0].estimated_minutes == input.estimated_minutes,
        fetched[0].id@ == id,
{
}

/// The search entry a course row becomes.
pub open spec fn course_hit(row: CourseRow, r: SearchResult) -> bool {
    &&& r.result_type@ == "course"@
    &&& r.id == row.id
    &&& r.title == row.title
    &&& r.description == Some(row.description)
    &&& r.course_name is None
    &&& r.module_name is None
}

/// The search entry a lesson row becomes: absent id and title default
/// to empty text, the rest is carried as it came.
pub open spec fn lesson_hit(row: LessonSearchRow, r: SearchResult) -> bool {
    &&& r.result_type@ == "lesson"@
    &&& r.id@ == (match row.id {
        Some(s) => s@,
        None => Seq::<char>::empty(),
    })
    &&& r.title@ == (match row.title {
        Some(s) => s@,
        None => Seq::<char>::empty(),
    })
    &&& r.description == row.description
    &&& r.course_name == row.course_name
    &&& r.module_name == row.module_name
}

/// Merge the two search queries into one list: every course first, then
/// every lesson. A failed lesson query degrades to zero lesson entries;
/// it never fails the search.
pub fn merge_search_results(
    courses: Vec<CourseRow>,
    lessons: Result<Vec<LessonSearchRow>, String>,
) -> (r: Vec<SearchResult>)
    ensures
        (match lessons {
            Ok(ls) => r@.len() == courses@.len() + ls@.len(),
            Err(_) => r@.len() == courses@.len(),
        }),
        forall|i: int| 0 <= i < courses@.len() ==> course_hit(courses@[i], #[trigger] r@[i]),
        (lessons matches Ok(ls) ==> forall|j: int|
            0 <= j < ls@.len() ==> lesson_hit(ls@[j], #[trigger] r@[courses@.len() + j])),
{
    let ghost all_courses = courses@;
    let mut results: Vec<SearchResult> = Vec::new();
    let mut courses = courses;
    while courses.len() > 0
        invariant
            results@.len() + courses@.len() == all_courses.len(),
            forall|j: int|
                0 <= j < courses@.len() ==> #[trigger] courses@[j] == all_courses[results@.len()
                    + j],
            forall|i: int|
                0 <= i < results@.len() ==> course_hit(all_courses[i], #[trigger] results@[i]),
        decreases courses@.len(),
    {
        let ghost done = results@.len() as int;
        let ghost prev_results = results@;
        let ghost prev_courses = courses@;
        let course = courses.remove(0);
        proof {
            assert(course == all_courses[done]);
            prev_courses.remove_ensures(0);
            assert(forall|j: int|
                0 <= j < courses@.len() ==> #[trigger] courses@[j] == all_courses[done + 1 + j]);
        }
        results.push(
            SearchResult {
                result_type: "course".to_owned(),
                id: course.id,
                title: course.title,
                description: Some(course.description),
                course_name: None,
                module_name: None,
            },
        );
        proof {
            assert(forall|i: int|
                0 <= i < prev_results.len() ==> #[trigger] results@[i] == prev_results[i]);
            assert(course_hit(all_courses[done], results@[done]));
        }
    }
    let ghost n_courses = results@.len() as int;
    if let Ok(lesson_rows) = lessons {
        let ghost all_lessons = lesson_rows@;
        let mut lesson_rows = lesson_rows;
        while lesson_rows.len() > 0
            invariant
                n_courses == all_courses.len(),
                n_courses <= results@.len(),
                results@.len() + lesson_rows@.len() == n_courses + all_lessons.len(),
                forall|j: int|
                    0 <= j < lesson_rows@.len() ==> #[trigger] lesson_rows@[j]
                        == all_lessons[results@.len() - n_courses + j],
                forall|i: int|
                    0 <= i < n_courses ==> course_hit(all_courses[i], #[trigger] results@[i]),
                forall|j: int|
                    0 <= j < results@.len() - n_courses ==> lesson_hit(
                        all_lessons[j],
                        #[trigger] results@[n_courses + j],
                    ),
            decreases lesson_rows@.len(),
        {
            let ghost done = results@.len() - n_courses;
            let ghost prev_results = results@;
            let ghost prev_rows = lesson_rows@;
            let row = lesson_rows.remove(0);
            proof {
                assert(row == all_lessons[done]);
                prev_rows.remove_ensures(0);
                assert(forall|j: int|
                    0 <= j < lesson_rows@.len() ==> #[trigger] lesson_rows@[j] == all_lessons[done
                        + 1 + j]);
            }
            let id = match row.id {
                Some(s) => s,
                None => String::new(),
            };
            let title = match row.title {
                Some(s) => s,
                None => String::new(),
            };
            results.push(
                SearchResult {
                    result_type: "lesson".to_owned(),
                    id,
                    title,
                    description: row.description,
                    course_name: row.course_name,
                    module_name: row.module_name,
                },
            );
            proof {
                assert(forall|i: int|
                    0 <= i < prev_results.len() ==> #[trigger] results@[i] == prev_results[i]);
                assert(lesson_hit(all_lessons[done], results@[n_courses + done]));
            }
        }
    }
    results
}

} // verus!
