//! Creating tasks and searching them.
use vstd::prelude::*;
use crate::clock::{Timestamp, utc_now};
use crate::errors::AppError;
use crate::ids::{identifier_shape, new_identifier};
use crate::models::task::{CreateTaskRequest, SearchTasksQuery, Task, TaskSummary};
use crate::text::{blank, is_blank, text_is};
use crate::volunteers::is_bad_request;

verus! {

/// A task request lacks a title, an incident, skills or a location, or asks
/// for no volunteers.
pub open spec fn task_request_incomplete(req: CreateTaskRequest) -> bool {
    ||| blank(req.title@)
    ||| blank(req.incident_id@)
    ||| req.required_skills@.len() == 0
    ||| blank(req.location_id@)
    ||| req.volunteers_needed <= 0
}

/// The urgencies that a task may have.
pub open spec fn valid_urgency(u: Seq<char>) -> bool {
    u == "low"@ || u == "medium"@ || u == "high"@ || u == "critical"@
}

/// The statuses that a task may have.
pub open spec fn valid_task_status(s: Seq<char>) -> bool {
    s == "open"@ || s == "partially_filled"@ || s == "filled"@ || s == "completed"@ || s
        == "cancelled"@
}

pub open spec fn invalid_fields_message() -> Seq<char> {
    "missing or invalid required fields"@
}

pub open spec fn invalid_urgency_message() -> Seq<char> {
    "urgency must be one of: low, medium, high, critical"@
}

/// Checks a task request: its fields first, then its urgency.
pub fn validate_task_request(req: &CreateTaskRequest) -> (r: Result<(), AppError>)
    ensures
        r is Ok <==> !task_request_incomplete(*req) && valid_urgency(req.urgency@),
        r is Ok <==> (!blank(req.title@) && !blank(req.incident_id@)
            && req.required_skills@.len() >= 1 && !blank(req.location_id@)
            && req.volunteers_needed >= 1 && (req.urgency@ == "low"@ || req.urgency@ == "medium"@
            || req.urgency@ == "high"@ || req.urgency@ == "critical"@)),
        task_request_incomplete(*req) ==> (r matches Err(e) && is_bad_request(
            e,
            invalid_fields_message(),
        )),
        !task_request_incomplete(*req) && !valid_urgency(req.urgency@) ==> (r matches Err(e)
            && is_bad_request(e, invalid_urgency_message())),
{
    if is_blank(req.title.as_str()) || is_blank(req.incident_id.as_str())
        || req.required_skills.len() == 0 || is_blank(req.location_id.as_str())
        || req.volunteers_needed <= 0 {
        return Err(AppError::BadRequest(String::from_str("missing or invalid required fields")));
    }
    let u = &req.urgency;
    if !(text_is(u, "low") || text_is(u, "medium") || text_is(u, "high") || text_is(
        u,
        "critical",
    )) {
        return Err(
            AppError::BadRequest(
                String::from_str("urgency must be one of: low, medium, high, critical"),
            ),
        );
    }
    Ok(())
}

/// The record of a new task: open, with no volunteer matched yet.
pub fn task_record(req: CreateTaskRequest, task_id: String, now: Timestamp) -> (t: Task)
    ensures
        t.task_id == task_id,
        t.incident_id == req.incident_id,
        t.title == req.title,
        t.required_skills == req.required_skills,
        t.location_id == req.location_id,
        t.volunteers_needed == req.volunteers_needed,
        t.volunteers_matched == 0,
        t.urgency == req.urgency,
        t.status@ == "open"@,
        t.created_at == now,
{
    Task {
        task_id,
        incident_id: req.incident_id,
        title: req.title,
        required_skills: req.required_skills,
        location_id: req.location_id,
        volunteers_needed: req.volunteers_needed,
        volunteers_matched: 0,
        urgency: req.urgency,
        status: String::from_str("open"),
        created_at: now,
    }
}

/// Validates a task request and builds the new task's record, with a fresh
/// `TASK-` identifier and the current time.
pub fn create_task(req: CreateTaskRequest) -> (r: Result<Task, AppError>)
    ensures
        r is Ok <==> !task_request_incomplete(req) && valid_urgency(req.urgency@),
        r is Ok <==> (!blank(req.title@) && !blank(req.incident_id@)
            && req.required_skills@.len() >= 1 && !blank(req.location_id@)
            && req.volunteers_needed >= 1 && (req.urgency@ == "low"@ || req.urgency@ == "medium"@
            || req.urgency@ == "high"@ || req.urgency@ == "critical"@)),
        task_request_incomplete(req) ==> (r matches Err(e) && is_bad_request(
            e,
            invalid_fields_message(),
        )),
        !task_request_incomplete(req) && !valid_urgency(req.urgency@) ==> (r matches Err(e)
            && is_bad_request(e, invalid_urgency_message())),
        r matches Ok(t) ==> {
            &&& identifier_shape("TASK-"@, t.task_id@)
            &&& t.incident_id == req.incident_id
            &&& t.title == req.title
            &&& t.required_skills == req.required_skills
            &&& t.location_id == req.location_id
            &&& t.volunteers_needed == req.volunteers_needed
            &&& t.volunteers_matched == 0
            &&& t.urgency == req.urgency
            &&& t.status@ == "open"@
        },
{
    validate_task_request(&req)?;
    let task_id = new_identifier("TASK-");
    let now = utc_now();
    Ok(task_record(req, task_id, now))
}

/// The status that a search lists: the one asked for, `open` by default.
pub open spec fn requested_status(query: SearchTasksQuery) -> Seq<char> {
    match query.status {
        Some(s) => s@,
        None => "open"@,
    }
}

/// The status that a search lists, checked to be a task status.
pub fn search_status(query: &SearchTasksQuery) -> (r: Result<String, AppError>)
    ensures
        r is Ok <==> valid_task_status(requested_status(*query)),
        r matches Ok(s) ==> s@ == requested_status(*query),
        r matches Err(e) ==> is_bad_request(e, "invalid status value"@),
{
    let status = match &query.status {
        Some(s) => s.clone(),
        None => String::from_str("open"),
    };
    if text_is(&status, "open") || text_is(&status, "partially_filled") || text_is(&status, "filled")
        || text_is(&status, "completed") || text_is(&status, "cancelled") {
        Ok(status)
    } else {
        Err(AppError::BadRequest(String::from_str("invalid status value")))
    }
}

/// A query for the task store: SQL text with numbered placeholders, and the
/// values bound to `$1`, `$2`, ... in order.
#[derive(Debug, Clone, PartialEq, Eq)]
pub struct TaskListQuery {
    pub sql: String,
    pub binds: Vec<String>,
}

pub open spec fn task_columns_select() -> Seq<char> {
    "SELECT task_id, incident_id, title, required_skills, location_id, volunteers_needed, volunteers_matched, urgency, status, created_at FROM tasks WHERE "@
}

/// The conditions of a task listing: the status always, then the location
/// and the skill where they are given, each with the next placeholder.
pub open spec fn task_list_conditions(by_location: bool, by_skill: bool) -> Seq<char> {
    "status = $1"@ + (if by_location {
        " AND location_id = $2"@
    } else {
        Seq::empty()
    }) + (if by_skill {
        if by_location {
            " AND $3 = ANY(required_skills)"@
        } else {
            " AND $2 = ANY(required_skills)"@
        }
    } else {
        Seq::empty()
    })
}

/// The values bound to a task listing's placeholders, in order.
pub open spec fn task_list_binds(
    location_id: Option<Seq<char>>,
    skill: Option<Seq<char>>,
    status: Seq<char>,
) -> Seq<Seq<char>> {
    seq![status] + (match location_id {
        Some(l) => seq![l],
        None => Seq::empty(),
    }) + (match skill {
        Some(k) => seq![k],
        None => Seq::empty(),
    })
}

pub open spec fn opt_view(o: Option<String>) -> Option<Seq<char>> {
    match o {
        Some(s) => Some(s@),
        None => None,
    }
}

/// The query that lists the tasks with the given status, in the given
/// location and requiring the given skill, where those are given.
pub fn list_tasks_query(location_id: Option<String>, skill: Option<String>, status: String) -> (q: TaskListQuery)
    ensures
        q.sql@ == task_columns_select() + task_list_conditions(location_id is Some, skill is Some),
        q.binds@.map_values(|b: String| b@) == task_list_binds(
            opt_view(location_id),
            opt_view(skill),
            status@,
        ),
{
    let by_location = location_id.is_some();
    let mut sql = String::from_str(
        "SELECT task_id, incident_id, title, required_skills, location_id, volunteers_needed, volunteers_matched, urgency, status, created_at FROM tasks WHERE ",
    );
    sql.append("status = $1");
    let mut binds: Vec<String> = Vec::new();
    binds.push(status);
    match location_id {
        Some(l) => {
            sql.append(" AND location_id = $2");
            binds.push(l);
        },
        None => {},
    }
    match skill {
        Some(k) => {
            if by_location {
                sql.append(" AND $3 = ANY(required_skills)");
            } else {
                sql.append(" AND $2 = ANY(required_skills)");
            }
            binds.push(k);
        },
        None => {},
    }
    proof {
        assert(sql@ =~= task_columns_select() + task_list_conditions(
            location_id is Some,
            skill is Some,
        ));
        assert(binds@.map_values(|b: String| b@) =~= task_list_binds(
            opt_view(location_id),
            opt_view(skill),
            status@,
        ));
    }
    TaskListQuery { sql, binds }
}

/// How a task is listed by a search.
pub open spec fn summary_of(t: Task) -> TaskSummary {
    TaskSummary {
        task_id: t.task_id,
        title: t.title,
        urgency: t.urgency,
        volunteers_needed: t.volunteers_needed,
        status: t.status,
    }
}

/// The listing of `t`.
pub fn summarize(t: &Task) -> (s: TaskSummary)
    ensures
        s == summary_of(*t),
        s.task_id == t.task_id,
        s.title == t.title,
        s.urgency == t.urgency,
        s.volunteers_needed == t.volunteers_needed,
        s.status == t.status,
{
    TaskSummary {
        task_id: t.task_id.clone(),
        title: t.title.clone(),
        urgency: t.urgency.clone(),
        volunteers_needed: t.volunteers_needed,
        status: t.status.clone(),
    }
}

/// The listings of `tasks`, in order.
pub fn summaries(tasks: &Vec<Task>) -> (r: Vec<TaskSummary>)
    ensures
        r@.len() == tasks@.len(),
        forall|i: int| 0 <= i < tasks@.len() ==> #[trigger] r@[i] == summary_of(tasks@[i]),
        forall|i: int|
            0 <= i < tasks@.len() ==> {
                &&& (#[trigger] r@[i]).task_id == tasks@[i].task_id
                &&& r@[i].title == tasks@[i].title
                &&& r@[i].urgency == tasks@[i].urgency
                &&& r@[i].volunteers_needed == tasks@[i].volunteers_needed
                &&& r@[i].status == tasks@[i].status
            },
{
    let mut r: Vec<TaskSummary> = Vec::new();
    let mut i: usize = 0;
    while i < tasks.len()
        invariant
            i <= tasks@.len(),
            r@.len() == i,
            forall|j: int| 0 <= j < i ==> #[trigger] r@[j] == summary_of(tasks@[j]),
        decreases tasks@.len() - i,
    {
        r.push(summarize(&tasks[i]));
        i = i + 1;
    }
    r
}


/// A task request is refused as incomplete exactly when its title,
/// incident or location is blank, it lists no skill, or it asks for no
/// volunteer (one is enough); its urgency must be one of four words.
pub proof fn lemma_task_request_rule(req: CreateTaskRequest)
    ensures
        task_request_incomplete(req) <==> (blank(req.title@) || blank(req.incident_id@)
            || req.required_skills@.len() == 0 || blank(req.location_id@)
            || req.volunteers_needed <= 0),
        valid_urgency(req.urgency@) <==> (req.urgency@ == "low"@ || req.urgency@ == "medium"@
            || req.urgency@ == "high"@ || req.urgency@ == "critical"@),
{
}

/// A listing carries the task's own id, title, urgency, need and status.
pub proof fn lemma_summary_copies_task(t: Task)
    ensures
        summary_of(t).task_id == t.task_id,
        summary_of(t).title == t.title,
        summary_of(t).urgency == t.urgency,
        summary_of(t).volunteers_needed == t.volunteers_needed,
        summary_of(t).status == t.status,
{
}

/// A search that names no status lists open tasks, the status that every
/// new task has, and that status passes the search's check.
pub proof fn lemma_default_search_lists_new_tasks(query: SearchTasksQuery)
    requires
        query.status is None,
    ensures
        requested_status(query) == "open"@,
        valid_task_status(requested_status(query)),
{
}

} // verus!
