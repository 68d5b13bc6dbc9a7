use volunteer_match::clock::Timestamp;
use volunteer_match::errors::AppError;
use volunteer_match::models::task::{CreateTaskRequest, SearchTasksQuery, Task};
use volunteer_match::tasks::{create_task, list_tasks_query, search_status, summaries, task_record, validate_task_request};

fn request() -> CreateTaskRequest {
    CreateTaskRequest {
        incident_id: "INC-1".to_string(),
        title: "Evacuate".to_string(),
        required_skills: vec!["boat".to_string()],
        location_id: "LOC-1".to_string(),
        volunteers_needed: 3,
        urgency: "high".to_string(),
    }
}

fn invalid_fields() -> AppError {
    AppError::BadRequest("missing or invalid required fields".to_string())
}

#[test]
fn task_request_field_checks() {
    assert_eq!(validate_task_request(&request()), Ok(()));
    let mut r = request();
    r.title = " ".to_string();
    assert_eq!(validate_task_request(&r), Err(invalid_fields()));
    let mut r = request();
    r.incident_id = String::new();
    assert_eq!(validate_task_request(&r), Err(invalid_fields()));
    let mut r = request();
    r.required_skills = vec![];
    assert_eq!(validate_task_request(&r), Err(invalid_fields()));
    let mut r = request();
    r.location_id = "\n".to_string();
    assert_eq!(validate_task_request(&r), Err(invalid_fields()));
    let mut r = request();
    r.volunteers_needed = 0;
    assert_eq!(validate_task_request(&r), Err(invalid_fields()));
    let mut r = request();
    r.volunteers_needed = -4;
    assert_eq!(validate_task_request(&r), Err(invalid_fields()));
}

#[test]
fn task_urgency_checks() {
    for u in ["low", "medium", "high", "critical"] {
        let mut r = request();
        r.urgency = u.to_string();
        assert_eq!(validate_task_request(&r), Ok(()));
    }
    let mut r = request();
    r.urgency = "urgent".to_string();
    assert_eq!(
        validate_task_request(&r),
        Err(AppError::BadRequest("urgency must be one of: low, medium, high, critical".to_string()))
    );
    // the fields are checked before the urgency
    r.title = String::new();
    assert_eq!(validate_task_request(&r), Err(invalid_fields()));
}

#[test]
fn created_task_is_open_and_empty() {
    let t = create_task(request()).unwrap();
    assert!(t.task_id.starts_with("TASK-"));
    assert_eq!(t.task_id.len(), 13);
    assert_eq!(t.status, "open");
    assert_eq!(t.volunteers_matched, 0);
    assert_eq!(t.volunteers_needed, 3);
    assert_eq!(t.required_skills, vec!["boat".to_string()]);
    assert_eq!(t.urgency, "high");
    let at = Timestamp { secs: 10, nanos: 20 };
    let r = task_record(request(), "TASK-00000000".to_string(), at);
    assert_eq!(r.created_at, at);
    assert_eq!(r.task_id, "TASK-00000000");
}

#[test]
fn search_status_defaults_to_open() {
    let q = SearchTasksQuery { location_id: None, required_skills: None, status: None };
    assert_eq!(search_status(&q), Ok("open".to_string()));
    for s in ["open", "partially_filled", "filled", "completed", "cancelled"] {
        let q = SearchTasksQuery { location_id: None, required_skills: None, status: Some(s.to_string()) };
        assert_eq!(search_status(&q), Ok(s.to_string()));
    }
    let q = SearchTasksQuery { location_id: None, required_skills: None, status: Some("closed".to_string()) };
    assert_eq!(search_status(&q), Err(AppError::BadRequest("invalid status value".to_string())));
}

const SELECT: &str = "SELECT task_id, incident_id, title, required_skills, location_id, volunteers_needed, volunteers_matched, urgency, status, created_at FROM tasks WHERE ";

#[test]
fn list_query_by_status_only() {
    let q = list_tasks_query(None, None, "open".to_string());
    assert_eq!(q.sql, format!("{}status = $1", SELECT));
    assert_eq!(q.binds, vec!["open".to_string()]);
}

#[test]
fn list_query_numbers_placeholders_in_order() {
    let q = list_tasks_query(Some("LOC-1".to_string()), None, "open".to_string());
    assert_eq!(q.sql, format!("{}status = $1 AND location_id = $2", SELECT));
    assert_eq!(q.binds, vec!["open".to_string(), "LOC-1".to_string()]);
    let q = list_tasks_query(None, Some("boat".to_string()), "filled".to_string());
    assert_eq!(q.sql, format!("{}status = $1 AND $2 = ANY(required_skills)", SELECT));
    assert_eq!(q.binds, vec!["filled".to_string(), "boat".to_string()]);
    let q = list_tasks_query(Some("LOC-1".to_string()), Some("boat".to_string()), "open".to_string());
    assert_eq!(q.sql, format!("{}status = $1 AND location_id = $2 AND $3 = ANY(required_skills)", SELECT));
    assert_eq!(q.binds, vec!["open".to_string(), "LOC-1".to_string(), "boat".to_string()]);
}

#[test]
fn summaries_keep_order_and_fields() {
    let mut a: Task = task_record(request(), "TASK-A".to_string(), Timestamp { secs: 0, nanos: 0 });
    a.status = "partially_filled".to_string();
    let b = task_record(request(), "TASK-B".to_string(), Timestamp { secs: 0, nanos: 0 });
    let s = summaries(&vec![a, b]);
    assert_eq!(s.len(), 2);
    assert_eq!(s[0].task_id, "TASK-A");
    assert_eq!(s[0].status, "partially_filled");
    assert_eq!(s[0].title, "Evacuate");
    assert_eq!(s[0].urgency, "high");
    assert_eq!(s[0].volunteers_needed, 3);
    assert_eq!(s[1].task_id, "TASK-B");
    assert!(summaries(&vec![]).is_empty());
}

#[test]
fn new_task_found_by_default_search() {
    let t = create_task(request()).unwrap();
    let q = SearchTasksQuery { location_id: None, required_skills: None, status: None };
    assert_eq!(search_status(&q), Ok(t.status.clone()));
}
