use volunteer_match::clock::Timestamp;
use volunteer_match::errors::AppError;
use volunteer_match::ids::identifier_from;
use volunteer_match::matching::{plan_increment, MatchAction, MatchEvent, MatchFlow, MatchPhase, MatchReply};
use volunteer_match::models::match_model::{Match, MatchVolunteerRequest};
use volunteer_match::models::task::Task;
use volunteer_match::models::volunteer::Volunteer;

fn task(status: &str) -> Task {
    Task {
        task_id: "TASK-1".to_string(),
        incident_id: "INC-1".to_string(),
        title: "Sandbags".to_string(),
        required_skills: vec!["driving".to_string(), "boat".to_string()],
        location_id: "LOC-1".to_string(),
        volunteers_needed: 2,
        volunteers_matched: 0,
        urgency: "high".to_string(),
        status: status.to_string(),
        created_at: Timestamp { secs: 100, nanos: 0 },
    }
}

fn volunteer(availability: &str, skills: &[&str], area: &str) -> Volunteer<f64> {
    Volunteer {
        volunteer_id: "VOL-1".to_string(),
        name: "n".to_string(),
        phone: "p".to_string(),
        skills: skills.iter().map(|s| s.to_string()).collect(),
        area: area.to_string(),
        availability: availability.to_string(),
        last_lat: None,
        last_lng: None,
        location_updated_at: None,
        created_at: Timestamp { secs: 1, nanos: 0 },
    }
}

fn started() -> MatchFlow {
    let (flow, action) = MatchFlow::start("TASK-1".to_string(), MatchVolunteerRequest { volunteer_id: "VOL-1".to_string() });
    assert_eq!(action, MatchAction::LoadTask { task_id: "TASK-1".to_string() });
    flow
}

fn step(flow: MatchFlow, event: MatchEvent<f64>) -> (MatchFlow, MatchAction) {
    assert!(flow.accepts_event(&event));
    flow.step(event)
}

fn refused(msg: &str) -> MatchAction {
    MatchAction::Reply { outcome: Err(AppError::UnprocessableEntity(msg.to_string())) }
}

fn up_to_volunteer(t: Task) -> MatchFlow {
    let (flow, action) = step(started(), MatchEvent::TaskLoaded(Ok(Some(t))));
    assert_eq!(
        action,
        MatchAction::FindExistingMatch { task_id: "TASK-1".to_string(), volunteer_id: "VOL-1".to_string() }
    );
    let (flow, action) = step(flow, MatchEvent::ExistingMatchFound(Ok(None)));
    assert_eq!(action, MatchAction::LoadVolunteer { volunteer_id: "VOL-1".to_string() });
    flow
}

#[test]
fn increment_counts_up_to_need() {
    let id = "TASK-1".to_string();
    let p = plan_increment(&id, Some(0), 2).unwrap();
    assert_eq!(p.volunteers_matched, 1);
    assert_eq!(p.status, "partially_filled");
    let p = plan_increment(&id, Some(1), 2).unwrap();
    assert_eq!(p.volunteers_matched, 2);
    assert_eq!(p.status, "filled");
    assert_eq!(
        plan_increment(&id, Some(2), 2),
        Err(AppError::UnprocessableEntity("task is already filled".to_string()))
    );
    assert_eq!(
        plan_increment(&id, Some(i64::MAX), i64::MAX),
        Err(AppError::UnprocessableEntity("task is already filled".to_string()))
    );
    assert_eq!(plan_increment(&id, None, 2), Err(AppError::NotFound("task TASK-1 not found".to_string())));
}

#[test]
fn match_identifier_from_uuid_text() {
    assert_eq!(identifier_from("MATCH-", "1a2b3c4d-0000-4000-8000-000000000000"), "MATCH-1A2B3C4D");
    assert_eq!(identifier_from("VOL-", "deadbeef-0000-4000-8000-000000000000"), "VOL-DEADBEEF");
}

#[test]
fn blank_volunteer_id_is_refused() {
    let (flow, action) = MatchFlow::start("TASK-1".to_string(), MatchVolunteerRequest { volunteer_id: "  ".to_string() });
    assert_eq!(flow.phase, MatchPhase::Finished);
    assert_eq!(
        action,
        MatchAction::Reply { outcome: Err(AppError::BadRequest("volunteer_id is required".to_string())) }
    );
}

#[test]
fn missing_or_closed_task() {
    let (_, action) = step(started(), MatchEvent::TaskLoaded(Ok(None)));
    assert_eq!(action, MatchAction::Reply { outcome: Err(AppError::NotFound("task TASK-1 not found".to_string())) });
    for status in ["filled", "cancelled", "completed"] {
        let (flow, action) = step(started(), MatchEvent::TaskLoaded(Ok(Some(task(status)))));
        assert_eq!(
            action,
            MatchAction::FindExistingMatch { task_id: "TASK-1".to_string(), volunteer_id: "VOL-1".to_string() }
        );
        let (flow, action) = step(flow, MatchEvent::ExistingMatchFound(Ok(None)));
        assert_eq!(action, refused("task is not accepting volunteers"));
        assert_eq!(flow.phase, MatchPhase::Finished);
        assert!(!flow.accepts_event(&MatchEvent::<f64>::VolunteerLoaded(Ok(None))));
    }
    let (flow, _) = step(started(), MatchEvent::TaskLoaded(Ok(Some(task("partially_filled")))));
    let (_, action) = step(flow, MatchEvent::ExistingMatchFound(Ok(None)));
    assert_eq!(action, MatchAction::LoadVolunteer { volunteer_id: "VOL-1".to_string() });
}

#[test]
fn existing_match_is_returned_for_a_filled_task() {
    let (flow, _) = step(started(), MatchEvent::TaskLoaded(Ok(Some(task("filled")))));
    let existing = Match {
        match_id: "MATCH-0000BBBB".to_string(),
        task_id: "TASK-1".to_string(),
        volunteer_id: "VOL-1".to_string(),
        status: "pending".to_string(),
        matched_at: Timestamp { secs: 60, nanos: 0 },
    };
    let (flow, action) = step(flow, MatchEvent::ExistingMatchFound(Ok(Some(existing))));
    assert_eq!(flow.phase, MatchPhase::Finished);
    match action {
        MatchAction::Reply { outcome: Ok(MatchReply { created, response }) } => {
            assert!(!created);
            assert_eq!(response.match_id, "MATCH-0000BBBB");
            assert_eq!(response.note, Some("match already exists".to_string()));
        }
        other => panic!("unexpected action {:?}", other),
    }
}

#[test]
fn store_errors_are_passed_on() {
    let err = AppError::Internal("connection reset".to_string());
    let (_, action) = step(started(), MatchEvent::TaskLoaded(Err(err.clone())));
    assert_eq!(action, MatchAction::Reply { outcome: Err(err.clone()) });
    let (_, action) = step(up_to_volunteer(task("open")), MatchEvent::VolunteerLoaded(Err(err.clone())));
    assert_eq!(action, MatchAction::Reply { outcome: Err(err) });
}

#[test]
fn existing_match_is_returned_without_writes() {
    let (flow, _) = step(started(), MatchEvent::TaskLoaded(Ok(Some(task("open")))));
    let existing = Match {
        match_id: "MATCH-0000AAAA".to_string(),
        task_id: "TASK-1".to_string(),
        volunteer_id: "VOL-1".to_string(),
        status: "accepted".to_string(),
        matched_at: Timestamp { secs: 50, nanos: 7 },
    };
    let (flow, action) = step(flow, MatchEvent::ExistingMatchFound(Ok(Some(existing))));
    assert_eq!(flow.phase, MatchPhase::Finished);
    match action {
        MatchAction::Reply { outcome: Ok(MatchReply { created, response }) } => {
            assert!(!created);
            assert_eq!(response.match_id, "MATCH-0000AAAA");
            assert_eq!(response.status, "accepted");
            assert_eq!(response.matched_at, Timestamp { secs: 50, nanos: 7 });
            assert_eq!(response.note, Some("match already exists".to_string()));
        }
        other => panic!("unexpected action {:?}", other),
    }
}

#[test]
fn ineligible_volunteers_are_refused() {
    let (_, a) = step(up_to_volunteer(task("open")), MatchEvent::VolunteerLoaded(Ok(None)));
    assert_eq!(a, refused("volunteer not found"));
    let v = volunteer("busy", &["driving", "boat"], "LOC-1");
    let (_, a) = step(up_to_volunteer(task("open")), MatchEvent::VolunteerLoaded(Ok(Some(v))));
    assert_eq!(a, refused("volunteer is not available or skills do not match"));
    let v = volunteer("available", &["driving"], "LOC-1");
    let (_, a) = step(up_to_volunteer(task("open")), MatchEvent::VolunteerLoaded(Ok(Some(v))));
    assert_eq!(a, refused("volunteer is not available or skills do not match"));
    let v = volunteer("available", &["boat", "driving", "first_aid"], "LOC-2");
    let (_, a) = step(up_to_volunteer(task("open")), MatchEvent::VolunteerLoaded(Ok(Some(v))));
    assert_eq!(a, refused("volunteer area does not match task location"));
}

#[test]
fn eligible_volunteer_is_matched_and_marked_busy() {
    let v = volunteer("available", &["boat", "first_aid", "driving"], "LOC-1");
    let (flow, a) = step(up_to_volunteer(task("open")), MatchEvent::VolunteerLoaded(Ok(Some(v))));
    assert_eq!(a, MatchAction::IncrementMatched { task_id: "TASK-1".to_string(), volunteers_needed: 2 });
    let (flow, a) = step(flow, MatchEvent::MatchedCountIncremented(Ok(())));
    let record = match a {
        MatchAction::CreateMatch { record } => record,
        other => panic!("unexpected action {:?}", other),
    };
    assert!(record.match_id.starts_with("MATCH-"));
    assert_eq!(record.match_id.len(), 14);
    assert_eq!(record.task_id, "TASK-1");
    assert_eq!(record.volunteer_id, "VOL-1");
    assert_eq!(record.status, "pending");
    let (flow, a) = step(flow, MatchEvent::MatchStored(Ok(())));
    assert_eq!(
        a,
        MatchAction::SetAvailability { volunteer_id: "VOL-1".to_string(), availability: "busy".to_string() }
    );
    let (flow, a) = step(flow, MatchEvent::AvailabilityStored(Ok(())));
    assert_eq!(flow.phase, MatchPhase::Finished);
    match a {
        MatchAction::Reply { outcome: Ok(MatchReply { created, response }) } => {
            assert!(created);
            assert_eq!(response.match_id, record.match_id);
            assert_eq!(response.status, "pending");
            assert_eq!(response.matched_at, record.matched_at);
            assert_eq!(response.note, None);
        }
        other => panic!("unexpected action {:?}", other),
    }
}

#[test]
fn task_without_required_skills_takes_anyone_available_in_area() {
    let mut t = task("open");
    t.required_skills = vec![];
    let v = volunteer("available", &[], "LOC-1");
    let (_, a) = step(up_to_volunteer(t), MatchEvent::VolunteerLoaded(Ok(Some(v))));
    assert!(matches!(a, MatchAction::IncrementMatched { .. }));
}

#[test]
fn failed_increment_stops_the_match() {
    let v = volunteer("available", &["boat", "driving"], "LOC-1");
    let (flow, _) = step(up_to_volunteer(task("open")), MatchEvent::VolunteerLoaded(Ok(Some(v))));
    let full = AppError::UnprocessableEntity("task is already filled".to_string());
    let (flow, a) = step(flow, MatchEvent::MatchedCountIncremented(Err(full.clone())));
    assert_eq!(a, MatchAction::Reply { outcome: Err(full) });
    assert_eq!(flow.phase, MatchPhase::Finished);
}

#[test]
fn task_filled_by_count_refuses_more_volunteers() {
    let id = "TASK-1".to_string();
    let mut t = task("open");
    let first = plan_increment(&id, Some(t.volunteers_matched), t.volunteers_needed).unwrap();
    t.volunteers_matched = first.volunteers_matched;
    t.status = first.status;
    let (flow, _) = step(started(), MatchEvent::TaskLoaded(Ok(Some(t.clone()))));
    let (_, a) = step(flow, MatchEvent::ExistingMatchFound(Ok(None)));
    assert!(matches!(a, MatchAction::LoadVolunteer { .. }));
    let second = plan_increment(&id, Some(t.volunteers_matched), t.volunteers_needed).unwrap();
    t.volunteers_matched = second.volunteers_matched;
    t.status = second.status;
    assert_eq!(t.status, "filled");
    let (flow, _) = step(started(), MatchEvent::TaskLoaded(Ok(Some(t))));
    let (_, a) = step(flow, MatchEvent::ExistingMatchFound(Ok(None)));
    assert_eq!(a, refused("task is not accepting volunteers"));
}

/// A small in-memory store that answers the workflow's operations.
struct MemStore {
    task: Task,
    volunteers: Vec<Volunteer<f64>>,
    matches: Vec<Match>,
}

impl MemStore {
    fn run(&mut self, volunteer_id: &str) -> MatchAction {
        let (mut flow, mut action) =
            MatchFlow::start(self.task.task_id.clone(), MatchVolunteerRequest { volunteer_id: volunteer_id.to_string() });
        loop {
            let event: MatchEvent<f64> = match action {
                MatchAction::LoadTask { task_id } => {
                    MatchEvent::TaskLoaded(Ok(if task_id == self.task.task_id { Some(self.task.clone()) } else { None }))
                }
                MatchAction::FindExistingMatch { task_id, volunteer_id } => MatchEvent::ExistingMatchFound(Ok(self
                    .matches
                    .iter()
                    .find(|m| m.task_id == task_id && m.volunteer_id == volunteer_id)
                    .cloned())),
                MatchAction::LoadVolunteer { volunteer_id } => MatchEvent::VolunteerLoaded(Ok(self
                    .volunteers
                    .iter()
                    .find(|v| v.volunteer_id == volunteer_id)
                    .cloned())),
                MatchAction::IncrementMatched { task_id, volunteers_needed } => {
                    let current = if task_id == self.task.task_id { Some(self.task.volunteers_matched) } else { None };
                    MatchEvent::MatchedCountIncremented(plan_increment(&task_id, current, volunteers_needed).map(|p| {
                        self.task.volunteers_matched = p.volunteers_matched;
                        self.task.status = p.status;
                    }))
                }
                MatchAction::CreateMatch { record } => {
                    self.matches.push(record);
                    MatchEvent::MatchStored(Ok(()))
                }
                MatchAction::SetAvailability { volunteer_id, availability } => {
                    for v in self.volunteers.iter_mut() {
                        if v.volunteer_id == volunteer_id {
                            v.availability = availability.clone();
                        }
                    }
                    MatchEvent::AvailabilityStored(Ok(()))
                }
                reply @ MatchAction::Reply { .. } => return reply,
            };
            let (f, a) = step(flow, event);
            flow = f;
            action = a;
        }
    }

    fn consistent(&self) -> bool {
        let count = self.matches.iter().filter(|m| m.task_id == self.task.task_id).count() as i64;
        let mut pairs: Vec<(String, String)> =
            self.matches.iter().map(|m| (m.task_id.clone(), m.volunteer_id.clone())).collect();
        pairs.sort();
        pairs.dedup();
        count == self.task.volunteers_matched
            && self.task.volunteers_matched <= self.task.volunteers_needed
            && pairs.len() == self.matches.len()
    }
}

#[test]
fn matching_keeps_counter_and_matches_consistent() {
    let skills: &[&str] = &["driving", "boat"];
    let mut v2 = volunteer("available", skills, "LOC-1");
    v2.volunteer_id = "VOL-2".to_string();
    let mut v3 = volunteer("available", skills, "LOC-1");
    v3.volunteer_id = "VOL-3".to_string();
    let mut store =
        MemStore { task: task("open"), volunteers: vec![volunteer("available", skills, "LOC-1"), v2, v3], matches: vec![] };
    assert!(store.consistent());

    let first = match store.run("VOL-1") {
        MatchAction::Reply { outcome: Ok(MatchReply { created: true, response }) } => response,
        other => panic!("unexpected action {:?}", other),
    };
    assert!(store.consistent());
    assert_eq!(store.task.status, "partially_filled");
    assert_eq!(store.volunteers[0].availability, "busy");
    assert_eq!(store.matches[0].match_id, first.match_id);

    let before = (store.task.clone(), store.matches.clone());
    match store.run("VOL-1") {
        MatchAction::Reply { outcome: Ok(MatchReply { created: false, response }) } => {
            assert_eq!(response.match_id, first.match_id);
            assert_eq!(response.status, first.status);
            assert_eq!(response.matched_at, first.matched_at);
            assert_eq!(response.note, Some("match already exists".to_string()));
        }
        other => panic!("unexpected action {:?}", other),
    }
    assert_eq!((store.task.clone(), store.matches.clone()), before);
    assert!(store.consistent());

    let second = store.run("VOL-2");
    assert!(matches!(second, MatchAction::Reply { outcome: Ok(MatchReply { created: true, .. }) }));
    assert!(store.consistent());
    assert_eq!(store.task.status, "filled");
    assert_eq!(store.task.volunteers_matched, 2);

    // The task is full: the first volunteer still gets its match back, a new one is refused.
    let again = store.run("VOL-1");
    assert!(matches!(again, MatchAction::Reply { outcome: Ok(MatchReply { created: false, .. }) }));
    assert_eq!(store.run("VOL-3"), refused("task is not accepting volunteers"));
    assert!(store.consistent());
    assert_eq!(store.matches.len(), 2);
}
