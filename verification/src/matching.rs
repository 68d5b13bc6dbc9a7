//! Matching a volunteer to a task.
//!
//! The workflow reads and writes the store in turn, so it is written as a
//! state machine: `MatchFlow::start` and `MatchFlow::step` decide, from the
//! flow's state and the store's last answer, the next state and the next
//! store operation or the reply. The caller performs each operation and hands
//! its result back as a `MatchEvent`.
use vstd::prelude::*;
use crate::clock::{Timestamp, utc_now};
use crate::errors::AppError;
use crate::ids::{identifier_shape, new_identifier};
use crate::models::match_model::{Match, MatchResponse, MatchVolunteerRequest};
use crate::models::task::Task;
use crate::models::volunteer::Volunteer;
use crate::text::{blank, concat3, contains_text, is_blank, text_is};

verus! {

/// The counter and status that a task takes when one more volunteer is
/// matched to it.
#[derive(Debug, Clone, PartialEq, Eq)]
pub struct IncrementPlan {
    pub volunteers_matched: i64,
    pub status: String,
}

pub open spec fn task_not_found_message(task_id: Seq<char>) -> Seq<char> {
    "task "@ + task_id + " not found"@
}

/// `e` is an unprocessable-entity error with message `m`.
pub open spec fn is_unprocessable(e: AppError, m: Seq<char>) -> bool {
    e matches AppError::UnprocessableEntity(t) && t@ == m
}

/// The status of a task after `matched` of its `needed` volunteers are
/// matched: `filled` once all are, `partially_filled` before.
pub open spec fn status_after(matched: int, needed: int) -> Seq<char> {
    if matched >= needed {
        "filled"@
    } else {
        "partially_filled"@
    }
}

/// Decides how to count one more volunteer for the task `task_id`, given the
/// task's current counter (`None` when the task does not exist) and how many
/// volunteers it needs. A task is never counted past what it needs.
pub fn plan_increment(task_id: &String, current: Option<i64>, volunteers_needed: i64) -> (r: Result<IncrementPlan, AppError>)
    ensures
        current is None ==> (r matches Err(e) && e matches AppError::NotFound(m) && m@
            == task_not_found_message(task_id@)),
        current matches Some(c) ==> if c + 1 > volunteers_needed {
            r matches Err(e) && is_unprocessable(e, "task is already filled"@)
        } else {
            &&& r matches Ok(p)
            &&& p.volunteers_matched == c + 1
            &&& p.status@ == status_after(c + 1, volunteers_needed as int)
        },
        r matches Ok(p) ==> {
            &&& p.volunteers_matched <= volunteers_needed
            &&& (p.status@ == "filled"@ <==> p.volunteers_matched == volunteers_needed)
            &&& p.volunteers_matched == volunteers_needed ==> p.status@ == "filled"@
            &&& p.volunteers_matched < volunteers_needed ==> p.status@ == "partially_filled"@
        },
        r is Ok <==> (current matches Some(c) && c < volunteers_needed),
{
    match current {
        None => Err(AppError::NotFound(concat3("task ", task_id.as_str(), " not found"))),
        Some(c) => {
            if c >= volunteers_needed {
                return Err(AppError::UnprocessableEntity(String::from_str("task is already filled")));
            }
            let matched: i64 = c + 1;
            let status = if matched >= volunteers_needed {
                String::from_str("filled")
            } else {
                String::from_str("partially_filled")
            };
            proof {
                reveal_strlit("filled");
                reveal_strlit("partially_filled");
            }
            Ok(IncrementPlan { volunteers_matched: matched, status })
        },
    }
}

/// Counting gives `filled` once the count reaches the need and
/// `partially_filled` while it is below, whatever the count (the first
/// volunteer of several included).
pub proof fn lemma_status_after_counting(matched: int, needed: int)
    ensures
        matched >= needed ==> status_after(matched, needed) == "filled"@,
        matched < needed ==> status_after(matched, needed) == "partially_filled"@,
{
}

/// Whether a task with this status still takes volunteers.
pub open spec fn accepts_volunteers(status: Seq<char>) -> bool {
    status == "open"@ || status == "partially_filled"@
}

/// `skill` is among `skills`.
pub open spec fn has_skill(skills: Seq<String>, skill: String) -> bool {
    exists|j: int| 0 <= j < skills.len() && #[trigger] skills[j]@ == skill@
}

/// Every skill in `required` is among `skills`.
pub open spec fn has_skills(required: Seq<String>, skills: Seq<String>) -> bool {
    forall|i: int| 0 <= i < required.len() ==> has_skill(skills, #[trigger] required[i])
}

/// A volunteer may be matched to a task: available, with every skill that
/// the task requires, in the task's location.
pub open spec fn eligible<C>(task: Task, v: Volunteer<C>) -> bool {
    &&& v.availability@ == "available"@
    &&& has_skills(task.required_skills@, v.skills@)
    &&& v.area@ == task.location_id@
}

/// Whether the volunteer has every skill that the task requires.
pub fn covers_skills(required: &Vec<String>, skills: &Vec<String>) -> (b: bool)
    ensures
        b == has_skills(required@, skills@),
{
    let mut i: usize = 0;
    while i < required.len()
        invariant
            i <= required@.len(),
            forall|k: int| 0 <= k < i ==> has_skill(skills@, #[trigger] required@[k]),
        decreases required@.len() - i,
    {
        if !contains_text(skills, &required[i]) {
            return false;
        }
        i = i + 1;
    }
    true
}

/// A match reply: the match, and whether this request created it (answered
/// with 201 and announced as `match.status_changed`) or found it already
/// made (answered with 200).
#[derive(Debug, Clone, PartialEq, Eq)]
pub struct MatchReply {
    pub created: bool,
    pub response: MatchResponse,
}

/// Where a match workflow stands: which answer of the store it waits for,
/// and what it has learnt so far.
#[derive(Debug, Clone, PartialEq, Eq)]
pub enum MatchPhase {
    AwaitingTask,
    AwaitingExistingMatch { task: Task },
    AwaitingVolunteer { task: Task },
    AwaitingIncrement { task: Task },
    AwaitingMatchRecord { record: Match },
    AwaitingAvailability { record: Match },
    Finished,
}

impl MatchPhase {
    /// How far the workflow has come; each step moves it further.
    pub open spec fn rank(self) -> nat {
        match self {
            MatchPhase::AwaitingTask => 0,
            MatchPhase::AwaitingExistingMatch { .. } => 1,
            MatchPhase::AwaitingVolunteer { .. } => 2,
            MatchPhase::AwaitingIncrement { .. } => 3,
            MatchPhase::AwaitingMatchRecord { .. } => 4,
            MatchPhase::AwaitingAvailability { .. } => 5,
            MatchPhase::Finished => 6,
        }
    }
}

/// The workflow that matches the volunteer `volunteer_id` to the task
/// `task_id`.
#[derive(Debug, Clone, PartialEq, Eq)]
pub struct MatchFlow {
    pub task_id: String,
    pub volunteer_id: String,
    pub phase: MatchPhase,
}

/// What the caller is to do next.
#[derive(Debug, PartialEq, Eq)]
pub enum MatchAction {
    /// Read the task.
    LoadTask { task_id: String },
    /// Search the stored matches for the pair.
    FindExistingMatch { task_id: String, volunteer_id: String },
    /// Read the volunteer.
    LoadVolunteer { volunteer_id: String },
    /// Count one more matched volunteer for the task, at most up to
    /// `volunteers_needed` (see `plan_increment`).
    IncrementMatched { task_id: String, volunteers_needed: i64 },
    /// Store the match.
    CreateMatch { record: Match },
    /// Set the volunteer's availability.
    SetAvailability { volunteer_id: String, availability: String },
    /// Answer the request; the workflow is over.
    Reply { outcome: Result<MatchReply, AppError> },
}

/// The store's answer to the last action.
pub enum MatchEvent<C> {
    TaskLoaded(Result<Option<Task>, AppError>),
    ExistingMatchFound(Result<Option<Match>, AppError>),
    VolunteerLoaded(Result<Option<Volunteer<C>>, AppError>),
    MatchedCountIncremented(Result<(), AppError>),
    MatchStored(Result<(), AppError>),
    AvailabilityStored(Result<(), AppError>),
}

impl MatchFlow {
    /// The state that the workflow keeps: a workflow under way has a
    /// non-blank volunteer id; a task it holds takes volunteers; a match it
    /// holds is pending and pairs the workflow's volunteer and task.
    pub open spec fn wf(self) -> bool {
        &&& !(self.phase is Finished) ==> !blank(self.volunteer_id@)
        &&& match self.phase {
            MatchPhase::AwaitingVolunteer { task } => accepts_volunteers(task.status@),
            MatchPhase::AwaitingIncrement { task } => accepts_volunteers(task.status@),
            MatchPhase::AwaitingMatchRecord { record } => self.pending_record(record),
            MatchPhase::AwaitingAvailability { record } => self.pending_record(record),
            _ => true,
        }
    }

    /// `record` is a fresh pending match of this workflow's volunteer to its
    /// task.
    pub open spec fn pending_record(self, record: Match) -> bool {
        &&& record.task_id == self.task_id
        &&& record.volunteer_id == self.volunteer_id
        &&& record.status@ == "pending"@
        &&& identifier_shape("MATCH-"@, record.match_id@)
    }

    /// `next` is this workflow, moved to `phase`.
    pub open spec fn moved_to(self, next: MatchFlow, phase: MatchPhase) -> bool {
        &&& next.task_id == self.task_id
        &&& next.volunteer_id == self.volunteer_id
        &&& next.phase == phase
    }

    /// The event answers the action that this phase waits for.
    pub open spec fn awaits<C>(self, event: MatchEvent<C>) -> bool {
        match self.phase {
            MatchPhase::AwaitingTask => event is TaskLoaded,
            MatchPhase::AwaitingExistingMatch { .. } => event is ExistingMatchFound,
            MatchPhase::AwaitingVolunteer { .. } => event is VolunteerLoaded,
            MatchPhase::AwaitingIncrement { .. } => event is MatchedCountIncremented,
            MatchPhase::AwaitingMatchRecord { .. } => event is MatchStored,
            MatchPhase::AwaitingAvailability { .. } => event is AvailabilityStored,
            MatchPhase::Finished => false,
        }
    }

    /// The workflow ends, answering with `err`.
    pub open spec fn fails(self, next: MatchFlow, action: MatchAction, err: AppError) -> bool {
        &&& self.moved_to(next, MatchPhase::Finished)
        &&& action == MatchAction::Reply { outcome: Err(err) }
    }

    /// The workflow ends, answering with an unprocessable-entity error that
    /// says `msg`.
    pub open spec fn refuses(self, next: MatchFlow, action: MatchAction, msg: Seq<char>) -> bool {
        &&& self.moved_to(next, MatchPhase::Finished)
        &&& action matches MatchAction::Reply { outcome: Err(e) }
        &&& is_unprocessable(e, msg)
    }

    /// What one step of the workflow does with the store's answer `event`.
    pub open spec fn transition<C>(self, event: MatchEvent<C>, next: MatchFlow, action: MatchAction) -> bool {
        match (self.phase, event) {
            (MatchPhase::AwaitingTask, MatchEvent::TaskLoaded(answer)) => match answer {
                Err(e) => self.fails(next, action, e),
                Ok(None) => {
                    &&& self.moved_to(next, MatchPhase::Finished)
                    &&& action matches MatchAction::Reply { outcome: Err(e) }
                    &&& e matches AppError::NotFound(m)
                    &&& m@ == task_not_found_message(self.task_id@)
                },
                Ok(Some(task)) => {
                    &&& self.moved_to(next, MatchPhase::AwaitingExistingMatch { task })
                    &&& action == MatchAction::FindExistingMatch {
                        task_id: self.task_id,
                        volunteer_id: self.volunteer_id,
                    }
                },
            },
            (
                MatchPhase::AwaitingExistingMatch { task },
                MatchEvent::ExistingMatchFound(answer),
            ) => match answer {
                Err(e) => self.fails(next, action, e),
                Ok(Some(m)) => {
                    &&& self.moved_to(next, MatchPhase::Finished)
                    &&& action matches MatchAction::Reply { outcome: Ok(reply) }
                    &&& !reply.created
                    &&& reply.response.match_id == m.match_id
                    &&& reply.response.status == m.status
                    &&& reply.response.matched_at == m.matched_at
                    &&& reply.response.note matches Some(n)
                    &&& n@ == "match already exists"@
                },
                Ok(None) => if accepts_volunteers(task.status@) {
                    &&& self.moved_to(next, MatchPhase::AwaitingVolunteer { task })
                    &&& action == MatchAction::LoadVolunteer { volunteer_id: self.volunteer_id }
                } else {
                    self.refuses(next, action, "task is not accepting volunteers"@)
                },
            },
            (MatchPhase::AwaitingVolunteer { task }, MatchEvent::VolunteerLoaded(answer)) => match answer {
                Err(e) => self.fails(next, action, e),
                Ok(None) => self.refuses(next, action, "volunteer not found"@),
                Ok(Some(v)) => if v.availability@ != "available"@ || !has_skills(
                    task.required_skills@,
                    v.skills@,
                ) {
                    self.refuses(next, action, "volunteer is not available or skills do not match"@)
                } else if v.area@ != task.location_id@ {
                    self.refuses(next, action, "volunteer area does not match task location"@)
                } else {
                    &&& self.moved_to(next, MatchPhase::AwaitingIncrement { task })
                    &&& action == MatchAction::IncrementMatched {
                        task_id: self.task_id,
                        volunteers_needed: task.volunteers_needed,
                    }
                },
            },
            (
                MatchPhase::AwaitingIncrement { task },
                MatchEvent::MatchedCountIncremented(answer),
            ) => match answer {
                Err(e) => self.fails(next, action, e),
                Ok(()) => {
                    &&& next.phase matches MatchPhase::AwaitingMatchRecord { record }
                    &&& self.moved_to(next, MatchPhase::AwaitingMatchRecord { record })
                    &&& self.pending_record(record)
                    &&& action == MatchAction::CreateMatch { record }
                },
            },
            (MatchPhase::AwaitingMatchRecord { record }, MatchEvent::MatchStored(answer)) => match answer {
                Err(e) => self.fails(next, action, e),
                Ok(()) => {
                    &&& self.moved_to(next, MatchPhase::AwaitingAvailability { record })
                    &&& action matches MatchAction::SetAvailability { volunteer_id, availability }
                    &&& volunteer_id == self.volunteer_id
                    &&& availability@ == "busy"@
                },
            },
            (
                MatchPhase::AwaitingAvailability { record },
                MatchEvent::AvailabilityStored(answer),
            ) => match answer {
                Err(e) => self.fails(next, action, e),
                Ok(()) => {
                    &&& self.moved_to(next, MatchPhase::Finished)
                    &&& action == MatchAction::Reply {
                        outcome: Ok(
                            MatchReply {
                                created: true,
                                response: MatchResponse {
                                    match_id: record.match_id,
                                    status: record.status,
                                    matched_at: record.matched_at,
                                    note: None,
                                },
                            },
                        ),
                    }
                },
            },
            _ => false,
        }
    }
}


/// A copy of `m`.
pub fn copy_match(m: &Match) -> (r: Match)
    ensures
        r == *m,
{
    Match {
        match_id: m.match_id.clone(),
        task_id: m.task_id.clone(),
        volunteer_id: m.volunteer_id.clone(),
        status: m.status.clone(),
        matched_at: m.matched_at,
    }
}

/// A pending match of `volunteer_id` to `task_id`, made at `now`, with the
/// identifier `match_id`.
pub fn pending_match(match_id: String, task_id: String, volunteer_id: String, now: Timestamp) -> (m: Match)
    ensures
        m.match_id == match_id,
        m.task_id == task_id,
        m.volunteer_id == volunteer_id,
        m.status@ == "pending"@,
        m.matched_at == now,
{
    Match { match_id, task_id, volunteer_id, status: String::from_str("pending"), matched_at: now }
}

impl MatchFlow {
    /// Starts matching the volunteer of `req` to the task `task_id`: a
    /// request without a volunteer id is refused at once; otherwise the task
    /// is read first.
    pub fn start(task_id: String, req: MatchVolunteerRequest) -> (r: (MatchFlow, MatchAction))
        ensures
            r.0.wf(),
            r.0.task_id == task_id,
            r.0.volunteer_id == req.volunteer_id,
            blank(req.volunteer_id@) ==> {
                &&& r.0.phase is Finished
                &&& r.1 matches MatchAction::Reply { outcome: Err(e) }
                &&& e matches AppError::BadRequest(m)
                &&& m@ == "volunteer_id is required"@
            },
            !blank(req.volunteer_id@) ==> {
                &&& r.0.phase is AwaitingTask
                &&& r.1 == MatchAction::LoadTask { task_id }
            },
    {
        if is_blank(req.volunteer_id.as_str()) {
            let flow = MatchFlow { task_id, volunteer_id: req.volunteer_id, phase: MatchPhase::Finished };
            let reply = MatchAction::Reply {
                outcome: Err(AppError::BadRequest(String::from_str("volunteer_id is required"))),
            };
            return (flow, reply);
        }
        let action = MatchAction::LoadTask { task_id: task_id.clone() };
        (MatchFlow { task_id, volunteer_id: req.volunteer_id, phase: MatchPhase::AwaitingTask }, action)
    }

    /// Whether `event` answers the action that the workflow waits for.
    pub fn accepts_event<C>(&self, event: &MatchEvent<C>) -> (b: bool)
        ensures
            b == self.awaits(*event),
    {
        match (&self.phase, event) {
            (MatchPhase::AwaitingTask, MatchEvent::TaskLoaded(_)) => true,
            (MatchPhase::AwaitingExistingMatch { .. }, MatchEvent::ExistingMatchFound(_)) => true,
            (MatchPhase::AwaitingVolunteer { .. }, MatchEvent::VolunteerLoaded(_)) => true,
            (MatchPhase::AwaitingIncrement { .. }, MatchEvent::MatchedCountIncremented(_)) => true,
            (MatchPhase::AwaitingMatchRecord { .. }, MatchEvent::MatchStored(_)) => true,
            (MatchPhase::AwaitingAvailability { .. }, MatchEvent::AvailabilityStored(_)) => true,
            _ => false,
        }
    }

    /// One step of the workflow: from the store's answer to the last action,
    /// the next state and what to do next (see `transition`).
    pub fn step<C>(self, event: MatchEvent<C>) -> (r: (MatchFlow, MatchAction))
        requires
            self.awaits(event),
        ensures
            self.transition(event, r.0, r.1),
            self.wf() ==> r.0.wf(),
            r.0.phase.rank() > self.phase.rank(),
    {
        let MatchFlow { task_id, volunteer_id, phase } = self;
        match phase {
            MatchPhase::AwaitingTask => {
                let answer = match event {
                    MatchEvent::TaskLoaded(a) => a,
                    _ => { assert(false); unreached() },
                };
                match answer {
                    Err(e) => Self::finish(task_id, volunteer_id, Err(e)),
                    Ok(None) => {
                        let e = AppError::NotFound(concat3("task ", task_id.as_str(), " not found"));
                        Self::finish(task_id, volunteer_id, Err(e))
                    },
                    Ok(Some(task)) => {
                        let action = MatchAction::FindExistingMatch {
                            task_id: task_id.clone(),
                            volunteer_id: volunteer_id.clone(),
                        };
                        (MatchFlow { task_id, volunteer_id, phase: MatchPhase::AwaitingExistingMatch { task } }, action)
                    },
                }
            },
            MatchPhase::AwaitingExistingMatch { task } => {
                let answer = match event {
                    MatchEvent::ExistingMatchFound(a) => a,
                    _ => { assert(false); unreached() },
                };
                match answer {
                    Err(e) => Self::finish(task_id, volunteer_id, Err(e)),
                    Ok(Some(m)) => {
                        let reply = MatchReply {
                            created: false,
                            response: MatchResponse {
                                match_id: m.match_id,
                                status: m.status,
                                matched_at: m.matched_at,
                                note: Some(String::from_str("match already exists")),
                            },
                        };
                        Self::finish(task_id, volunteer_id, Ok(reply))
                    },
                    Ok(None) => {
                        if text_is(&task.status, "open") || text_is(&task.status, "partially_filled") {
                            let action = MatchAction::LoadVolunteer { volunteer_id: volunteer_id.clone() };
                            (MatchFlow { task_id, volunteer_id, phase: MatchPhase::AwaitingVolunteer { task } }, action)
                        } else {
                            Self::refuse(task_id, volunteer_id, "task is not accepting volunteers")
                        }
                    },
                }
            },
            MatchPhase::AwaitingVolunteer { task } => {
                let answer = match event {
                    MatchEvent::VolunteerLoaded(a) => a,
                    _ => { assert(false); unreached() },
                };
                match answer {
                    Err(e) => Self::finish(task_id, volunteer_id, Err(e)),
                    Ok(None) => Self::refuse(task_id, volunteer_id, "volunteer not found"),
                    Ok(Some(v)) => {
                        if !text_is(&v.availability, "available") || !covers_skills(&task.required_skills, &v.skills) {
                            Self::refuse(task_id, volunteer_id, "volunteer is not available or skills do not match")
                        } else if v.area != task.location_id {
                            Self::refuse(task_id, volunteer_id, "volunteer area does not match task location")
                        } else {
                            let action = MatchAction::IncrementMatched {
                                task_id: task_id.clone(),
                                volunteers_needed: task.volunteers_needed,
                            };
                            (MatchFlow { task_id, volunteer_id, phase: MatchPhase::AwaitingIncrement { task } }, action)
                        }
                    },
                }
            },
            MatchPhase::AwaitingIncrement { task } => {
                let answer = match event {
                    MatchEvent::MatchedCountIncremented(a) => a,
                    _ => { assert(false); unreached() },
                };
                match answer {
                    Err(e) => Self::finish(task_id, volunteer_id, Err(e)),
                    Ok(()) => {
                        let match_id = new_identifier("MATCH-");
                        let now = utc_now();
                        let record = pending_match(match_id, task_id.clone(), volunteer_id.clone(), now);
                        let action = MatchAction::CreateMatch { record: copy_match(&record) };
                        (MatchFlow { task_id, volunteer_id, phase: MatchPhase::AwaitingMatchRecord { record } }, action)
                    },
                }
            },
            MatchPhase::AwaitingMatchRecord { record } => {
                let answer = match event {
                    MatchEvent::MatchStored(a) => a,
                    _ => { assert(false); unreached() },
                };
                match answer {
                    Err(e) => Self::finish(task_id, volunteer_id, Err(e)),
                    Ok(()) => {
                        let action = MatchAction::SetAvailability {
                            volunteer_id: volunteer_id.clone(),
                            availability: String::from_str("busy"),
                        };
                        (MatchFlow { task_id, volunteer_id, phase: MatchPhase::AwaitingAvailability { record } }, action)
                    },
                }
            },
            MatchPhase::AwaitingAvailability { record } => {
                let answer = match event {
                    MatchEvent::AvailabilityStored(a) => a,
                    _ => { assert(false); unreached() },
                };
                match answer {
                    Err(e) => Self::finish(task_id, volunteer_id, Err(e)),
                    Ok(()) => {
                        let reply = MatchReply {
                            created: true,
                            response: MatchResponse {
                                match_id: record.match_id,
                                status: record.status,
                                matched_at: record.matched_at,
                                note: None,
                            },
                        };
                        Self::finish(task_id, volunteer_id, Ok(reply))
                    },
                }
            },
            MatchPhase::Finished => {
                assert(false);
                unreached()
            },
        }
    }

    /// Ends the workflow with `outcome`.
    fn finish(task_id: String, volunteer_id: String, outcome: Result<MatchReply, AppError>) -> (r: (MatchFlow, MatchAction))
        ensures
            r.0 == (MatchFlow { task_id, volunteer_id, phase: MatchPhase::Finished }),
            r.1 == (MatchAction::Reply { outcome }),
    {
        (MatchFlow { task_id, volunteer_id, phase: MatchPhase::Finished }, MatchAction::Reply { outcome })
    }

    /// Ends the workflow, refusing the request with `msg`.
    fn refuse(task_id: String, volunteer_id: String, msg: &str) -> (r: (MatchFlow, MatchAction))
        ensures
            r.0 == (MatchFlow { task_id, volunteer_id, phase: MatchPhase::Finished }),
            r.1 matches MatchAction::Reply { outcome: Err(e) },
            r.1 matches MatchAction::Reply { outcome: Err(e) } ==> is_unprocessable(e, msg@),
    {
        Self::finish(task_id, volunteer_id, Err(AppError::UnprocessableEntity(String::from_str(msg))))
    }
}


/// `flows`, `events` and `actions` are a run of the workflow: it starts
/// waiting for the task, having asked for it, and each
/// step `i` turns `flows[i]` and the answer `events[i]` into `flows[i + 1]`
/// and `actions[i + 1]`.
pub open spec fn is_run<C>(
    flows: Seq<MatchFlow>,
    events: Seq<MatchEvent<C>>,
    actions: Seq<MatchAction>,
) -> bool {
    &&& flows.len() == events.len() + 1
    &&& actions.len() == events.len() + 1
    &&& flows[0].phase is AwaitingTask
    &&& actions[0] == (MatchAction::LoadTask { task_id: flows[0].task_id })
    &&& forall|i: int|
        0 <= i < events.len() ==> #[trigger] flows[i].transition(
            events[i],
            flows[i + 1],
            actions[i + 1],
        )
}

/// A volunteer is counted for a task only once the task was found taking
/// volunteers, no match of the pair was found, and the volunteer was found
/// available, skilled for the task and in its location.
pub proof fn lemma_count_only_eligible<C>(
    flows: Seq<MatchFlow>,
    events: Seq<MatchEvent<C>>,
    actions: Seq<MatchAction>,
    k: int,
)
    requires
        is_run(flows, events, actions),
        0 <= k < actions.len(),
        actions[k] is IncrementMatched,
    ensures
        k >= 3,
        flows[k - 1].phase matches MatchPhase::AwaitingVolunteer { task } && {
            &&& events[k - 1] matches MatchEvent::VolunteerLoaded(Ok(Some(v)))
            &&& eligible(task, v)
            &&& accepts_volunteers(task.status@)
        },
        events[k - 2] matches MatchEvent::ExistingMatchFound(Ok(None)),
        events[k - 3] matches MatchEvent::TaskLoaded(Ok(Some(t))),
{
    assert(k != 0) by {
        assert(flows[0].phase is AwaitingTask);
    }
    assert(flows[k - 1].transition(events[k - 1], flows[(k - 1) + 1], actions[(k - 1) + 1]));
    assert(flows[k - 1].phase is AwaitingVolunteer);
    assert(k - 1 != 0);
    assert(flows[k - 2].transition(events[k - 2], flows[(k - 2) + 1], actions[(k - 2) + 1]));
    assert(flows[k - 2].phase is AwaitingExistingMatch);
    assert(k - 2 != 0);
    assert(flows[k - 3].transition(events[k - 3], flows[(k - 3) + 1], actions[(k - 3) + 1]));
    assert(flows[k - 3].phase is AwaitingTask);
    let task = flows[k - 1].phase->AwaitingVolunteer_task;
    assert(accepts_volunteers(task.status@));
}

/// A match is stored only right after the volunteer was counted for the
/// task, and it is a pending match of the requested volunteer to the
/// requested task.
pub proof fn lemma_store_only_after_count<C>(
    flows: Seq<MatchFlow>,
    events: Seq<MatchEvent<C>>,
    actions: Seq<MatchAction>,
    k: int,
)
    requires
        is_run(flows, events, actions),
        0 <= k < actions.len(),
        actions[k] is CreateMatch,
    ensures
        k >= 4,
        actions[k - 1] is IncrementMatched,
        events[k - 1] matches MatchEvent::MatchedCountIncremented(Ok(())),
        actions[k] matches MatchAction::CreateMatch { record } && {
            &&& record.task_id == flows[k].task_id
            &&& record.volunteer_id == flows[k].volunteer_id
            &&& record.status@ == "pending"@
        },
{
    assert(k != 0) by {
        assert(flows[0].phase is AwaitingTask);
    }
    assert(flows[k - 1].transition(events[k - 1], flows[(k - 1) + 1], actions[(k - 1) + 1]));
    assert(flows[k - 1].phase is AwaitingIncrement);
    assert(k - 1 != 0);
    assert(flows[k - 2].transition(events[k - 2], flows[(k - 2) + 1], actions[(k - 2) + 1]));
    lemma_count_only_eligible(flows, events, actions, k - 1);
}

/// A request is answered with a newly created match only after the match
/// was stored and the volunteer marked busy, and the answer names the
/// stored match.
pub proof fn lemma_created_after_writes<C>(
    flows: Seq<MatchFlow>,
    events: Seq<MatchEvent<C>>,
    actions: Seq<MatchAction>,
    k: int,
)
    requires
        is_run(flows, events, actions),
        0 <= k < actions.len(),
        actions[k] matches MatchAction::Reply { outcome: Ok(reply) } && reply.created,
    ensures
        k >= 6,
        actions[k - 1] matches MatchAction::SetAvailability { volunteer_id, availability } && {
            &&& volunteer_id == flows[k].volunteer_id
            &&& availability@ == "busy"@
        },
        actions[k - 2] matches MatchAction::CreateMatch { record } && {
            &&& actions[k] matches MatchAction::Reply { outcome: Ok(reply) }
            &&& reply.response.match_id == record.match_id
            &&& reply.response.status@ == "pending"@
        },
        actions[k - 3] is IncrementMatched,
{
    assert(k != 0) by {
        assert(flows[0].phase is AwaitingTask);
    }
    assert(flows[k - 1].transition(events[k - 1], flows[(k - 1) + 1], actions[(k - 1) + 1]));
    assert(flows[k - 1].phase is AwaitingAvailability);
    assert(k - 1 != 0);
    assert(flows[k - 2].transition(events[k - 2], flows[(k - 2) + 1], actions[(k - 2) + 1]));
    assert(flows[k - 2].phase is AwaitingMatchRecord);
    assert(k - 2 != 0);
    assert(flows[k - 3].transition(events[k - 3], flows[(k - 3) + 1], actions[(k - 3) + 1]));
    assert(flows[k - 3].phase is AwaitingIncrement);
    lemma_store_only_after_count(flows, events, actions, k - 2);
}

/// A request for a pair that is already matched is answered with the
/// existing match, noted as such, whatever the task's status now is (the
/// lookup comes before every other check on the task and the volunteer),
/// and nothing more is done: that answer is the run's last action, so
/// nothing is counted, stored or changed.
pub proof fn lemma_existing_match_ends_run<C>(
    flows: Seq<MatchFlow>,
    events: Seq<MatchEvent<C>>,
    actions: Seq<MatchAction>,
    i: int,
)
    requires
        is_run(flows, events, actions),
        0 <= i < events.len(),
        events[i] matches MatchEvent::ExistingMatchFound(Ok(Some(m))),
    ensures
        i + 1 == actions.len() - 1,
        events[i] matches MatchEvent::ExistingMatchFound(Ok(Some(m))) && {
            &&& actions[i + 1] matches MatchAction::Reply { outcome: Ok(reply) }
            &&& !reply.created
            &&& reply.response.match_id == m.match_id
            &&& reply.response.status == m.status
            &&& reply.response.matched_at == m.matched_at
        },
{
    assert(flows[i].transition(events[i], flows[i + 1], actions[i + 1]));
    if i + 1 < events.len() {
        assert(flows[i + 1].transition(events[i + 1], flows[(i + 1) + 1], actions[(i + 1) + 1]));
        assert(false);
    }
}

/// A run takes at most six steps: each step moves the workflow further,
/// and a finished workflow takes no more answers.
pub proof fn lemma_run_is_short<C>(
    flows: Seq<MatchFlow>,
    events: Seq<MatchEvent<C>>,
    actions: Seq<MatchAction>,
)
    requires
        is_run(flows, events, actions),
    ensures
        events.len() <= 6,
        forall|i: int| 0 <= i < flows.len() ==> #[trigger] flows[i].phase.rank() >= i,
    decreases events.len(),
{
    if events.len() > 0 {
        let n: int = events.len() - 1;
        lemma_run_is_short(flows.take(n + 1), events.take(n), actions.take(n + 1));
        assert(flows[n].transition(events[n], flows[n + 1], actions[n + 1]));
        assert(flows.take(n + 1)[n] == flows[n]);
        assert forall|i: int| 0 <= i < flows.len() implies #[trigger] flows[i].phase.rank() >= i by {
            if i <= n {
                assert(flows.take(n + 1)[i] == flows[i]);
            }
        }
        assert(flows[n].phase.rank() >= n);
    }
}


/// A task stays open to volunteers exactly until its last needed volunteer
/// is counted: the status that counting gives takes further volunteers
/// while fewer than needed are matched, and refuses them once all are.
/// A newly created task (status `open`) takes volunteers.
pub proof fn lemma_filled_tasks_refuse(matched: int, needed: int)
    ensures
        accepts_volunteers(status_after(matched, needed)) <==> matched < needed,
        accepts_volunteers("open"@),
{
    reveal_strlit("filled");
    reveal_strlit("partially_filled");
    reveal_strlit("open");
    assert("filled"@[0] != "open"@[0]);
    assert("filled"@.len() != "partially_filled"@.len());
}

} // verus!
