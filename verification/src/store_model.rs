//! A model of the stored tasks and matches, what each store operation of the
//! matching workflow does to it, and what the workflow keeps true of it:
//! every task's counter equals the number of its stored matches and stays
//! within what the task needs, no volunteer is matched to a task twice,
//! every successful answer names a stored match of the pair, and a repeated
//! request is answered with the match that the first one stored.
use vstd::prelude::*;
use crate::clock::Timestamp;
use crate::matching::{is_run, status_after, MatchAction, MatchEvent, MatchFlow, MatchPhase};
use crate::models::match_model::{Match, MatchResponse};

verus! {

/// A stored task, as far as matching reads and changes it.
pub struct TaskRow {
    pub matched: int,
    pub needed: int,
    pub status: Seq<char>,
}

/// A stored match.
pub struct MatchRow {
    pub match_id: Seq<char>,
    pub task_id: Seq<char>,
    pub volunteer_id: Seq<char>,
    pub status: Seq<char>,
    pub matched_at: Timestamp,
}

/// The stored tasks, by id, and the stored matches, in the order they were
/// stored.
pub struct StoreModel {
    pub tasks: Map<Seq<char>, TaskRow>,
    pub matches: Seq<MatchRow>,
}

/// The stored form of a match record.
pub open spec fn row_of(m: Match) -> MatchRow {
    MatchRow {
        match_id: m.match_id@,
        task_id: m.task_id@,
        volunteer_id: m.volunteer_id@,
        status: m.status@,
        matched_at: m.matched_at,
    }
}

/// How many of `matches` are for the task `task_id`.
pub open spec fn count_for(matches: Seq<MatchRow>, task_id: Seq<char>) -> nat
    decreases matches.len(),
{
    if matches.len() == 0 {
        0
    } else {
        count_for(matches.drop_last(), task_id) + if matches.last().task_id == task_id {
            1nat
        } else {
            0nat
        }
    }
}

/// The stored match `row` pairs `volunteer_id` with `task_id`.
pub open spec fn pairs(row: MatchRow, task_id: Seq<char>, volunteer_id: Seq<char>) -> bool {
    row.task_id == task_id && row.volunteer_id == volunteer_id
}

/// Some stored match pairs `volunteer_id` with `task_id`.
pub open spec fn has_pair(matches: Seq<MatchRow>, task_id: Seq<char>, volunteer_id: Seq<char>) -> bool {
    exists|i: int| 0 <= i < matches.len() && pairs(#[trigger] matches[i], task_id, volunteer_id)
}

/// `row` is stored.
pub open spec fn holds_row(matches: Seq<MatchRow>, row: MatchRow) -> bool {
    exists|i: int| 0 <= i < matches.len() && #[trigger] matches[i] == row
}

/// No two stored matches pair the same volunteer and task.
pub open spec fn pairs_distinct(matches: Seq<MatchRow>) -> bool {
    forall|i: int, j: int|
        0 <= i < j < matches.len() ==> !pairs(
            #[trigger] matches[i],
            (#[trigger] matches[j]).task_id,
            matches[j].volunteer_id,
        )
}

/// The task `task_id`'s counter equals its stored matches and is within
/// its need.
pub open spec fn task_consistent(db: StoreModel, task_id: Seq<char>) -> bool {
    &&& db.tasks[task_id].matched == count_for(db.matches, task_id)
    &&& db.tasks[task_id].matched <= db.tasks[task_id].needed
}

/// The store's invariant.
pub open spec fn store_ok(db: StoreModel) -> bool {
    &&& forall|t: Seq<char>| #[trigger] db.tasks.contains_key(t) ==> task_consistent(db, t)
    &&& pairs_distinct(db.matches)
}

/// The answer `r` names a match stored for the pair: its id, status and
/// time are those of a stored match of `volunteer_id` to `task_id`.
pub open spec fn names_stored_match(
    db: StoreModel,
    task_id: Seq<char>,
    volunteer_id: Seq<char>,
    r: MatchResponse,
) -> bool {
    exists|i: int|
        0 <= i < db.matches.len() && {
            let row = #[trigger] db.matches[i];
            &&& pairs(row, task_id, volunteer_id)
            &&& row.match_id == r.match_id@
            &&& row.status == r.status@
            &&& row.matched_at == r.matched_at
        }
}

/// The store `db`, asked to perform `action`, answers `event` without a
/// store error and becomes `db2`. Reads change nothing, and the search for
/// a pair's match gives the stored match of the pair; counting one more
/// volunteer does what `plan_increment` decides, against the stored
/// counter; storing a match adds it; availability is not modelled.
pub open spec fn answers<C>(db: StoreModel, action: MatchAction, event: MatchEvent<C>, db2: StoreModel) -> bool {
    match action {
        MatchAction::LoadTask { task_id } => {
            &&& db2 == db
            &&& event matches MatchEvent::TaskLoaded(Ok(found))
            &&& (found is None <==> !db.tasks.contains_key(task_id@))
            &&& found matches Some(t) ==> {
                &&& t.volunteers_matched == db.tasks[task_id@].matched
                &&& t.volunteers_needed == db.tasks[task_id@].needed
                &&& t.status@ == db.tasks[task_id@].status
            }
        },
        MatchAction::FindExistingMatch { task_id, volunteer_id } => {
            &&& db2 == db
            &&& event matches MatchEvent::ExistingMatchFound(Ok(found))
            &&& (found is None <==> !has_pair(db.matches, task_id@, volunteer_id@))
            &&& found matches Some(m) ==> {
                &&& pairs(row_of(m), task_id@, volunteer_id@)
                &&& holds_row(db.matches, row_of(m))
            }
        },
        MatchAction::LoadVolunteer { .. } => {
            &&& db2 == db
            &&& event matches MatchEvent::VolunteerLoaded(Ok(_))
        },
        MatchAction::IncrementMatched { task_id, volunteers_needed } => {
            &&& event matches MatchEvent::MatchedCountIncremented(r)
            &&& if db.tasks.contains_key(task_id@) && db.tasks[task_id@].matched + 1
                <= volunteers_needed {
                &&& r is Ok
                &&& db2 == StoreModel {
                    tasks: db.tasks.insert(
                        task_id@,
                        TaskRow {
                            matched: db.tasks[task_id@].matched + 1,
                            needed: db.tasks[task_id@].needed,
                            status: status_after(
                                db.tasks[task_id@].matched + 1,
                                volunteers_needed as int,
                            ),
                        },
                    ),
                    matches: db.matches,
                }
            } else {
                r is Err && db2 == db
            }
        },
        MatchAction::CreateMatch { record } => {
            &&& event matches MatchEvent::MatchStored(Ok(()))
            &&& db2 == StoreModel { tasks: db.tasks, matches: db.matches.push(row_of(record)) }
        },
        MatchAction::SetAvailability { .. } => {
            &&& event matches MatchEvent::AvailabilityStored(Ok(()))
            &&& db2 == db
        },
        MatchAction::Reply { .. } => false,
    }
}

/// What holds while the workflow `flow` waits for the store's answer to
/// `action`: the invariant (except for the task being counted, between its
/// count and its stored match), the loaded task's need as stored, once no
/// match of the pair was found still none, once the match is stored that it
/// is, and, when the request is answered with a match, that the match is
/// stored for the pair.
pub open spec fn in_step(flow: MatchFlow, action: MatchAction, db: StoreModel) -> bool {
    let tid = flow.task_id@;
    let vid = flow.volunteer_id@;
    match flow.phase {
        MatchPhase::AwaitingTask => {
            &&& store_ok(db)
            &&& action == (MatchAction::LoadTask { task_id: flow.task_id })
        },
        MatchPhase::AwaitingExistingMatch { task } => {
            &&& store_ok(db)
            &&& db.tasks.contains_key(tid)
            &&& db.tasks[tid].needed == task.volunteers_needed
            &&& action == (MatchAction::FindExistingMatch {
                task_id: flow.task_id,
                volunteer_id: flow.volunteer_id,
            })
        },
        MatchPhase::AwaitingVolunteer { task } => {
            &&& store_ok(db)
            &&& db.tasks.contains_key(tid)
            &&& db.tasks[tid].needed == task.volunteers_needed
            &&& !has_pair(db.matches, tid, vid)
            &&& action == (MatchAction::LoadVolunteer { volunteer_id: flow.volunteer_id })
        },
        MatchPhase::AwaitingIncrement { task } => {
            &&& store_ok(db)
            &&& db.tasks.contains_key(tid)
            &&& db.tasks[tid].needed == task.volunteers_needed
            &&& !has_pair(db.matches, tid, vid)
            &&& action == (MatchAction::IncrementMatched {
                task_id: flow.task_id,
                volunteers_needed: task.volunteers_needed,
            })
        },
        MatchPhase::AwaitingMatchRecord { record } => {
            &&& forall|t: Seq<char>| #[trigger] db.tasks.contains_key(t) && t != tid ==> task_consistent(db, t)
            &&& pairs_distinct(db.matches)
            &&& db.tasks.contains_key(tid)
            &&& db.tasks[tid].matched == count_for(db.matches, tid) + 1
            &&& db.tasks[tid].matched <= db.tasks[tid].needed
            &&& !has_pair(db.matches, tid, vid)
            &&& pairs(row_of(record), tid, vid)
            &&& action == (MatchAction::CreateMatch { record })
        },
        MatchPhase::AwaitingAvailability { record } => {
            &&& store_ok(db)
            &&& db.tasks.contains_key(tid)
            &&& pairs(row_of(record), tid, vid)
            &&& holds_row(db.matches, row_of(record))
            &&& action is SetAvailability
        },
        MatchPhase::Finished => {
            &&& store_ok(db)
            &&& action is Reply
            &&& action matches MatchAction::Reply { outcome: Ok(reply) } ==> {
                &&& db.tasks.contains_key(tid)
                &&& names_stored_match(db, tid, vid, reply.response)
            }
        },
    }
}

/// Storing one more match adds one to its task's count and leaves the
/// other tasks' counts alone.
pub proof fn lemma_count_push(matches: Seq<MatchRow>, m: MatchRow, task_id: Seq<char>)
    ensures
        count_for(matches.push(m), task_id) == count_for(matches, task_id) + if m.task_id
            == task_id {
            1nat
        } else {
            0nat
        },
{
    assert(matches.push(m).drop_last() =~= matches);
}

/// Adding a match for a pair that has none keeps the pairs distinct, and
/// the match is then stored.
pub proof fn lemma_push_distinct(matches: Seq<MatchRow>, row: MatchRow)
    requires
        pairs_distinct(matches),
        !has_pair(matches, row.task_id, row.volunteer_id),
    ensures
        pairs_distinct(matches.push(row)),
        holds_row(matches.push(row), row),
{
    let ms = matches.push(row);
    assert forall|i: int, j: int| 0 <= i < j < ms.len() implies !pairs(
        #[trigger] ms[i],
        (#[trigger] ms[j]).task_id,
        ms[j].volunteer_id,
    ) by {
        if j == matches.len() {
            assert(ms[i] == matches[i]);
        } else {
            assert(ms[i] == matches[i] && ms[j] == matches[j]);
        }
    }
    assert(ms[matches.len() as int] == row);
}

/// Two stored matches of one pair are the same match.
pub proof fn lemma_pair_unique(matches: Seq<MatchRow>, i: int, j: int)
    requires
        pairs_distinct(matches),
        0 <= i < matches.len(),
        0 <= j < matches.len(),
        pairs(matches[i], matches[j].task_id, matches[j].volunteer_id),
    ensures
        i == j,
{
    if i < j {
        assert(!pairs(matches[i], matches[j].task_id, matches[j].volunteer_id));
    } else if j < i {
        assert(!pairs(matches[j], matches[i].task_id, matches[i].volunteer_id));
    }
}

/// One step of the workflow, with the store answering without error, keeps
/// `in_step`.
pub proof fn lemma_step_keeps_store<C>(
    flow: MatchFlow,
    action: MatchAction,
    db: StoreModel,
    event: MatchEvent<C>,
    db2: StoreModel,
    next: MatchFlow,
    action2: MatchAction,
)
    requires
        in_step(flow, action, db),
        answers(db, action, event, db2),
        flow.transition(event, next, action2),
    ensures
        in_step(next, action2, db2),
{
    let tid = flow.task_id@;
    let vid = flow.volunteer_id@;
    match flow.phase {
        MatchPhase::AwaitingExistingMatch { task } => {
            match event {
                MatchEvent::ExistingMatchFound(Ok(Some(m))) => {
                    let i = choose|i: int| 0 <= i < db.matches.len() && #[trigger] db.matches[i] == row_of(m);
                    assert(pairs(db.matches[i], tid, vid));
                },
                _ => {},
            }
        },
        MatchPhase::AwaitingIncrement { task } => {
            if event matches MatchEvent::MatchedCountIncremented(Ok(())) {
                assert forall|t: Seq<char>| #[trigger] db2.tasks.contains_key(t) && t != tid implies task_consistent(db2, t) by {
                    assert(db.tasks.contains_key(t));
                    assert(task_consistent(db, t));
                }
            }
        },
        MatchPhase::AwaitingMatchRecord { record } => {
            lemma_push_distinct(db.matches, row_of(record));
            assert forall|t: Seq<char>| #[trigger] db2.tasks.contains_key(t) implies task_consistent(db2, t) by {
                lemma_count_push(db.matches, row_of(record), t);
                if t != tid {
                    assert(task_consistent(db, t));
                }
            }
        },
        MatchPhase::AwaitingAvailability { record } => {
            if event matches MatchEvent::AvailabilityStored(Ok(())) {
                let i = choose|i: int| 0 <= i < db.matches.len() && #[trigger] db.matches[i] == row_of(record);
                assert(pairs(db.matches[i], tid, vid));
            }
        },
        _ => {},
    }
}

/// Every flow of a run serves the request it started with.
pub proof fn lemma_run_keeps_request<C>(
    flows: Seq<MatchFlow>,
    events: Seq<MatchEvent<C>>,
    actions: Seq<MatchAction>,
    i: int,
)
    requires
        is_run(flows, events, actions),
        0 <= i < flows.len(),
    ensures
        flows[i].task_id == flows[0].task_id,
        flows[i].volunteer_id == flows[0].volunteer_id,
    decreases i,
{
    if i > 0 {
        lemma_run_keeps_request(flows, events, actions, i - 1);
        assert(flows[i - 1].transition(events[i - 1], flows[(i - 1) + 1], actions[(i - 1) + 1]));
    }
}

proof fn lemma_in_step_at<C>(
    flows: Seq<MatchFlow>,
    events: Seq<MatchEvent<C>>,
    actions: Seq<MatchAction>,
    dbs: Seq<StoreModel>,
    i: int,
)
    requires
        is_run(flows, events, actions),
        dbs.len() == flows.len(),
        store_ok(dbs[0]),
        forall|i: int|
            0 <= i < events.len() ==> #[trigger] answers(dbs[i], actions[i], events[i], dbs[i + 1]),
        0 <= i < flows.len(),
    ensures
        in_step(flows[i], actions[i], dbs[i]),
    decreases i,
{
    if i > 0 {
        let k = i - 1;
        lemma_in_step_at(flows, events, actions, dbs, k);
        assert(answers(dbs[k], actions[k], events[k], dbs[k + 1]));
        assert(flows[k].transition(events[k], flows[k + 1], actions[k + 1]));
        lemma_step_keeps_store(flows[k], actions[k], dbs[k], events[k], dbs[k + 1], flows[k + 1], actions[k + 1]);
    }
}

/// Matching keeps the store consistent: in a run of the workflow whose every
/// store operation is answered without error by a store that starts
/// consistent, the store is consistent again whenever the workflow is not
/// between counting a volunteer and storing the match, and in particular
/// once the request is answered. Every task's counter then equals its
/// stored matches and stays within its need, and no volunteer is matched to
/// a task twice. A request answered with a match (new or existing) leaves
/// that match stored for the requested pair, and the task stored.
pub proof fn lemma_matching_keeps_store_consistent<C>(
    flows: Seq<MatchFlow>,
    events: Seq<MatchEvent<C>>,
    actions: Seq<MatchAction>,
    dbs: Seq<StoreModel>,
)
    requires
        is_run(flows, events, actions),
        dbs.len() == flows.len(),
        store_ok(dbs[0]),
        forall|i: int|
            0 <= i < events.len() ==> #[trigger] answers(dbs[i], actions[i], events[i], dbs[i + 1]),
    ensures
        forall|i: int|
            0 <= i < flows.len() && !(flows[i].phase is AwaitingMatchRecord) ==> #[trigger] store_ok(
                dbs[i],
            ),
        flows.last().phase is Finished ==> store_ok(dbs.last()),
        flows.last().phase is Finished ==> (actions.last() matches MatchAction::Reply {
            outcome: Ok(reply),
        } ==> {
            &&& dbs.last().tasks.contains_key(flows[0].task_id@)
            &&& names_stored_match(
                dbs.last(),
                flows[0].task_id@,
                flows[0].volunteer_id@,
                reply.response,
            )
        }),
{
    assert forall|i: int| 0 <= i < flows.len() implies #[trigger] in_step(flows[i], actions[i], dbs[i]) by {
        lemma_in_step_at(flows, events, actions, dbs, i);
    }
    assert forall|i: int|
        0 <= i < flows.len() && !(flows[i].phase is AwaitingMatchRecord) implies #[trigger] store_ok(
        dbs[i],
    ) by {
        assert(in_step(flows[i], actions[i], dbs[i]));
    }
    let n = flows.len() - 1;
    assert(in_step(flows[n], actions[n], dbs[n]));
    lemma_run_keeps_request(flows, events, actions, n);
}

/// A request for a pair that has a stored match, made on a consistent
/// store that answers without error, ends after reading the task and
/// finding the match: it is answered, not as a new match, with the stored
/// match's id, status and time, noted as already existing, and the store
/// is left as it was.
pub proof fn lemma_repeat_request_returns_stored_match<C>(
    flows: Seq<MatchFlow>,
    events: Seq<MatchEvent<C>>,
    actions: Seq<MatchAction>,
    dbs: Seq<StoreModel>,
    earlier: MatchResponse,
)
    requires
        is_run(flows, events, actions),
        dbs.len() == flows.len(),
        store_ok(dbs[0]),
        forall|i: int|
            0 <= i < events.len() ==> #[trigger] answers(dbs[i], actions[i], events[i], dbs[i + 1]),
        dbs[0].tasks.contains_key(flows[0].task_id@),
        names_stored_match(dbs[0], flows[0].task_id@, flows[0].volunteer_id@, earlier),
        flows.last().phase is Finished,
    ensures
        events.len() == 2,
        dbs.last() == dbs[0],
        actions.last() matches MatchAction::Reply { outcome: Ok(reply) } && {
            &&& !reply.created
            &&& reply.response.match_id@ == earlier.match_id@
            &&& reply.response.status@ == earlier.status@
            &&& reply.response.matched_at == earlier.matched_at
            &&& reply.response.note matches Some(n)
            &&& n@ == "match already exists"@
        },
{
    let tid = flows[0].task_id@;
    let vid = flows[0].volunteer_id@;
    let db = dbs[0];
    assert(events.len() >= 1) by {
        if events.len() == 0 {
            assert(flows.last() == flows[0]);
        }
    }
    assert(answers(dbs[0], actions[0], events[0], dbs[0int + 1]));
    assert(flows[0].transition(events[0], flows[0int + 1], actions[0int + 1]));
    assert(flows[1].phase is AwaitingExistingMatch);
    assert(events.len() >= 2) by {
        if events.len() == 1 {
            assert(flows.last() == flows[1]);
        }
    }
    assert(answers(dbs[1], actions[1], events[1], dbs[1int + 1]));
    assert(flows[1].transition(events[1], flows[1int + 1], actions[1int + 1]));
    let i = choose|i: int|
        0 <= i < db.matches.len() && {
            let row = #[trigger] db.matches[i];
            &&& pairs(row, tid, vid)
            &&& row.match_id == earlier.match_id@
            &&& row.status == earlier.status@
            &&& row.matched_at == earlier.matched_at
        };
    assert(has_pair(db.matches, tid, vid));
    let m = events[1]->ExistingMatchFound_0->Ok_0->Some_0;
    let j = choose|j: int| 0 <= j < db.matches.len() && #[trigger] db.matches[j] == row_of(m);
    lemma_pair_unique(db.matches, j, i);
    assert(flows[2].phase is Finished);
    if events.len() > 2 {
        assert(flows[2].transition(events[2], flows[2int + 1], actions[2int + 1]));
        assert(false);
    }
}

/// Matching is idempotent: after a request is answered with a match, the
/// same request, made on the store it left and answered without error,
/// gets back that very match (id, status and time), noted as already
/// existing and not announced as new, and changes nothing in the store.
pub proof fn lemma_repeated_request_is_idempotent<C>(
    flows1: Seq<MatchFlow>,
    events1: Seq<MatchEvent<C>>,
    actions1: Seq<MatchAction>,
    dbs1: Seq<StoreModel>,
    flows2: Seq<MatchFlow>,
    events2: Seq<MatchEvent<C>>,
    actions2: Seq<MatchAction>,
    dbs2: Seq<StoreModel>,
)
    requires
        is_run(flows1, events1, actions1),
        dbs1.len() == flows1.len(),
        store_ok(dbs1[0]),
        forall|i: int|
            0 <= i < events1.len() ==> #[trigger] answers(
                dbs1[i],
                actions1[i],
                events1[i],
                dbs1[i + 1],
            ),
        flows1.last().phase is Finished,
        actions1.last() matches MatchAction::Reply { outcome: Ok(_) },
        is_run(flows2, events2, actions2),
        dbs2.len() == flows2.len(),
        dbs2[0] == dbs1.last(),
        forall|i: int|
            0 <= i < events2.len() ==> #[trigger] answers(
                dbs2[i],
                actions2[i],
                events2[i],
                dbs2[i + 1],
            ),
        flows2[0].task_id@ == flows1[0].task_id@,
        flows2[0].volunteer_id@ == flows1[0].volunteer_id@,
        flows2.last().phase is Finished,
    ensures
        events2.len() == 2,
        dbs2.last() == dbs2[0],
        actions1.last() matches MatchAction::Reply { outcome: Ok(first) } && actions2.last() matches MatchAction::Reply { outcome: Ok(second) } && {
            &&& !second.created
            &&& second.response.match_id@ == first.response.match_id@
            &&& second.response.status@ == first.response.status@
            &&& second.response.matched_at == first.response.matched_at
            &&& second.response.note matches Some(n)
            &&& n@ == "match already exists"@
        },
{
    lemma_matching_keeps_store_consistent(flows1, events1, actions1, dbs1);
    let first = actions1.last()->Reply_outcome->Ok_0;
    lemma_repeat_request_returns_stored_match(flows2, events2, actions2, dbs2, first.response);
}

} // verus!
