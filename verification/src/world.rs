//! A model of the two services that a run talks to, the mapping store and
//! the tracker, and what a run against them comes to.
//!
//! The model is ghost code: nothing of it runs. It says what the driver of a
//! [`Reconciler`](crate::reconcile::Reconciler) is expected to do with each
//! action, and the proof functions below state what then holds of every run.
//! In the model the store always works and the rate limiter always admits
//! the next request; what the tracker answers is left open. What a run does
//! when the store fails is said by [`RunView::resume`].

use crate::clickup::{create_request, update_request, ApiView, HttpMethod, RequestView};
use crate::docsoc_ical::EventView;
use crate::error::SyncError;
use crate::models::MappingView;
use crate::reconcile::{update_outcome, ActionView, EventOutcome, ReplyView, RunView};
use vstd::prelude::*;

verus! {

/// The store and the tracker, as far as a run is concerned.
pub struct World {
    /// The rows of the mapping table, oldest first.
    pub rows: Seq<MappingView>,
    /// The requests that the tracker has received, oldest first.
    pub requests: Seq<RequestView>,
    /// The identifier that the tracker gives to the task created by its
    /// request number `n`, or `None` where that request fails.
    pub created_id: spec_fn(int) -> Option<Seq<char>>,
    /// Whether the tracker answers its request number `n`, an update or a
    /// delete, with a success status; `None` where no answer arrives.
    pub update_status: spec_fn(int) -> Option<bool>,
}

/// The oldest row for a calendar event, which is what a lookup finds.
pub open spec fn find_row(rows: Seq<MappingView>, calendar_id: Seq<char>) -> Option<MappingView>
    decreases rows.len(),
{
    if rows.len() == 0 {
        None
    } else {
        match find_row(rows.drop_last(), calendar_id) {
            Some(row) => Some(row),
            None => if rows.last().calendar_id == calendar_id {
                Some(rows.last())
            } else {
                None
            },
        }
    }
}

/// How many rows there are for a calendar event.
pub open spec fn count_rows(rows: Seq<MappingView>, calendar_id: Seq<char>) -> nat
    decreases rows.len(),
{
    if rows.len() == 0 {
        0
    } else {
        count_rows(rows.drop_last(), calendar_id) + if rows.last().calendar_id == calendar_id {
            1nat
        } else {
            0nat
        }
    }
}

/// How many of the requests create a task.
pub open spec fn count_creates(requests: Seq<RequestView>) -> nat
    decreases requests.len(),
{
    if requests.len() == 0 {
        0
    } else {
        count_creates(requests.drop_last()) + if requests.last().method == HttpMethod::Post {
            1nat
        } else {
            0nat
        }
    }
}

/// No calendar event has more than one row.
pub open spec fn one_row_each(rows: Seq<MappingView>) -> bool {
    forall|calendar_id: Seq<char>| count_rows(rows, calendar_id) <= 1
}

/// Some event from index `from` on has this identity.
pub open spec fn mentions(events: Seq<EventView>, from: int, calendar_id: Seq<char>) -> bool {
    exists|k: int| from <= k < events.len() && (#[trigger] events[k]).uid == calendar_id
}

impl World {
    /// The row that an insert adds.
    pub open spec fn new_row(self, calendar_id: Seq<char>, clickup_id: Seq<char>) -> MappingView {
        MappingView { mapping_id: self.rows.len() as int + 1, clickup_id, calendar_id }
    }

    /// The tracker's answer to its next request.
    pub open spec fn remote_reply(self, request: RequestView) -> ReplyView {
        let n = self.requests.len() as int;
        match request.method {
            HttpMethod::Post => match (self.created_id)(n) {
                Some(task_id) => ReplyView::Created { task_id },
                None => ReplyView::Failed,
            },
            _ => match (self.update_status)(n) {
                Some(success) => ReplyView::Status { success },
                None => ReplyView::Failed,
            },
        }
    }

    /// The answer to an action.
    pub open spec fn reply_to(self, action: ActionView) -> ReplyView {
        match action {
            ActionView::FindMapping { calendar_id } => ReplyView::Mapping {
                found: find_row(self.rows, calendar_id),
            },
            ActionView::AwaitPermit => ReplyView::Permit,
            ActionView::Send { request } => self.remote_reply(request),
            ActionView::InsertMapping { calendar_id, clickup_id } => ReplyView::Inserted {
                mapping: self.new_row(calendar_id, clickup_id),
            },
            ActionView::Finish { result } => ReplyView::Failed,
        }
    }

    /// The world after an action was carried out: a request sent is a
    /// request received, a mapping inserted is a row more.
    pub open spec fn after(self, action: ActionView) -> World {
        match action {
            ActionView::Send { request } => World { requests: self.requests.push(request), ..self },
            ActionView::InsertMapping { calendar_id, clickup_id } => World {
                rows: self.rows.push(self.new_row(calendar_id, clickup_id)),
                ..self
            },
            _ => self,
        }
    }

    /// Every create that the tracker is asked for succeeds.
    pub open spec fn creates_succeed(self) -> bool {
        forall|n: int| (#[trigger] (self.created_id)(n)) is Some
    }
}

/// One exchange: the world carries out the pending action and the run takes
/// the answer.
pub open spec fn exchange(run: RunView, world: World) -> (RunView, World) {
    let action = run.pending();
    (run.resume(world.reply_to(action)), world.after(action))
}

/// The reconciliation of the event in progress, from its lookup on: the
/// lookup, the permit, the request to the tracker and, after a create, the
/// insert.
pub open spec fn reconcile_event(run: RunView, world: World) -> (RunView, World) {
    let (run1, world1) = exchange(run, world);
    let (run2, world2) = exchange(run1, world1);
    let (run3, world3) = exchange(run2, world2);
    if run3.phase is Inserting {
        exchange(run3, world3)
    } else {
        (run3, world3)
    }
}

/// The whole run from the lookup of the event in progress on: one event
/// after the other, until all are done with or the run is given up.
pub open spec fn reconcile_all(run: RunView, world: World) -> (RunView, World)
    decreases run.events.len() - run.cursor,
{
    if run.finished() || !(run.phase is Lookup) {
        (run, world)
    } else {
        let (next, world_next) = reconcile_event(run, world);
        if next.cursor > run.cursor {
            reconcile_all(next, world_next)
        } else {
            (next, world_next)
        }
    }
}

/// A run is ready to look an event up.
pub open spec fn at_lookup(run: RunView) -> bool {
    run.wf() && run.phase is Lookup && run.cursor < run.events.len()
}

/// An event whose mapping the store holds is updated: the tracker receives
/// exactly one request more, the update of the mapped task from the event,
/// the store is left as it was, and the run moves on to the next event
/// whatever the tracker answered.
pub proof fn known_event_is_updated_once(run: RunView, world: World)
    requires
        at_lookup(run),
        find_row(world.rows, run.current().uid) is Some,
    ensures
        ({
            let (next, world_next) = reconcile_event(run, world);
            let mapping = find_row(world.rows, run.current().uid)->0;
            let request = update_request(mapping.clickup_id, run.current());
            &&& world_next.requests == world.requests.push(request)
            &&& count_creates(world_next.requests) == count_creates(world.requests)
            &&& world_next.rows == world.rows
            &&& next == run.advance(update_outcome(world.remote_reply(request)))
        }),
{
    let mapping = find_row(world.rows, run.current().uid)->0;
    let request = update_request(mapping.clickup_id, run.current());
    assert(world.requests.push(request).drop_last() =~= world.requests);
}

/// An event that the store holds no mapping for is created, provided the
/// tracker's create succeeds: the tracker receives exactly one request
/// more, the create of a task from the event, the store receives exactly
/// one row more, from the event to the identifier that the tracker
/// returned, and the run moves on to the next event.
pub proof fn new_event_is_created_once(run: RunView, world: World)
    requires
        at_lookup(run),
        find_row(world.rows, run.current().uid) is None,
        (world.created_id)(world.requests.len() as int) is Some,
    ensures
        ({
            let (next, world_next) = reconcile_event(run, world);
            let task_id = (world.created_id)(world.requests.len() as int)->0;
            let request = create_request(run.api.target_list_id, run.current());
            &&& world_next.requests == world.requests.push(request)
            &&& count_creates(world_next.requests) == count_creates(world.requests) + 1
            &&& world_next.rows == world.rows.push(world.new_row(run.current().uid, task_id))
            &&& next == run.advance(EventOutcome::Created)
        }),
{
    let request = create_request(run.api.target_list_id, run.current());
    assert(world.requests.push(request).drop_last() =~= world.requests);
}

/// Where the tracker's create fails, no mapping is inserted and the run is
/// given up with a remote error.
pub proof fn failed_create_leaves_no_mapping(run: RunView, world: World)
    requires
        at_lookup(run),
        find_row(world.rows, run.current().uid) is None,
        (world.created_id)(world.requests.len() as int) is None,
    ensures
        ({
            let (next, world_next) = reconcile_event(run, world);
            &&& world_next.rows == world.rows
            &&& next == run.fail(SyncError::RemoteError)
            &&& next.pending() == ActionView::Finish { result: Err(SyncError::RemoteError) }
        }),
{
}

/// A lookup finds a row exactly where there is one, and the row it finds is
/// one for the event asked for.
pub proof fn lookup_finds_what_is_there(rows: Seq<MappingView>, calendar_id: Seq<char>)
    ensures
        find_row(rows, calendar_id) is Some <==> count_rows(rows, calendar_id) > 0,
        find_row(rows, calendar_id) is Some ==> find_row(rows, calendar_id)->0.calendar_id
            == calendar_id,
    decreases rows.len(),
{
    if rows.len() > 0 {
        lookup_finds_what_is_there(rows.drop_last(), calendar_id);
    }
}

/// A row more is one more for its own event and none more for any other.
proof fn lemma_count_rows_push(rows: Seq<MappingView>, row: MappingView, calendar_id: Seq<char>)
    ensures
        count_rows(rows.push(row), calendar_id) == count_rows(rows, calendar_id) + if row.calendar_id
            == calendar_id {
            1nat
        } else {
            0nat
        },
{
    assert(rows.push(row).drop_last() =~= rows);
}

/// What the reconciliation of one event comes to, whatever the tracker
/// answers: the store gains a row for the event only if it held none, and
/// the run either moves on to the next event or is given up.
proof fn lemma_reconcile_event(run: RunView, world: World)
    requires
        at_lookup(run),
    ensures
        ({
            let (next, world_next) = reconcile_event(run, world);
            let uid = run.current().uid;
            let known = find_row(world.rows, uid) is Some;
            let answer = (world.created_id)(world.requests.len() as int);
            &&& next.wf()
            &&& next.events == run.events
            &&& next.api == run.api
            &&& world_next.created_id == world.created_id
            &&& world_next.update_status == world.update_status
            &&& known || answer is Some ==> next.phase is Lookup && next.cursor == run.cursor + 1
            &&& !known && answer is None ==> next.phase is Failed && next.cursor == run.cursor
            &&& known || answer is None ==> world_next.rows == world.rows
            &&& !known && answer is Some ==> world_next.rows == world.rows.push(
                world.new_row(uid, answer->0),
            )
            &&& known ==> count_creates(world_next.requests) == count_creates(world.requests)
        }),
{
    let uid = run.current().uid;
    if find_row(world.rows, uid) is Some {
        known_event_is_updated_once(run, world);
    } else if (world.created_id)(world.requests.len() as int) is Some {
        new_event_is_created_once(run, world);
    } else {
        failed_create_leaves_no_mapping(run, world);
    }
}

/// No run, however it ends, gives a calendar event a second mapping: a
/// store with at most one row for each event has at most one for each
/// afterwards.
pub proof fn run_keeps_mappings_unique(run: RunView, world: World)
    requires
        run.wf(),
        run.phase is Lookup,
        one_row_each(world.rows),
    ensures
        one_row_each(reconcile_all(run, world).1.rows),
    decreases run.events.len() - run.cursor,
{
    if !run.finished() {
        let (next, world_next) = reconcile_event(run, world);
        let uid = run.current().uid;
        lemma_reconcile_event(run, world);
        lookup_finds_what_is_there(world.rows, uid);
        assert forall|calendar_id: Seq<char>| count_rows(world_next.rows, calendar_id) <= 1 by {
            if world_next.rows != world.rows {
                let answer = (world.created_id)(world.requests.len() as int);
                lemma_count_rows_push(world.rows, world.new_row(uid, answer->0), calendar_id);
            }
        }
        if next.cursor > run.cursor {
            run_keeps_mappings_unique(next, world_next);
        }
    }
}

/// Where every create succeeds, a run goes through all its events, and
/// afterwards every event that the store held no row for has exactly one.
proof fn lemma_run_fills_store(run: RunView, world: World)
    requires
        run.wf(),
        run.phase is Lookup,
        world.creates_succeed(),
    ensures
        ({
            let (end, world_end) = reconcile_all(run, world);
            &&& end.phase is Lookup
            &&& end.events == run.events
            &&& end.cursor == run.events.len()
            &&& forall|calendar_id: Seq<char>|
                #[trigger] count_rows(world_end.rows, calendar_id) == if count_rows(
                    world.rows,
                    calendar_id,
                ) > 0 {
                    count_rows(world.rows, calendar_id)
                } else if mentions(run.events, run.cursor, calendar_id) {
                    1nat
                } else {
                    0nat
                }
        }),
    decreases run.events.len() - run.cursor,
{
    if !run.finished() {
        let (next, world_next) = reconcile_event(run, world);
        let (end, world_end) = reconcile_all(run, world);
        let uid = run.current().uid;
        let answer = (world.created_id)(world.requests.len() as int);
        lemma_reconcile_event(run, world);
        lookup_finds_what_is_there(world.rows, uid);
        assert(answer is Some);
        assert(world_next.creates_succeed());
        lemma_run_fills_store(next, world_next);
        assert forall|calendar_id: Seq<char>|
            #[trigger] count_rows(world_end.rows, calendar_id) == if count_rows(
                world.rows,
                calendar_id,
            ) > 0 {
                count_rows(world.rows, calendar_id)
            } else if mentions(run.events, run.cursor, calendar_id) {
                1nat
            } else {
                0nat
            } by {
            if world_next.rows != world.rows {
                lemma_count_rows_push(world.rows, world.new_row(uid, answer->0), calendar_id);
            }
            if mentions(run.events, run.cursor, calendar_id) && calendar_id != uid {
                let k = choose|k: int|
                    run.cursor <= k < run.events.len() && (#[trigger] run.events[k]).uid
                        == calendar_id;
                assert(next.cursor <= k < next.events.len() && next.events[k].uid == calendar_id);
            }
            if calendar_id == uid {
                assert(run.events[run.cursor].uid == calendar_id);
            }
        }
    } else {
        assert forall|calendar_id: Seq<char>| !mentions(run.events, run.cursor, calendar_id) by {}
    }
}

/// A run over events that the store holds rows for, all of them, goes
/// through to a successful end whatever the tracker answers to the updates,
/// leaves the store as it was, and asks the tracker for no create.
pub proof fn known_events_run_through(run: RunView, world: World)
    requires
        run.wf(),
        run.phase is Lookup,
        forall|k: int|
            run.cursor <= k < run.events.len() ==> count_rows(
                world.rows,
                (#[trigger] run.events[k]).uid,
            ) > 0,
    ensures
        ({
            let (end, world_end) = reconcile_all(run, world);
            &&& end.phase is Lookup
            &&& end.events == run.events
            &&& end.cursor == run.events.len()
            &&& end.pending() == ActionView::Finish { result: Ok(()) }
            &&& world_end.rows == world.rows
            &&& count_creates(world_end.requests) == count_creates(world.requests)
        }),
    decreases run.events.len() - run.cursor,
{
    if !run.finished() {
        let (next, world_next) = reconcile_event(run, world);
        let uid = run.current().uid;
        assert(count_rows(world.rows, run.events[run.cursor].uid) > 0);
        lookup_finds_what_is_there(world.rows, uid);
        lemma_reconcile_event(run, world);
        known_events_run_through(next, world_next);
    }
}

/// Running the reconciliation twice over the same events, the first time
/// against an empty store, leaves exactly one mapping for each distinct
/// calendar event, provided the tracker's creates succeed: the first run
/// goes through and records one mapping for each, and the second goes
/// through, adds no mapping and asks the tracker for no create.
pub proof fn second_run_adds_nothing(api: ApiView, events: Seq<EventView>, world: World)
    requires
        world.rows.len() == 0,
        world.creates_succeed(),
    ensures
        ({
            let (first, world1) = reconcile_all(RunView::start(api, events), world);
            let (second, world2) = reconcile_all(RunView::start(api, events), world1);
            &&& first.pending() == ActionView::Finish { result: Ok(()) }
            &&& second.pending() == ActionView::Finish { result: Ok(()) }
            &&& world2.rows == world1.rows
            &&& count_creates(world2.requests) == count_creates(world1.requests)
            &&& forall|calendar_id: Seq<char>|
                #[trigger] count_rows(world2.rows, calendar_id) == if mentions(
                    events,
                    0,
                    calendar_id,
                ) {
                    1nat
                } else {
                    0nat
                }
        }),
{
    let start = RunView::start(api, events);
    let (first, world1) = reconcile_all(start, world);
    let (second, world2) = reconcile_all(start, world1);
    lemma_run_fills_store(start, world);
    assert(first.pending() == ActionView::Finish { result: Ok(()) });
    assert forall|k: int| 0 <= k < events.len() implies count_rows(
        world1.rows,
        (#[trigger] events[k]).uid,
    ) > 0 by {
        assert(mentions(events, 0, events[k].uid));
    }
    known_events_run_through(start, world1);
    assert(second.pending() == ActionView::Finish { result: Ok(()) });
    assert(world2.rows == world1.rows);
    assert forall|calendar_id: Seq<char>|
        #[trigger] count_rows(world2.rows, calendar_id) == if mentions(events, 0, calendar_id) {
            1nat
        } else {
            0nat
        } by {
        assert(count_rows(world.rows, calendar_id) == 0);
    }
}

/// No run deletes or changes a mapping: the rows that the store held
/// before a run are still there afterwards, in their places.
pub proof fn run_only_adds_mappings(run: RunView, world: World)
    requires
        run.wf(),
        run.phase is Lookup,
    ensures
        world.rows.is_prefix_of(reconcile_all(run, world).1.rows),
    decreases run.events.len() - run.cursor,
{
    if !run.finished() {
        let (next, world_next) = reconcile_event(run, world);
        lemma_reconcile_event(run, world);
        if next.cursor > run.cursor {
            run_only_adds_mappings(next, world_next);
        }
    }
}

/// Events are taken strictly one after the other: whatever the answer, a
/// run stays with the event in progress or moves on by exactly one, and it
/// moves on only from an update or from the insert that follows a create,
/// to the lookup of the next event. No lookup is asked for in between.
pub proof fn events_are_taken_one_at_a_time(run: RunView, reply: ReplyView)
    requires
        run.wf(),
    ensures
        run.resume(reply).wf(),
        run.resume(reply).events == run.events,
        run.resume(reply).cursor == run.cursor || run.resume(reply).cursor == run.cursor + 1,
        run.resume(reply).cursor == run.cursor + 1 ==> (run.phase is Updating
            || run.phase is Inserting) && run.resume(reply).phase is Lookup,
        run.resume(reply).pending() is FindMapping ==> run.resume(reply).cursor == run.cursor + 1,
{
}

/// An update that the tracker refuses, or that gets no answer, does not end
/// the run: the event is recorded as not updated and the next one is
/// taken up.
pub proof fn refused_update_is_passed_over(run: RunView, reply: ReplyView)
    requires
        run.wf(),
        run.phase is Updating,
        run.cursor < run.events.len(),
    ensures
        run.resume(reply) == run.advance(update_outcome(reply)),
        !(run.resume(reply).phase is Failed),
        run.resume(reply).cursor == run.cursor + 1,
        reply != (ReplyView::Status { success: true }) ==> update_outcome(reply) is UpdateFailed,
{
}

/// A remote request is only ever sent with a permit: a run asks to send
/// right after the rate limiter admitted a request, and never else.
pub proof fn send_follows_permit(run: RunView, reply: ReplyView)
    requires
        run.wf(),
        run.resume(reply).pending() is Send,
        run.resume(reply) != run,
    ensures
        run.pending() == ActionView::AwaitPermit,
        reply == ReplyView::Permit,
{
}

} // verus!
