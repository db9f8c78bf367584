//! The reconciler: for each event in turn, look its mapping up, then update
//! the task it maps to, or create a task and record the new mapping.
//!
//! The reconciler does no I/O. It is a state machine that says which action
//! comes next ([`Reconciler::pending`]) and takes the answer to it
//! ([`Reconciler::resume`]). Events are taken strictly one after the
//! other, so no two requests are ever under way at once.

use crate::clickup::{
    create_request, update_request, ApiView, ClickUpApiInstance, HttpMethod, RemoteRequest,
    RequestView,
};
use crate::docsoc_ical::{EventView, ParsedEvent};
use crate::error::SyncError;
use crate::models::{CalendarMapping, MappingView};
use vstd::prelude::*;

verus! {

/// What the reconciler asks its driver to do next.
#[derive(Debug, PartialEq, Eq)]
pub enum Action {
    /// Look up the mapping of this calendar event in the store.
    FindMapping { calendar_id: String },
    /// Wait until the rate limiter admits one more request, however long
    /// that takes.
    AwaitPermit,
    /// Send this request to the tracker.
    Send { request: RemoteRequest },
    /// Record in the store which task mirrors the calendar event.
    InsertMapping { calendar_id: String, clickup_id: String },
    /// The run is over, with this result.
    Finish { result: Result<(), SyncError> },
}

/// The driver's answer to an action.
#[derive(Clone, Debug, PartialEq, Eq)]
pub enum Reply {
    /// The lookup went through and found this mapping, or none.
    Mapping { found: Option<CalendarMapping> },
    /// The rate limiter admits a request.
    Permit,
    /// The tracker created a task and gave it this identifier.
    Created { task_id: String },
    /// The tracker answered, with a status that is a success or not.
    Status { success: bool },
    /// The store inserted this mapping.
    Inserted { mapping: CalendarMapping },
    /// The action could not be carried out, or its answer could not be
    /// read.
    Failed,
}

/// What came back from the tracker for a request.
#[derive(Clone, Debug, PartialEq, Eq)]
pub struct RemoteResponse {
    /// Whether the status was a success.
    pub success: bool,
    /// The task identifier read from the body, where one could be read.
    pub task_id: Option<String>,
}

/// How the reconciliation of one event ended.
#[derive(Clone, Copy, Debug, PartialEq, Eq, Structural)]
pub enum EventOutcome {
    /// A task was created and its mapping recorded.
    Created,
    /// The event's task was brought up to date.
    Updated,
    /// The update did not go through. The run went on all the same.
    UpdateFailed { error: SyncError },
}

/// Where the reconciler stands with the event in progress.
#[derive(Clone, Debug, PartialEq, Eq)]
pub enum Phase {
    /// Waiting for the store to look the event up.
    Lookup,
    /// The event is new; waiting for the rate limiter before creating.
    CreatePermit,
    /// Waiting for the tracker to create the task.
    Creating,
    /// The event is known; waiting for the rate limiter before updating.
    UpdatePermit { mapping: CalendarMapping },
    /// Waiting for the tracker to update the task.
    Updating { mapping: CalendarMapping },
    /// The task exists; waiting for the store to record its mapping.
    Inserting { task_id: String },
    /// The run was given up.
    Failed { error: SyncError },
}

/// What an [`Action`] holds.
pub enum ActionView {
    FindMapping { calendar_id: Seq<char> },
    AwaitPermit,
    Send { request: RequestView },
    InsertMapping { calendar_id: Seq<char>, clickup_id: Seq<char> },
    Finish { result: Result<(), SyncError> },
}

/// What a [`Reply`] holds.
pub enum ReplyView {
    Mapping { found: Option<MappingView> },
    Permit,
    Created { task_id: Seq<char> },
    Status { success: bool },
    Inserted { mapping: MappingView },
    Failed,
}

/// What a [`RemoteResponse`] holds.
pub struct ResponseView {
    pub success: bool,
    pub task_id: Option<Seq<char>>,
}

impl View for RemoteResponse {
    type V = ResponseView;

    open spec fn view(&self) -> ResponseView {
        ResponseView { success: self.success, task_id: self.task_id.deep_view() }
    }
}

impl DeepView for RemoteResponse {
    type V = ResponseView;

    open spec fn deep_view(&self) -> ResponseView {
        self.view()
    }
}

/// What a [`Phase`] holds.
pub enum PhaseView {
    Lookup,
    CreatePermit,
    Creating,
    UpdatePermit { mapping: MappingView },
    Updating { mapping: MappingView },
    Inserting { task_id: Seq<char> },
    Failed { error: SyncError },
}

impl View for Action {
    type V = ActionView;

    open spec fn view(&self) -> ActionView {
        match *self {
            Action::FindMapping { calendar_id } => ActionView::FindMapping {
                calendar_id: calendar_id@,
            },
            Action::AwaitPermit => ActionView::AwaitPermit,
            Action::Send { request } => ActionView::Send { request: request@ },
            Action::InsertMapping { calendar_id, clickup_id } => ActionView::InsertMapping {
                calendar_id: calendar_id@,
                clickup_id: clickup_id@,
            },
            Action::Finish { result } => ActionView::Finish { result },
        }
    }
}

impl View for Reply {
    type V = ReplyView;

    open spec fn view(&self) -> ReplyView {
        match *self {
            Reply::Mapping { found } => ReplyView::Mapping { found: found.deep_view() },
            Reply::Permit => ReplyView::Permit,
            Reply::Created { task_id } => ReplyView::Created { task_id: task_id@ },
            Reply::Status { success } => ReplyView::Status { success },
            Reply::Inserted { mapping } => ReplyView::Inserted { mapping: mapping@ },
            Reply::Failed => ReplyView::Failed,
        }
    }
}

impl View for Phase {
    type V = PhaseView;

    open spec fn view(&self) -> PhaseView {
        match *self {
            Phase::Lookup => PhaseView::Lookup,
            Phase::CreatePermit => PhaseView::CreatePermit,
            Phase::Creating => PhaseView::Creating,
            Phase::UpdatePermit { mapping } => PhaseView::UpdatePermit { mapping: mapping@ },
            Phase::Updating { mapping } => PhaseView::Updating { mapping: mapping@ },
            Phase::Inserting { task_id } => PhaseView::Inserting { task_id: task_id@ },
            Phase::Failed { error } => PhaseView::Failed { error },
        }
    }
}

/// The answer that a response to a request of the given kind amounts to;
/// `None` stands for a request that could not be sent. A create is answered
/// by the task identifier in the body, whatever the status, and fails
/// without one. An update or a delete is answered by its status.
pub open spec fn reply_of_response(method: HttpMethod, response: Option<ResponseView>) -> ReplyView {
    match response {
        None => ReplyView::Failed,
        Some(r) => match method {
            HttpMethod::Post => match r.task_id {
                Some(task_id) => ReplyView::Created { task_id },
                None => ReplyView::Failed,
            },
            _ => ReplyView::Status { success: r.success },
        },
    }
}

impl Reply {
    /// Reads the tracker's response to a request of the given kind; `None`
    /// stands for a request that could not be sent.
    pub fn of_response(method: HttpMethod, response: Option<RemoteResponse>) -> (reply: Reply)
        ensures
            reply@ == reply_of_response(method, response.deep_view()),
    {
        match response {
            None => Reply::Failed,
            Some(r) => match method {
                HttpMethod::Post => match r.task_id {
                    Some(task_id) => Reply::Created { task_id },
                    None => Reply::Failed,
                },
                _ => Reply::Status { success: r.success },
            },
        }
    }
}

/// What there is to report of the answer to an update or a delete: nothing
/// after a success status, a failed update after any other status, a remote
/// error where no status arrived.
pub open spec fn remote_warning_spec(reply: ReplyView) -> Option<SyncError> {
    match reply {
        ReplyView::Status { success } => if success {
            None
        } else {
            Some(SyncError::RemoteUpdateFailed)
        },
        _ => Some(SyncError::RemoteError),
    }
}

/// How an update ended, going by the answer to it: only a success status
/// counts as done; any other answer is recorded and passed over.
pub open spec fn update_outcome(reply: ReplyView) -> EventOutcome {
    match remote_warning_spec(reply) {
        None => EventOutcome::Updated,
        Some(error) => EventOutcome::UpdateFailed { error },
    }
}

/// Reads the answer to an update or a delete. Neither ever ends a run:
/// what went wrong, if anything, is handed back to be reported.
pub fn remote_warning(reply: &Reply) -> (warning: Option<SyncError>)
    ensures
        warning == remote_warning_spec(reply@),
{
    match reply {
        Reply::Status { success: true } => None,
        Reply::Status { success: false } => Some(SyncError::RemoteUpdateFailed),
        _ => Some(SyncError::RemoteError),
    }
}

/// The state of a reconciliation run.
pub struct RunView {
    /// The tracker's API: the target list and the rate to keep to.
    pub api: ApiView,
    /// The events to reconcile, in order.
    pub events: Seq<EventView>,
    /// How many events are done with; the index of the one in progress.
    pub cursor: int,
    /// Where the event in progress stands.
    pub phase: PhaseView,
    /// How each event that is done with ended.
    pub outcomes: Seq<EventOutcome>,
}

impl RunView {
    /// The state before the first event.
    pub open spec fn start(api: ApiView, events: Seq<EventView>) -> RunView {
        RunView { api, events, cursor: 0, phase: PhaseView::Lookup, outcomes: Seq::empty() }
    }

    /// The counters agree: one outcome for each event that is done with.
    pub open spec fn wf(self) -> bool {
        0 <= self.cursor <= self.events.len() && self.outcomes.len() == self.cursor
    }

    /// The run is over: given up, or through with all events.
    pub open spec fn finished(self) -> bool {
        self.phase is Failed || self.cursor >= self.events.len()
    }

    /// The event in progress.
    pub open spec fn current(self) -> EventView {
        self.events[self.cursor]
    }

    /// The action that the run is waiting for.
    pub open spec fn pending(self) -> ActionView {
        match self.phase {
            PhaseView::Failed { error } => ActionView::Finish { result: Err(error) },
            _ => if self.cursor >= self.events.len() {
                ActionView::Finish { result: Ok(()) }
            } else {
                match self.phase {
                    PhaseView::Lookup => ActionView::FindMapping {
                        calendar_id: self.current().uid,
                    },
                    PhaseView::CreatePermit => ActionView::AwaitPermit,
                    PhaseView::UpdatePermit { mapping } => ActionView::AwaitPermit,
                    PhaseView::Creating => ActionView::Send {
                        request: create_request(self.api.target_list_id, self.current()),
                    },
                    PhaseView::Updating { mapping } => ActionView::Send {
                        request: update_request(mapping.clickup_id, self.current()),
                    },
                    PhaseView::Inserting { task_id } => ActionView::InsertMapping {
                        calendar_id: self.current().uid,
                        clickup_id: task_id,
                    },
                    PhaseView::Failed { error } => ActionView::Finish { result: Err(error) },
                }
            },
        }
    }

    /// The same run in another phase of the event in progress.
    pub open spec fn with_phase(self, phase: PhaseView) -> RunView {
        RunView { phase, ..self }
    }

    /// The run after the event in progress ended in `outcome`: ready to
    /// look the next event up.
    pub open spec fn advance(self, outcome: EventOutcome) -> RunView {
        RunView {
            cursor: self.cursor + 1,
            phase: PhaseView::Lookup,
            outcomes: self.outcomes.push(outcome),
            ..self
        }
    }

    /// The run after it was given up.
    pub open spec fn fail(self, error: SyncError) -> RunView {
        self.with_phase(PhaseView::Failed { error })
    }

    /// The run after the driver answered the pending action with `reply`.
    ///
    /// A lookup or an insert that is not answered by its result is a store
    /// failure, and a create that is not answered by a task identifier is a
    /// remote failure: both end the run, and neither leaves a mapping
    /// behind. Nothing is undone: after a failed insert the task that was
    /// just created stays in the tracker without a mapping, and a later run
    /// will create another. An update moves on to the next event whatever
    /// the answer. While a permit is awaited, any other answer leaves the
    /// run waiting.
    pub open spec fn resume(self, reply: ReplyView) -> RunView {
        if self.finished() {
            self
        } else {
            match self.phase {
                PhaseView::Lookup => match reply {
                    ReplyView::Mapping { found: Some(mapping) } => self.with_phase(
                        PhaseView::UpdatePermit { mapping },
                    ),
                    ReplyView::Mapping { found: None } => self.with_phase(PhaseView::CreatePermit),
                    _ => self.fail(SyncError::StoreError),
                },
                PhaseView::CreatePermit => match reply {
                    ReplyView::Permit => self.with_phase(PhaseView::Creating),
                    _ => self,
                },
                PhaseView::UpdatePermit { mapping } => match reply {
                    ReplyView::Permit => self.with_phase(PhaseView::Updating { mapping }),
                    _ => self,
                },
                PhaseView::Creating => match reply {
                    ReplyView::Created { task_id } => self.with_phase(
                        PhaseView::Inserting { task_id },
                    ),
                    _ => self.fail(SyncError::RemoteError),
                },
                PhaseView::Updating { mapping } => self.advance(update_outcome(reply)),
                PhaseView::Inserting { task_id } => match reply {
                    ReplyView::Inserted { mapping } => self.advance(EventOutcome::Created),
                    _ => self.fail(SyncError::StoreError),
                },
                PhaseView::Failed { error } => self,
            }
        }
    }
}

/// A reconciliation run over a list of events.
pub struct Reconciler {
    api: ClickUpApiInstance,
    events: Vec<ParsedEvent>,
    cursor: usize,
    phase: Phase,
    outcomes: Vec<EventOutcome>,
}

impl View for Reconciler {
    type V = RunView;

    closed spec fn view(&self) -> RunView {
        RunView {
            api: self.api@,
            events: self.events.deep_view(),
            cursor: self.cursor as int,
            phase: self.phase@,
            outcomes: self.outcomes@,
        }
    }
}

impl Reconciler {
    #[verifier::type_invariant]
    spec fn counters_agree(&self) -> bool {
        self@.wf()
    }

    /// A run over `events`, in the order given, with nothing done yet.
    pub fn new(api: ClickUpApiInstance, events: Vec<ParsedEvent>) -> (run: Reconciler)
        ensures
            run@ == RunView::start(api@, events.deep_view()),
    {
        Reconciler { api, events, cursor: 0, phase: Phase::Lookup, outcomes: Vec::new() }
    }

    /// Whether the run is over.
    pub fn is_finished(&self) -> (finished: bool)
        ensures
            finished == self@.finished(),
    {
        match self.phase {
            Phase::Failed { .. } => true,
            _ => self.cursor >= self.events.len(),
        }
    }

    /// How each event that is done with ended, in the events' order.
    pub fn outcomes(&self) -> (outcomes: &Vec<EventOutcome>)
        ensures
            outcomes@ == self@.outcomes,
    {
        &self.outcomes
    }

    /// The action that the run is waiting for. Once the run is over this
    /// is `Finish` with its result.
    pub fn pending(&self) -> (action: Action)
        ensures
            action@ == self@.pending(),
    {
        proof {
            use_type_invariant(self);
        }
        match &self.phase {
            Phase::Failed { error } => Action::Finish { result: Err(*error) },
            phase => {
                if self.cursor >= self.events.len() {
                    Action::Finish { result: Ok(()) }
                } else {
                    let event = &self.events[self.cursor];
                    match phase {
                        Phase::Lookup => Action::FindMapping { calendar_id: event.uid.clone() },
                        Phase::CreatePermit => Action::AwaitPermit,
                        Phase::UpdatePermit { .. } => Action::AwaitPermit,
                        Phase::Creating => Action::Send { request: self.api.create_task(event) },
                        Phase::Updating { mapping } => Action::Send {
                            request: self.api.update_task(mapping, event),
                        },
                        Phase::Inserting { task_id } => Action::InsertMapping {
                            calendar_id: event.uid.clone(),
                            clickup_id: task_id.clone(),
                        },
                        Phase::Failed { error } => Action::Finish { result: Err(*error) },
                    }
                }
            },
        }
    }

    /// Takes the driver's answer to the pending action and moves on.
    pub fn resume(self, reply: Reply) -> (next: Reconciler)
        ensures
            next@ == self@.resume(reply@),
    {
        proof {
            use_type_invariant(&self);
        }
        let ghost before = self@;
        let Reconciler { api, events, cursor, phase, outcomes } = self;
        let mut cursor = cursor;
        let mut outcomes = outcomes;
        let next_phase = if cursor >= events.len() {
            phase
        } else {
            match phase {
                Phase::Lookup => match reply {
                    Reply::Mapping { found: Some(mapping) } => Phase::UpdatePermit { mapping },
                    Reply::Mapping { found: None } => Phase::CreatePermit,
                    _ => Phase::Failed { error: SyncError::StoreError },
                },
                Phase::CreatePermit => match reply {
                    Reply::Permit => Phase::Creating,
                    _ => Phase::CreatePermit,
                },
                Phase::UpdatePermit { mapping } => match reply {
                    Reply::Permit => Phase::Updating { mapping },
                    _ => Phase::UpdatePermit { mapping },
                },
                Phase::Creating => match reply {
                    Reply::Created { task_id } => Phase::Inserting { task_id },
                    _ => Phase::Failed { error: SyncError::RemoteError },
                },
                Phase::Updating { mapping } => {
                    let outcome = match remote_warning(&reply) {
                        None => EventOutcome::Updated,
                        Some(error) => EventOutcome::UpdateFailed { error },
                    };
                    outcomes.push(outcome);
                    cursor = cursor + 1;
                    Phase::Lookup
                },
                Phase::Inserting { task_id } => match reply {
                    Reply::Inserted { .. } => {
                        outcomes.push(EventOutcome::Created);
                        cursor = cursor + 1;
                        Phase::Lookup
                    },
                    _ => Phase::Failed { error: SyncError::StoreError },
                },
                Phase::Failed { error } => Phase::Failed { error },
            }
        };
        Reconciler { api, events, cursor, phase: next_phase, outcomes }
    }
}

} // verus!
