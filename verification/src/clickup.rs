//! What is sent to the task tracker (version 2 of the ClickUp API), and how
//! fast.
//!
//! Nothing here touches the network. A [`RemoteRequest`] describes one HTTP
//! request; whoever sends it answers to the tracker's rate limit first.

use crate::docsoc_ical::{EventView, ParsedEvent};
use crate::error::SyncError;
use crate::instant::{NaiveInstant, ONE_DAY_MILLIS};
use crate::models::CalendarMapping;
use vstd::prelude::*;
use vstd::string::*;

verus! {

/// Requests per minute held back from the configured limit, to stay clear
/// of the tracker's own count.
pub const RATE_LIMIT_MARGIN: u32 = 20;

/// The body of a request that creates or updates a task. Dates are
/// milliseconds since the Unix epoch; each comes with a flag that says
/// whether its time of day means anything.
#[derive(Clone, Debug, PartialEq, Eq)]
pub struct CreateTaskPayload {
    pub name: String,
    pub description: String,
    pub tags: Vec<String>,
    pub due_date: Option<i64>,
    pub due_date_time: bool,
    pub start_date: Option<i64>,
    pub start_date_time: bool,
}

/// What a [`CreateTaskPayload`] holds.
pub struct PayloadView {
    pub name: Seq<char>,
    pub description: Seq<char>,
    pub tags: Seq<Seq<char>>,
    pub due_date: Option<int>,
    pub due_date_time: bool,
    pub start_date: Option<int>,
    pub start_date_time: bool,
}

/// The value of an optional machine integer.
pub open spec fn int_of(value: Option<i64>) -> Option<int> {
    match value {
        Some(v) => Some(v as int),
        None => None,
    }
}

impl View for CreateTaskPayload {
    type V = PayloadView;

    open spec fn view(&self) -> PayloadView {
        PayloadView {
            name: self.name@,
            description: self.description@,
            tags: self.tags.deep_view(),
            due_date: int_of(self.due_date),
            due_date_time: self.due_date_time,
            start_date: int_of(self.start_date),
            start_date_time: self.start_date_time,
        }
    }
}

impl DeepView for CreateTaskPayload {
    type V = PayloadView;

    open spec fn deep_view(&self) -> PayloadView {
        self.view()
    }
}

/// The three kinds of request that the tracker is sent.
#[derive(Clone, Copy, Debug, PartialEq, Eq, Structural)]
pub enum HttpMethod {
    Post,
    Put,
    Delete,
}

/// One request to the tracker. A request with a body carries it as JSON.
#[derive(Clone, Debug, PartialEq, Eq)]
pub struct RemoteRequest {
    pub method: HttpMethod,
    pub url: String,
    pub body: Option<CreateTaskPayload>,
}

/// What a [`RemoteRequest`] holds.
pub struct RequestView {
    pub method: HttpMethod,
    pub url: Seq<char>,
    pub body: Option<PayloadView>,
}

impl View for RemoteRequest {
    type V = RequestView;

    open spec fn view(&self) -> RequestView {
        RequestView { method: self.method, url: self.url@, body: self.body.deep_view() }
    }
}

impl DeepView for RemoteRequest {
    type V = RequestView;

    open spec fn deep_view(&self) -> RequestView {
        self.view()
    }
}

/// An event that starts at midnight and ends at midnight is an all-day
/// event, whatever the days.
pub open spec fn is_all_day(start: Option<NaiveInstant>, end: Option<NaiveInstant>) -> bool {
    start is Some && end is Some && start->0.is_midnight_spec() && end->0.is_midnight_spec()
}

/// The start date that is sent for an event.
pub open spec fn start_date_of(event: EventView) -> Option<int> {
    match event.start_time {
        Some(start) => Some(start.epoch_millis_spec()),
        None => None,
    }
}

/// The due date that is sent for an event: its end, a day earlier for an
/// all-day event. The feed ends an all-day event at midnight of the next
/// day, which the tracker would show as one day more.
pub open spec fn due_date_of(event: EventView) -> Option<int> {
    match event.end_time {
        Some(end) => Some(
            if is_all_day(event.start_time, event.end_time) {
                end.epoch_millis_spec() - ONE_DAY_MILLIS
            } else {
                end.epoch_millis_spec()
            },
        ),
        None => None,
    }
}

/// The body that is sent for an event.
pub open spec fn payload_of(event: EventView) -> PayloadView {
    let all_day = is_all_day(event.start_time, event.end_time);
    PayloadView {
        name: event.summary,
        description: event.description,
        tags: Seq::empty(),
        due_date: due_date_of(event),
        due_date_time: event.end_time is Some && !all_day,
        start_date: start_date_of(event),
        start_date_time: event.start_time is Some && !all_day,
    }
}

/// The address that tasks of a list are created at.
pub open spec fn list_url(list_id: Seq<char>) -> Seq<char> {
    "https://api.clickup.com/api/v2/list/"@ + list_id + "/task"@
}

/// The address of a task.
pub open spec fn task_url(task_id: Seq<char>) -> Seq<char> {
    "https://api.clickup.com/api/v2/task/"@ + task_id
}

/// The request that creates the task of an event in a list.
pub open spec fn create_request(list_id: Seq<char>, event: EventView) -> RequestView {
    RequestView { method: HttpMethod::Post, url: list_url(list_id), body: Some(payload_of(event)) }
}

/// The request that brings a task up to date with an event.
pub open spec fn update_request(task_id: Seq<char>, event: EventView) -> RequestView {
    RequestView { method: HttpMethod::Put, url: task_url(task_id), body: Some(payload_of(event)) }
}

/// The request that deletes a task.
pub open spec fn delete_request(task_id: Seq<char>) -> RequestView {
    RequestView { method: HttpMethod::Delete, url: task_url(task_id), body: None }
}

/// The tracker's API for one target list, with the rate to keep to.
#[derive(Clone, Debug, PartialEq, Eq)]
pub struct ClickUpApiInstance {
    /// The list that tasks are created in.
    pub target_list_id: String,
    /// How many requests may be sent in any 60 seconds: the configured
    /// limit less the margin.
    pub requests_per_minute: u32,
}

/// What a [`ClickUpApiInstance`] holds.
pub struct ApiView {
    pub target_list_id: Seq<char>,
    pub requests_per_minute: u32,
}

impl View for ClickUpApiInstance {
    type V = ApiView;

    open spec fn view(&self) -> ApiView {
        ApiView {
            target_list_id: self.target_list_id@,
            requests_per_minute: self.requests_per_minute,
        }
    }
}

impl ClickUpApiInstance {
    /// The rate is usable: at least one request per minute.
    pub open spec fn wf(&self) -> bool {
        self.requests_per_minute >= 1
    }

    /// Sets up the API for a list. The rate that is kept to is the
    /// configured limit less [`RATE_LIMIT_MARGIN`]; a configured limit that
    /// does not exceed the margin is refused.
    pub fn new(target_list_id: String, rate_limit_per_min: u32) -> (api: Result<
        ClickUpApiInstance,
        SyncError,
    >)
        ensures
            rate_limit_per_min > RATE_LIMIT_MARGIN ==> api is Ok && api->Ok_0.wf()
                && api->Ok_0.target_list_id == target_list_id && api->Ok_0.requests_per_minute
                == rate_limit_per_min - RATE_LIMIT_MARGIN,
            rate_limit_per_min <= RATE_LIMIT_MARGIN ==> api == Err::<ClickUpApiInstance, SyncError>(
                SyncError::InvalidConfig,
            ),
    {
        if rate_limit_per_min <= RATE_LIMIT_MARGIN {
            Err(SyncError::InvalidConfig)
        } else {
            Ok(
                ClickUpApiInstance {
                    target_list_id,
                    requests_per_minute: rate_limit_per_min - RATE_LIMIT_MARGIN,
                },
            )
        }
    }

    /// Builds the body for an event. It is built from the event each time
    /// it is needed; for an all-day event both time flags are off and the
    /// due date is a day before the event's end.
    pub fn mk_task_payload(&self, event: &ParsedEvent) -> (payload: CreateTaskPayload)
        ensures
            payload@ == payload_of(event@),
    {
        let all_day = match (event.start_time, event.end_time) {
            (Some(start), Some(end)) => start.is_midnight() && end.is_midnight(),
            _ => false,
        };
        let start_date = match event.start_time {
            Some(start) => Some(start.epoch_millis()),
            None => None,
        };
        let due_date = match event.end_time {
            Some(end) => Some(
                if all_day {
                    end.epoch_millis() - ONE_DAY_MILLIS
                } else {
                    end.epoch_millis()
                },
            ),
            None => None,
        };
        let tags: Vec<String> = Vec::new();
        assert(tags.deep_view() =~= Seq::<Seq<char>>::empty());
        CreateTaskPayload {
            name: event.summary.clone(),
            description: event.description.clone(),
            tags,
            due_date,
            due_date_time: event.end_time.is_some() && !all_day,
            start_date,
            start_date_time: event.start_time.is_some() && !all_day,
        }
    }

    /// The request that creates the task of an event in the target list.
    /// The tracker answers with the new task's identifier.
    pub fn create_task(&self, event: &ParsedEvent) -> (request: RemoteRequest)
        ensures
            request@ == create_request(self.target_list_id@, event@),
    {
        let mut url = String::from_str("https://api.clickup.com/api/v2/list/");
        url.append(self.target_list_id.as_str());
        url.append("/task");
        RemoteRequest { method: HttpMethod::Post, url, body: Some(self.mk_task_payload(event)) }
    }

    /// The request that brings the task of a mapping up to date with the
    /// event.
    pub fn update_task(&self, mapping: &CalendarMapping, event: &ParsedEvent) -> (request:
        RemoteRequest)
        ensures
            request@ == update_request(mapping.clickup_id@, event@),
    {
        let mut url = String::from_str("https://api.clickup.com/api/v2/task/");
        url.append(mapping.clickup_id.as_str());
        RemoteRequest { method: HttpMethod::Put, url, body: Some(self.mk_task_payload(event)) }
    }

    /// The request that deletes a task.
    pub fn delete_task(&self, id: &String) -> (request: RemoteRequest)
        ensures
            request@ == delete_request(id@),
    {
        let mut url = String::from_str("https://api.clickup.com/api/v2/task/");
        url.append(id.as_str());
        RemoteRequest { method: HttpMethod::Delete, url, body: None }
    }
}

/// An event that starts at midnight and ends at midnight, on whatever days,
/// is sent without times of day and with its end a day earlier: both time
/// flags are off, the due date is the end less 24 hours, and the start date
/// is the start.
pub proof fn all_day_event_ends_a_day_earlier(event: EventView)
    requires
        event.start_time is Some,
        event.end_time is Some,
        event.start_time->0.is_midnight_spec(),
        event.end_time->0.is_midnight_spec(),
    ensures
        !payload_of(event).start_date_time,
        !payload_of(event).due_date_time,
        payload_of(event).due_date == Some(event.end_time->0.epoch_millis_spec() - 86_400_000),
        payload_of(event).start_date == Some(event.start_time->0.epoch_millis_spec()),
{
}

/// An event whose start or end is off midnight, or absent, is sent as it
/// is: each date that is present is sent unchanged with its time flag on,
/// each that is absent is sent as absent with its flag off.
pub proof fn timed_event_is_sent_unchanged(event: EventView)
    requires
        !is_all_day(event.start_time, event.end_time),
    ensures
        payload_of(event).start_date_time == (event.start_time is Some),
        payload_of(event).due_date_time == (event.end_time is Some),
        event.start_time is Some ==> payload_of(event).start_date == Some(
            event.start_time->0.epoch_millis_spec(),
        ),
        event.end_time is Some ==> payload_of(event).due_date == Some(
            event.end_time->0.epoch_millis_spec(),
        ),
        event.start_time is None ==> payload_of(event).start_date is None,
        event.end_time is None ==> payload_of(event).due_date is None,
{
}

} // verus!
