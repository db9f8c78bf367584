//! From the text of a calendar feed to the events that are worth syncing.
//!
//! The feed's grammar is read by the `ical` crate. What comes out of it, a
//! list of properties per event, is normalised here: recurring events are
//! left out, the dates are parsed, and an event is kept only if it lies
//! inside the sync window.

use crate::error::SyncError;
use crate::instant::{
    chrono_date_from_str, chrono_datetime_from_str, date_from_str, datetime_from_str, NaiveInstant,
};
use ical::IcalParser;
use vstd::prelude::*;
use vstd::string::*;

verus! {

/// One property line of a feed event: its name and its value, if it has one.
#[derive(Clone, Debug, PartialEq, Eq)]
pub struct RawProperty {
    pub name: String,
    pub value: Option<String>,
}

/// A feed event as the grammar gives it: its properties in feed order.
#[derive(Clone, Debug, PartialEq, Eq)]
pub struct RawEvent {
    pub properties: Vec<RawProperty>,
}

/// A calendar event that takes part in the sync.
#[derive(Clone, Debug, PartialEq, Eq)]
pub struct ParsedEvent {
    /// The event's identity in the feed; empty if the feed gave none. The
    /// empty identity is an identity like any other: all events without one
    /// share a single mapping, and so a single task.
    pub uid: String,
    pub start_time: Option<NaiveInstant>,
    pub end_time: Option<NaiveInstant>,
    /// The event's title.
    pub summary: String,
    pub description: String,
}

/// The range of time an event has to lie in to be synced, both ends
/// included.
#[derive(Clone, Copy, Debug, PartialEq, Eq, Structural)]
pub struct SyncWindow {
    pub start: NaiveInstant,
    pub end: NaiveInstant,
}

/// What a [`RawProperty`] holds.
pub struct PropertyView {
    pub name: Seq<char>,
    pub value: Option<Seq<char>>,
}

/// What a [`ParsedEvent`] holds.
pub struct EventView {
    pub uid: Seq<char>,
    pub start_time: Option<NaiveInstant>,
    pub end_time: Option<NaiveInstant>,
    pub summary: Seq<char>,
    pub description: Seq<char>,
}

impl View for RawProperty {
    type V = PropertyView;

    open spec fn view(&self) -> PropertyView {
        PropertyView { name: self.name@, value: self.value.deep_view() }
    }
}

impl DeepView for RawProperty {
    type V = PropertyView;

    open spec fn deep_view(&self) -> PropertyView {
        self.view()
    }
}

impl View for RawEvent {
    type V = Seq<PropertyView>;

    open spec fn view(&self) -> Seq<PropertyView> {
        self.properties.deep_view()
    }
}

impl DeepView for RawEvent {
    type V = Seq<PropertyView>;

    open spec fn deep_view(&self) -> Seq<PropertyView> {
        self.view()
    }
}

impl View for ParsedEvent {
    type V = EventView;

    open spec fn view(&self) -> EventView {
        EventView {
            uid: self.uid@,
            start_time: self.start_time,
            end_time: self.end_time,
            summary: self.summary@,
            description: self.description@,
        }
    }
}

impl DeepView for ParsedEvent {
    type V = EventView;

    open spec fn deep_view(&self) -> EventView {
        self.view()
    }
}

/// The value of a property, the empty text if it has none.
pub open spec fn value_or_empty(property: PropertyView) -> Seq<char> {
    match property.value {
        Some(text) => text,
        None => Seq::empty(),
    }
}

/// Some property of the list has the given name.
pub open spec fn has_property(properties: Seq<PropertyView>, name: Seq<char>) -> bool {
    exists|i: int| 0 <= i < properties.len() && #[trigger] properties[i].name == name
}

/// The value of the first property with the given name; the empty text if
/// there is no such property or if the first one has no value.
pub open spec fn first_value(properties: Seq<PropertyView>, name: Seq<char>) -> Seq<char>
    decreases properties.len(),
{
    if properties.len() == 0 {
        Seq::empty()
    } else if properties[0].name == name {
        value_or_empty(properties[0])
    } else {
        first_value(properties.drop_first(), name)
    }
}

/// The values of all properties with the given name, one after the other in
/// feed order.
pub open spec fn joined_values(properties: Seq<PropertyView>, name: Seq<char>) -> Seq<char>
    decreases properties.len(),
{
    if properties.len() == 0 {
        Seq::empty()
    } else if properties.last().name == name {
        joined_values(properties.drop_last(), name) + value_or_empty(properties.last())
    } else {
        joined_values(properties.drop_last(), name)
    }
}

/// Whether `name` and `wanted` are the same text.
fn same_text(name: &String, wanted: &str) -> (same: bool)
    ensures
        same == (name@ == wanted@),
{
    let wanted_owned = String::from_str(wanted);
    *name == wanted_owned
}

impl RawEvent {
    /// Whether the event has a property of the given name.
    pub fn has(&self, name: &str) -> (found: bool)
        ensures
            found == has_property(self@, name@),
    {
        let mut i: usize = 0;
        while i < self.properties.len()
            invariant
                i <= self.properties.len(),
                forall|k: int| 0 <= k < i ==> (#[trigger] self@[k]).name != name@,
            decreases self.properties.len() - i,
        {
            if same_text(&self.properties[i].name, name) {
                assert(self@[i as int].name == name@);
                return true;
            }
            i += 1;
        }
        false
    }

    /// The value of the first property of the given name, or the empty text.
    pub fn first(&self, name: &str) -> (text: String)
        ensures
            text@ == first_value(self@, name@),
    {
        let mut i: usize = 0;
        assert(self@.skip(0) =~= self@);
        while i < self.properties.len()
            invariant
                i <= self.properties.len(),
                first_value(self@, name@) == first_value(self@.skip(i as int), name@),
            decreases self.properties.len() - i,
        {
            let property = &self.properties[i];
            proof {
                assert(self@.skip(i as int)[0] == property@);
                assert(self@.skip(i as int).drop_first() =~= self@.skip(i + 1));
            }
            if same_text(&property.name, name) {
                return match &property.value {
                    Some(text) => text.clone(),
                    None => String::new(),
                };
            }
            i += 1;
        }
        String::new()
    }

    /// The values of all properties of the given name, joined in feed order.
    pub fn joined(&self, name: &str) -> (text: String)
        ensures
            text@ == joined_values(self@, name@),
    {
        let mut text = String::new();
        let mut i: usize = 0;
        while i < self.properties.len()
            invariant
                i <= self.properties.len(),
                text@ == joined_values(self@.take(i as int), name@),
            decreases self.properties.len() - i,
        {
            let property = &self.properties[i];
            proof {
                assert(self@.take(i + 1).drop_last() =~= self@.take(i as int));
                assert(self@.take(i + 1).last() == property@);
            }
            if same_text(&property.name, name) {
                match &property.value {
                    Some(value) => {
                        text.append(value.as_str());
                    },
                    None => {
                        assert(text@ + Seq::<char>::empty() =~= text@);
                    },
                }
            }
            i += 1;
        }
        assert(self@.take(self.properties.len() as int) =~= self@);
        text
    }
}

/// The three layouts in which the feed writes a date.
#[derive(Clone, Copy, Debug, PartialEq, Eq, Structural)]
pub enum DateLayout {
    /// Date and time with a trailing `Z`, as in `20240115T103000Z`.
    UtcStamp,
    /// Date and time without a zone marker, as in `20240115T103000`. The
    /// `T` between the two may be left out.
    LocalStamp,
    /// A date alone, as in `20240115`; it stands for midnight of that day.
    DateOnly,
}

/// The layout that a date text is read in: a trailing `Z` marks a UTC
/// stamp; without one, a text of more than eight bytes carries a time.
pub open spec fn layout_of(text: Seq<char>) -> DateLayout {
    if text.len() > 0 && text.last() == 'Z' {
        DateLayout::UtcStamp
    } else if vstd::utf8::encode_utf8(text).len() > 8 {
        DateLayout::LocalStamp
    } else {
        DateLayout::DateOnly
    }
}

/// The instant that a date text of the feed stands for, if it can be read.
pub open spec fn parse_date_spec(text: Seq<char>) -> Option<NaiveInstant> {
    match layout_of(text) {
        DateLayout::UtcStamp => chrono_datetime_from_str(text, "%Y%m%dT%H%M%SZ"@),
        DateLayout::LocalStamp => match chrono_datetime_from_str(text, "%Y%m%dT%H%M%S"@) {
            Some(instant) => Some(instant),
            None => chrono_datetime_from_str(text, "%Y%m%d%H%M%S"@),
        },
        DateLayout::DateOnly => match chrono_date_from_str(text, "%Y%m%d"@) {
            Some(days) => Some(NaiveInstant::start_of_day_spec(days)),
            None => None,
        },
    }
}

/// Tells which of the three layouts a date text is read in.
pub fn date_layout(text: &str) -> (layout: DateLayout)
    ensures
        layout == layout_of(text@),
{
    let chars = text.unicode_len();
    if chars > 0 && text.get_char(chars - 1) == 'Z' {
        DateLayout::UtcStamp
    } else if text.as_bytes().len() > 8 {
        DateLayout::LocalStamp
    } else {
        DateLayout::DateOnly
    }
}

/// Reads a date text of the feed. A text that cannot be read in its layout
/// gives `None`.
pub fn parse_date_str(date_str: &str) -> (parsed: Option<NaiveInstant>)
    ensures
        parsed == parse_date_spec(date_str@),
{
    match date_layout(date_str) {
        DateLayout::UtcStamp => datetime_from_str(date_str, "%Y%m%dT%H%M%SZ"),
        DateLayout::LocalStamp => match datetime_from_str(date_str, "%Y%m%dT%H%M%S") {
            Some(instant) => Some(instant),
            None => datetime_from_str(date_str, "%Y%m%d%H%M%S"),
        },
        DateLayout::DateOnly => match date_from_str(date_str, "%Y%m%d") {
            Some(days) => Some(NaiveInstant::start_of_day(days)),
            None => None,
        },
    }
}

impl SyncWindow {
    /// An event from `start` to `end` lies inside the window.
    pub open spec fn contains(self, start: NaiveInstant, end: NaiveInstant) -> bool {
        self.start.at_or_before(start) && end.at_or_before(self.end)
    }

    /// An event with these times, where known, lies inside the window. An
    /// event without a start or without an end never does.
    pub open spec fn admits(self, start: Option<NaiveInstant>, end: Option<NaiveInstant>) -> bool {
        start is Some && end is Some && self.contains(start->0, end->0)
    }

    /// The window from midnight of `first_day` to 23:59:59 of `last_day`.
    pub open spec fn between_days_spec(first_day: i32, last_day: i32) -> SyncWindow {
        SyncWindow {
            start: NaiveInstant::start_of_day_spec(first_day),
            end: NaiveInstant::end_of_day_spec(last_day),
        }
    }

    /// The window that two `YYYY-MM-DD` dates describe, if both can be read.
    pub open spec fn from_dates_spec(start_date: Seq<char>, end_date: Seq<char>) -> Option<
        SyncWindow,
    > {
        match (
            chrono_date_from_str(start_date, "%Y-%m-%d"@),
            chrono_date_from_str(end_date, "%Y-%m-%d"@),
        ) {
            (Some(first_day), Some(last_day)) => Some(Self::between_days_spec(first_day, last_day)),
            _ => None,
        }
    }

    /// The window from midnight of `first_day` to 23:59:59 of `last_day`,
    /// both given as day numbers.
    pub fn between_days(first_day: i32, last_day: i32) -> (window: SyncWindow)
        ensures
            window == Self::between_days_spec(first_day, last_day),
    {
        SyncWindow {
            start: NaiveInstant::start_of_day(first_day),
            end: NaiveInstant::end_of_day(last_day),
        }
    }

    /// Reads the window from its two settings, dates written `YYYY-MM-DD`.
    /// A date that cannot be read is a configuration error.
    pub fn from_dates(start_date: &str, end_date: &str) -> (window: Result<SyncWindow, SyncError>)
        ensures
            window == match Self::from_dates_spec(start_date@, end_date@) {
                Some(w) => Ok::<SyncWindow, SyncError>(w),
                None => Err(SyncError::InvalidConfig),
            },
    {
        match date_from_str(start_date, "%Y-%m-%d") {
            Some(first_day) => match date_from_str(end_date, "%Y-%m-%d") {
                Some(last_day) => Ok(Self::between_days(first_day, last_day)),
                None => Err(SyncError::InvalidConfig),
            },
            None => Err(SyncError::InvalidConfig),
        }
    }

    /// Whether an event with these times lies inside the window.
    pub fn within(&self, start: Option<NaiveInstant>, end: Option<NaiveInstant>) -> (inside: bool)
        ensures
            inside == self.admits(start, end),
    {
        match (start, end) {
            (Some(s), Some(e)) => self.start.is_at_or_before(&s) && e.is_at_or_before(&self.end),
            _ => false,
        }
    }
}

/// The event that a property list gives once its two dates are read: none
/// for a recurring event, none unless both dates are known and inside the
/// window.
pub open spec fn event_of(
    properties: Seq<PropertyView>,
    start: Option<NaiveInstant>,
    end: Option<NaiveInstant>,
    window: SyncWindow,
) -> Option<EventView> {
    if has_property(properties, "RRULE"@) || !window.admits(start, end) {
        None
    } else {
        Some(
            EventView {
                uid: first_value(properties, "UID"@),
                start_time: start,
                end_time: end,
                summary: first_value(properties, "SUMMARY"@),
                description: first_value(properties, "DESCRIPTION"@),
            },
        )
    }
}

/// The event that a property list is normalised to, if any.
pub open spec fn normalize_spec(properties: Seq<PropertyView>, window: SyncWindow) -> Option<
    EventView,
> {
    event_of(
        properties,
        parse_date_spec(joined_values(properties, "DTSTART"@)),
        parse_date_spec(joined_values(properties, "DTEND"@)),
        window,
    )
}

/// The events that a list of feed events is normalised to, in feed order.
pub open spec fn normalize_all_spec(events: Seq<Seq<PropertyView>>, window: SyncWindow) -> Seq<
    EventView,
>
    decreases events.len(),
{
    if events.len() == 0 {
        Seq::empty()
    } else {
        let before = normalize_all_spec(events.drop_last(), window);
        match normalize_spec(events.last(), window) {
            Some(event) => before.push(event),
            None => before,
        }
    }
}

/// The events of a feed: those of each calendar that could be read, in
/// feed order. A calendar that could not be read gives none.
pub open spec fn feed_events_spec(
    calendars: Seq<Option<Seq<Seq<PropertyView>>>>,
    window: SyncWindow,
) -> Seq<EventView>
    decreases calendars.len(),
{
    if calendars.len() == 0 {
        Seq::empty()
    } else {
        let before = feed_events_spec(calendars.drop_last(), window);
        match calendars.last() {
            Some(events) => before + normalize_all_spec(events, window),
            None => before,
        }
    }
}

impl RawEvent {
    /// Builds the event to sync from the property list and its two dates,
    /// already read. Gives `None` for a recurring event, and unless both
    /// dates are known and the event lies inside the window.
    pub fn to_event(
        &self,
        start: Option<NaiveInstant>,
        end: Option<NaiveInstant>,
        window: &SyncWindow,
    ) -> (event: Option<ParsedEvent>)
        ensures
            event.deep_view() == event_of(self@, start, end, *window),
    {
        if self.has("RRULE") || !window.within(start, end) {
            None
        } else {
            Some(
                ParsedEvent {
                    uid: self.first("UID"),
                    start_time: start,
                    end_time: end,
                    summary: self.first("SUMMARY"),
                    description: self.first("DESCRIPTION"),
                },
            )
        }
    }
}

/// Normalises one feed event: reads its dates and keeps it if it is a single
/// occurrence inside the window.
pub fn normalize(raw: &RawEvent, window: &SyncWindow) -> (event: Option<ParsedEvent>)
    ensures
        event.deep_view() == normalize_spec(raw@, *window),
        has_property(raw@, "RRULE"@) ==> event is None,
{
    let start_text = raw.joined("DTSTART");
    let end_text = raw.joined("DTEND");
    let start = parse_date_str(start_text.as_str());
    let end = parse_date_str(end_text.as_str());
    raw.to_event(start, end, window)
}

/// Normalises the events of `raw_events` in order and puts those that are
/// kept at the end of `events`.
fn extend_normalized(events: &mut Vec<ParsedEvent>, raw_events: &Vec<RawEvent>, window: &SyncWindow)
    ensures
        final(events).deep_view() == old(events).deep_view() + normalize_all_spec(
            raw_events.deep_view(),
            *window,
        ),
{
    let ghost before = events.deep_view();
    let ghost raws = raw_events.deep_view();
    let mut i: usize = 0;
    assert(before + Seq::<EventView>::empty() =~= before);
    while i < raw_events.len()
        invariant
            i <= raw_events.len(),
            raws == raw_events.deep_view(),
            events.deep_view() == before + normalize_all_spec(raws.take(i as int), *window),
        decreases raw_events.len() - i,
    {
        let ghost so_far = events.deep_view();
        let ghost kept = normalize_all_spec(raws.take(i as int), *window);
        proof {
            assert(raws.take(i + 1).drop_last() =~= raws.take(i as int));
            assert(raws.take(i + 1).last() == raw_events[i as int]@);
        }
        match normalize(&raw_events[i], window) {
            Some(event) => {
                events.push(event);
                assert(events.deep_view() =~= so_far.push(event@));
                assert(so_far.push(event@) =~= before + kept.push(event@));
            },
            None => {},
        }
        i += 1;
    }
    assert(raws.take(raw_events.len() as int) =~= raws);
}

/// Normalises a list of feed events, keeping feed order.
pub fn normalize_all(raw_events: &Vec<RawEvent>, window: &SyncWindow) -> (events: Vec<ParsedEvent>)
    ensures
        events.deep_view() == normalize_all_spec(raw_events.deep_view(), *window),
{
    let mut events: Vec<ParsedEvent> = Vec::new();
    assert(events.deep_view() =~= Seq::<EventView>::empty());
    extend_normalized(&mut events, raw_events, window);
    assert(Seq::<EventView>::empty() + normalize_all_spec(raw_events.deep_view(), *window)
        =~= normalize_all_spec(raw_events.deep_view(), *window));
    events
}

/// What a calendar of a feed holds: the property lists of its events where
/// it could be read.
pub open spec fn calendar_view(calendar: Result<Vec<RawEvent>, SyncError>) -> Option<
    Seq<Seq<PropertyView>>,
> {
    match calendar {
        Ok(events) => Some(events.deep_view()),
        Err(_) => None,
    }
}

/// What the calendars of a feed hold.
pub open spec fn feed_view(calendars: Seq<Result<Vec<RawEvent>, SyncError>>) -> Seq<
    Option<Seq<Seq<PropertyView>>>,
> {
    Seq::new(calendars.len(), |i: int| calendar_view(calendars[i]))
}

/// Normalises the events of the calendars of a feed, calendar by calendar.
/// A calendar that could not be read is passed over.
pub fn normalize_calendars(
    calendars: &Vec<Result<Vec<RawEvent>, SyncError>>,
    window: &SyncWindow,
) -> (events: Vec<ParsedEvent>)
    ensures
        events.deep_view() == feed_events_spec(feed_view(calendars@), *window),
{
    let mut events: Vec<ParsedEvent> = Vec::new();
    let ghost all = feed_view(calendars@);
    let mut i: usize = 0;
    assert(events.deep_view() =~= Seq::<EventView>::empty());
    while i < calendars.len()
        invariant
            i <= calendars.len(),
            all == feed_view(calendars@),
            events.deep_view() == feed_events_spec(all.take(i as int), *window),
        decreases calendars.len() - i,
    {
        proof {
            assert(all.take(i + 1).drop_last() =~= all.take(i as int));
            assert(all.take(i + 1).last() == calendar_view(calendars[i as int]));
        }
        match &calendars[i] {
            Ok(raw_events) => {
                extend_normalized(&mut events, raw_events, window);
            },
            Err(_) => {},
        }
        i += 1;
    }
    assert(all.take(calendars.len() as int) =~= all);
    events
}

/// What `ical::IcalParser` reads out of a feed text: for each calendar in
/// turn the property lists of its events, or `None` where the parser
/// reported an error.
pub uninterp spec fn ical_calendars(content: Seq<char>) -> Seq<Option<Seq<Seq<PropertyView>>>>;

/// Runs `ical::IcalParser` over the text to its end. Trusted: the items it
/// yields are a function of the text, which [`ical_calendars`] names. Each
/// calendar is handed on as the name and value of every property of every
/// event, in the parser's order; an error item becomes `None`.
#[verifier::external_body]
fn read_calendars(content: &str) -> (calendars: Vec<Option<Vec<RawEvent>>>)
    ensures
        calendars.deep_view() == ical_calendars(content@),
{
    IcalParser::new(content.as_bytes()).map(
        |item| item.ok().map(
            |calendar| calendar.events.into_iter().map(
                |event| RawEvent {
                    properties: event.properties.into_iter().map(
                        |p| RawProperty { name: p.name, value: p.value },
                    ).collect(),
                },
            ).collect(),
        ),
    ).collect()
}

/// Reads the calendars of a feed. Each comes with the property lists of
/// its events, or with a parse error where its grammar is broken.
pub fn read_feed(ical_content: &str) -> (calendars: Vec<Result<Vec<RawEvent>, SyncError>>)
    ensures
        feed_view(calendars@) == ical_calendars(ical_content@),
        forall|i: int|
            0 <= i < calendars.len() && (#[trigger] calendars[i]) is Err ==> calendars[i]
                == Err::<Vec<RawEvent>, SyncError>(SyncError::ParseError),
{
    let read = read_calendars(ical_content);
    let ghost all = read.deep_view();
    let mut calendars: Vec<Result<Vec<RawEvent>, SyncError>> = Vec::new();
    for calendar in it: read.into_iter()
        invariant
            it.seq() == read@,
            all == read.deep_view(),
            calendars.len() == it.index(),
            forall|k: int|
                0 <= k < calendars.len() ==> calendar_view(#[trigger] calendars[k]) == all[k],
            forall|k: int|
                0 <= k < calendars.len() && (#[trigger] calendars[k]) is Err ==> calendars[k]
                    == Err::<Vec<RawEvent>, SyncError>(SyncError::ParseError),
    {
        calendars.push(
            match calendar {
                Some(events) => Ok(events),
                None => Err(SyncError::ParseError),
            },
        );
    }
    assert(feed_view(calendars@) =~= all);
    calendars
}

/// Reads a feed and gives the events to sync, in feed order: of every
/// calendar that can be read, the single-occurrence events whose dates can
/// be read and lie inside the window.
pub fn parse_ical(ical_content: &str, window: &SyncWindow) -> (events: Vec<ParsedEvent>)
    ensures
        events.deep_view() == feed_events_spec(ical_calendars(ical_content@), *window),
{
    let calendars = read_feed(ical_content);
    normalize_calendars(&calendars, window)
}

/// A recurring event is never normalised to an event, whatever its dates
/// and whatever the window.
pub proof fn recurring_event_is_dropped(properties: Seq<PropertyView>, window: SyncWindow)
    requires
        has_property(properties, "RRULE"@),
    ensures
        normalize_spec(properties, window) is None,
        forall|start: Option<NaiveInstant>, end: Option<NaiveInstant>|
            event_of(properties, start, end, window) is None,
{
}

/// Every event that comes out of the normalisation of a list comes from a
/// feed event of the list, and from one that is not recurring.
pub proof fn normalized_events_are_not_recurring(
    events: Seq<Seq<PropertyView>>,
    window: SyncWindow,
    j: int,
)
    ensures
        0 <= j < normalize_all_spec(events, window).len() ==> exists|i: int|
            0 <= i < events.len() && !has_property(#[trigger] events[i], "RRULE"@) && normalize_spec(
                events[i],
                window,
            ) == Some(normalize_all_spec(events, window)[j]),
    decreases events.len(),
{
    if 0 <= j < normalize_all_spec(events, window).len() {
        let before = normalize_all_spec(events.drop_last(), window);
        let last = events.len() - 1;
        if j < before.len() {
            normalized_events_are_not_recurring(events.drop_last(), window, j);
            let i = choose|i: int|
                0 <= i < events.drop_last().len() && !has_property(
                    #[trigger] events.drop_last()[i],
                    "RRULE"@,
                ) && normalize_spec(events.drop_last()[i], window) == Some(before[j]);
            assert(events[i] == events.drop_last()[i]);
        } else {
            assert(normalize_spec(events[last], window) == Some(
                normalize_all_spec(events, window)[j],
            ));
        }
    }
}

/// The feed event number `i` of calendar number `c` is not recurring and is
/// normalised to `event`.
pub open spec fn is_source(
    calendars: Seq<Option<Seq<Seq<PropertyView>>>>,
    window: SyncWindow,
    c: int,
    i: int,
    event: EventView,
) -> bool {
    &&& 0 <= c < calendars.len()
    &&& calendars[c] is Some
    &&& 0 <= i < calendars[c]->0.len()
    &&& !has_property(calendars[c]->0[i], "RRULE"@)
    &&& normalize_spec(calendars[c]->0[i], window) == Some(event)
}

/// Every event that a feed gives comes from a feed event of one of its
/// readable calendars, and from one that is not recurring.
pub proof fn feed_events_are_not_recurring(
    calendars: Seq<Option<Seq<Seq<PropertyView>>>>,
    window: SyncWindow,
    j: int,
)
    ensures
        0 <= j < feed_events_spec(calendars, window).len() ==> exists|c: int, i: int|
            is_source(calendars, window, c, i, feed_events_spec(calendars, window)[j]),
    decreases calendars.len(),
{
    if 0 <= j < feed_events_spec(calendars, window).len() {
        let event = feed_events_spec(calendars, window)[j];
        let earlier = calendars.drop_last();
        let before = feed_events_spec(earlier, window);
        if j < before.len() {
            feed_events_are_not_recurring(earlier, window, j);
            let (c, i) = choose|c: int, i: int| is_source(earlier, window, c, i, before[j]);
            assert(earlier[c] == calendars[c]);
            assert(is_source(calendars, window, c, i, event));
        } else {
            let c = calendars.len() - 1;
            let events = calendars[c]->0;
            let k = j - before.len();
            normalized_events_are_not_recurring(events, window, k);
            let i = choose|i: int|
                0 <= i < events.len() && !has_property(#[trigger] events[i], "RRULE"@)
                    && normalize_spec(events[i], window) == Some(
                    normalize_all_spec(events, window)[k],
                );
            assert(is_source(calendars, window, c, i, event));
        }
    }
}

/// An event is kept only if both its dates are known and it lies inside the
/// window: it starts no earlier than the window and ends no later.
pub proof fn kept_event_lies_in_window(properties: Seq<PropertyView>, window: SyncWindow)
    ensures
        normalize_spec(properties, window) matches Some(event) ==> {
            &&& event.start_time is Some
            &&& event.end_time is Some
            &&& window.start.at_or_before(event.start_time->0)
            &&& event.end_time->0.at_or_before(window.end)
        },
{
}

} // verus!
