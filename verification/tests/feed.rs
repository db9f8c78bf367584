use chrono::{Datelike, NaiveDate};
use docsoc_clickup_calendar_sync::docsoc_ical::{
    date_layout, normalize, normalize_all, normalize_calendars, parse_date_str, parse_ical,
    read_feed, DateLayout, ParsedEvent, RawEvent, RawProperty, SyncWindow,
};
use docsoc_clickup_calendar_sync::error::SyncError;
use docsoc_clickup_calendar_sync::instant::NaiveInstant;

fn day(year: i32, month: u32, day: u32) -> i32 {
    NaiveDate::from_ymd_opt(year, month, day).unwrap().num_days_from_ce()
}

fn at(year: i32, month: u32, d: u32, hour: u32, minute: u32, second: u32) -> NaiveInstant {
    NaiveInstant { days: day(year, month, d), secs: hour * 3600 + minute * 60 + second, nanos: 0 }
}

fn property(name: &str, value: &str) -> RawProperty {
    RawProperty { name: name.to_string(), value: Some(value.to_string()) }
}

fn raw(properties: Vec<RawProperty>) -> RawEvent {
    RawEvent { properties }
}

fn january() -> SyncWindow {
    SyncWindow::from_dates("2024-01-01", "2024-01-31").unwrap()
}

const FEED: &str = "BEGIN:VCALENDAR\r\n\
VERSION:2.0\r\n\
PRODID:-//Example//Calendar//EN\r\n\
BEGIN:VEVENT\r\n\
UID:meeting@example.com\r\n\
DTSTART:20240115T100000Z\r\n\
DTEND:20240115T113000Z\r\n\
SUMMARY:Committee meeting\r\n\
DESCRIPTION:Bring the agenda\r\n\
END:VEVENT\r\n\
BEGIN:VEVENT\r\n\
UID:weekly@example.com\r\n\
DTSTART:20240116T100000Z\r\n\
DTEND:20240116T110000Z\r\n\
RRULE:FREQ=WEEKLY\r\n\
SUMMARY:Weekly social\r\n\
END:VEVENT\r\n\
BEGIN:VEVENT\r\n\
UID:allday@example.com\r\n\
DTSTART;VALUE=DATE:20240120\r\n\
DTEND;VALUE=DATE:20240121\r\n\
SUMMARY:Hackathon\r\n\
END:VEVENT\r\n\
BEGIN:VEVENT\r\n\
UID:late@example.com\r\n\
DTSTART:20240201T000000Z\r\n\
DTEND:20240201T010000Z\r\n\
SUMMARY:Too late\r\n\
END:VEVENT\r\n\
END:VCALENDAR\r\n";

#[test]
fn day_numbers_count_from_year_one() {
    assert_eq!(day(1, 1, 1), 1);
    assert_eq!(day(1970, 1, 1), 719_163);
    assert_eq!(day(2024, 1, 15), 738_900);
}

#[test]
fn layout_is_told_by_the_zone_marker_and_the_length() {
    assert_eq!(date_layout("20240115T103000Z"), DateLayout::UtcStamp);
    assert_eq!(date_layout("Z"), DateLayout::UtcStamp);
    assert_eq!(date_layout("20240115T103000"), DateLayout::LocalStamp);
    assert_eq!(date_layout("20240115103000"), DateLayout::LocalStamp);
    assert_eq!(date_layout("202401151"), DateLayout::LocalStamp);
    assert_eq!(date_layout("20240115"), DateLayout::DateOnly);
    assert_eq!(date_layout(""), DateLayout::DateOnly);
}

#[test]
fn layout_goes_by_bytes_not_characters() {
    // Eight characters, ten bytes.
    assert_eq!(date_layout("\u{3000}2024115"), DateLayout::LocalStamp);
}

#[test]
fn parses_a_utc_stamp() {
    assert_eq!(parse_date_str("20240115T103000Z"), Some(at(2024, 1, 15, 10, 30, 0)));
    assert_eq!(
        parse_date_str("20240115T103000Z"),
        Some(NaiveInstant { days: 738_900, secs: 37_800, nanos: 0 })
    );
}

#[test]
fn parses_a_local_stamp() {
    assert_eq!(parse_date_str("20240115T103000"), Some(at(2024, 1, 15, 10, 30, 0)));
    assert_eq!(
        parse_date_str("20240115T103000"),
        Some(NaiveInstant { days: 738_900, secs: 37_800, nanos: 0 })
    );
    assert_eq!(parse_date_str("20241231T235959"), Some(at(2024, 12, 31, 23, 59, 59)));
}

#[test]
fn parses_a_local_stamp_without_its_separator() {
    assert_eq!(parse_date_str("20240115103000"), Some(at(2024, 1, 15, 10, 30, 0)));
}

#[test]
fn local_stamp_and_utc_stamp_give_the_same_instant() {
    assert_eq!(parse_date_str("20240115T103000"), parse_date_str("20240115T103000Z"));
}

#[test]
fn parses_a_date_as_its_midnight() {
    assert_eq!(parse_date_str("20240115"), Some(at(2024, 1, 15, 0, 0, 0)));
    assert_eq!(parse_date_str("20240115"), Some(NaiveInstant::start_of_day(738_900)));
}

#[test]
fn parses_a_leap_second() {
    assert_eq!(
        parse_date_str("20161231T235960Z"),
        Some(NaiveInstant { days: day(2016, 12, 31), secs: 86_399, nanos: 1_000_000_000 })
    );
}

#[test]
fn unreadable_dates_are_absent() {
    assert_eq!(parse_date_str(""), None);
    assert_eq!(parse_date_str("not a date"), None);
    assert_eq!(parse_date_str("20240115T"), None);
    assert_eq!(parse_date_str("20240115X103000"), None);
    assert_eq!(parse_date_str("20240115T256000"), None);
    assert_eq!(parse_date_str("20240115T103000+0100"), None);
    assert_eq!(parse_date_str("20241315"), None);
    assert_eq!(parse_date_str("202401"), None);
    assert_eq!(parse_date_str("20240230T000000Z"), None);
    assert_eq!(parse_date_str("\u{3000}2024115"), None);
}

#[test]
fn a_day_may_be_written_with_one_digit() {
    assert_eq!(parse_date_str("2024011"), Some(at(2024, 1, 1, 0, 0, 0)));
}

#[test]
fn window_runs_from_midnight_to_the_last_second() {
    let window = january();
    assert_eq!(window.start, at(2024, 1, 1, 0, 0, 0));
    assert_eq!(window.end, at(2024, 1, 31, 23, 59, 59));
    assert_eq!(window, SyncWindow::between_days(day(2024, 1, 1), day(2024, 1, 31)));
}

#[test]
fn unreadable_window_dates_are_a_configuration_error() {
    assert_eq!(SyncWindow::from_dates("01/01/2024", "2024-01-31"), Err(SyncError::InvalidConfig));
    assert_eq!(SyncWindow::from_dates("2024-01-01", ""), Err(SyncError::InvalidConfig));
    assert_eq!(SyncWindow::from_dates("20240101", "20240131"), Err(SyncError::InvalidConfig));
}

#[test]
fn window_includes_both_its_ends() {
    let window = january();
    assert!(window.within(Some(window.start), Some(window.end)));
    assert!(!window.within(Some(at(2023, 12, 31, 23, 59, 59)), Some(window.end)));
    assert!(!window.within(Some(window.start), Some(at(2024, 2, 1, 0, 0, 0))));
    let leap = NaiveInstant { days: day(2024, 1, 31), secs: 86_399, nanos: 1_000_000_000 };
    assert!(!window.within(Some(window.start), Some(leap)));
}

#[test]
fn window_refuses_an_event_without_a_date() {
    let window = january();
    assert!(!window.within(None, Some(window.end)));
    assert!(!window.within(Some(window.start), None));
    assert!(!window.within(None, None));
}

#[test]
fn window_filter_example() {
    let window = january();
    let event = raw(vec![property("UID", "in")]);
    let kept = event.to_event(
        Some(at(2024, 1, 15, 0, 0, 0)),
        Some(at(2024, 1, 15, 1, 0, 0)),
        &window,
    );
    assert_eq!(
        kept,
        Some(ParsedEvent {
            uid: "in".to_string(),
            start_time: Some(at(2024, 1, 15, 0, 0, 0)),
            end_time: Some(at(2024, 1, 15, 1, 0, 0)),
            summary: String::new(),
            description: String::new(),
        })
    );
    let dropped = event.to_event(
        Some(at(2024, 2, 1, 0, 0, 0)),
        Some(at(2024, 2, 1, 1, 0, 0)),
        &window,
    );
    assert_eq!(dropped, None);
}

#[test]
fn window_filter_example_from_text() {
    let window = january();
    let inside = raw(vec![
        property("UID", "in"),
        property("DTSTART", "20240115T000000Z"),
        property("DTEND", "20240115T010000Z"),
    ]);
    assert!(normalize(&inside, &window).is_some());
    let outside = raw(vec![
        property("UID", "out"),
        property("DTSTART", "20240201T000000Z"),
        property("DTEND", "20240201T010000Z"),
    ]);
    assert_eq!(normalize(&outside, &window), None);
}

#[test]
fn recurring_event_is_excluded() {
    let window = january();
    let weekly = raw(vec![
        property("UID", "weekly"),
        property("DTSTART", "20240115T100000Z"),
        property("DTEND", "20240115T110000Z"),
        property("RRULE", "FREQ=WEEKLY"),
        property("SUMMARY", "Weekly social"),
    ]);
    assert!(weekly.has("RRULE"));
    assert_eq!(normalize(&weekly, &window), None);
    assert_eq!(
        weekly.to_event(Some(at(2024, 1, 15, 10, 0, 0)), Some(at(2024, 1, 15, 11, 0, 0)), &window),
        None
    );
    let once = raw(vec![
        property("UID", "once"),
        property("DTSTART", "20240115T100000Z"),
        property("DTEND", "20240115T110000Z"),
        property("SUMMARY", "Weekly social"),
    ]);
    assert!(!once.has("RRULE"));
    assert!(normalize(&once, &window).is_some());
}

#[test]
fn recurrence_rule_without_a_value_still_excludes() {
    let window = january();
    let event = raw(vec![
        property("DTSTART", "20240115T100000Z"),
        property("DTEND", "20240115T110000Z"),
        RawProperty { name: "RRULE".to_string(), value: None },
    ]);
    assert_eq!(normalize(&event, &window), None);
}

#[test]
fn property_names_are_matched_exactly() {
    let event = raw(vec![property("rrule", "FREQ=WEEKLY"), property("Uid", "x")]);
    assert!(!event.has("RRULE"));
    assert_eq!(event.first("UID"), "");
}

#[test]
fn normalize_fills_every_field() {
    let event = raw(vec![
        property("SUMMARY", "Committee meeting"),
        property("DTEND", "20240115T113000Z"),
        property("UID", "meeting@example.com"),
        property("DESCRIPTION", "Bring the agenda"),
        property("DTSTART", "20240115T100000Z"),
        property("LOCATION", "Room 311"),
    ]);
    assert_eq!(
        normalize(&event, &january()),
        Some(ParsedEvent {
            uid: "meeting@example.com".to_string(),
            start_time: Some(at(2024, 1, 15, 10, 0, 0)),
            end_time: Some(at(2024, 1, 15, 11, 30, 0)),
            summary: "Committee meeting".to_string(),
            description: "Bring the agenda".to_string(),
        })
    );
}

#[test]
fn missing_text_fields_default_to_empty() {
    let event = raw(vec![
        property("DTSTART", "20240115"),
        property("DTEND", "20240116"),
    ]);
    assert_eq!(
        normalize(&event, &january()),
        Some(ParsedEvent {
            uid: String::new(),
            start_time: Some(at(2024, 1, 15, 0, 0, 0)),
            end_time: Some(at(2024, 1, 16, 0, 0, 0)),
            summary: String::new(),
            description: String::new(),
        })
    );
}

#[test]
fn event_without_a_readable_date_is_dropped() {
    let window = january();
    let no_end = raw(vec![property("UID", "a"), property("DTSTART", "20240115T100000Z")]);
    assert_eq!(normalize(&no_end, &window), None);
    let no_start = raw(vec![property("UID", "a"), property("DTEND", "20240115T100000Z")]);
    assert_eq!(normalize(&no_start, &window), None);
    let bad_start = raw(vec![
        property("UID", "a"),
        property("DTSTART", "soon"),
        property("DTEND", "20240115T100000Z"),
    ]);
    assert_eq!(normalize(&bad_start, &window), None);
}

#[test]
fn first_value_is_that_of_the_first_property() {
    let event = raw(vec![
        property("SUMMARY", "first"),
        property("SUMMARY", "second"),
        RawProperty { name: "UID".to_string(), value: None },
        property("UID", "later"),
    ]);
    assert_eq!(event.first("SUMMARY"), "first");
    assert_eq!(event.first("UID"), "");
    assert_eq!(event.first("DESCRIPTION"), "");
}

#[test]
fn joined_values_run_in_feed_order() {
    let event = raw(vec![
        property("DTSTART", "2024"),
        property("UID", "x"),
        RawProperty { name: "DTSTART".to_string(), value: None },
        property("DTSTART", "0115"),
    ]);
    assert_eq!(event.joined("DTSTART"), "20240115");
    assert_eq!(event.joined("DTEND"), "");
}

#[test]
fn repeated_date_properties_are_read_as_one_text() {
    let window = january();
    let split = raw(vec![
        property("DTSTART", "2024"),
        property("DTSTART", "0115"),
        property("DTEND", "20240116"),
    ]);
    assert_eq!(
        normalize(&split, &window).map(|e| e.start_time),
        Some(Some(at(2024, 1, 15, 0, 0, 0)))
    );
    let twice = raw(vec![
        property("DTSTART", "20240115T100000Z"),
        property("DTSTART", "20240115T100000Z"),
        property("DTEND", "20240116"),
    ]);
    assert_eq!(normalize(&twice, &window), None);
}

#[test]
fn normalize_all_keeps_feed_order() {
    let window = january();
    let events = vec![
        raw(vec![property("UID", "b"), property("DTSTART", "20240120"), property("DTEND", "20240121")]),
        raw(vec![property("UID", "gone"), property("DTSTART", "20240301"), property("DTEND", "20240302")]),
        raw(vec![property("UID", "a"), property("DTSTART", "20240110"), property("DTEND", "20240111")]),
    ];
    let uids: Vec<String> = normalize_all(&events, &window).into_iter().map(|e| e.uid).collect();
    assert_eq!(uids, vec!["b".to_string(), "a".to_string()]);
    assert_eq!(normalize_all(&Vec::new(), &window), Vec::new());
}

#[test]
fn unreadable_calendars_are_passed_over() {
    let window = january();
    let one = raw(vec![property("UID", "1"), property("DTSTART", "20240110"), property("DTEND", "20240111")]);
    let two = raw(vec![property("UID", "2"), property("DTSTART", "20240112"), property("DTEND", "20240113")]);
    let three = raw(vec![property("UID", "3"), property("DTSTART", "20240114"), property("DTEND", "20240115")]);
    let calendars = vec![
        Ok(vec![one, two]),
        Err(SyncError::ParseError),
        Ok(Vec::new()),
        Ok(vec![three]),
    ];
    let uids: Vec<String> =
        normalize_calendars(&calendars, &window).into_iter().map(|e| e.uid).collect();
    assert_eq!(uids, vec!["1".to_string(), "2".to_string(), "3".to_string()]);
}

#[test]
fn read_feed_gives_the_properties_of_each_event() {
    let calendars = read_feed(FEED);
    assert_eq!(calendars.len(), 1);
    let events = calendars[0].clone().unwrap();
    assert_eq!(events.len(), 4);
    assert_eq!(
        events[0],
        raw(vec![
            property("UID", "meeting@example.com"),
            property("DTSTART", "20240115T100000Z"),
            property("DTEND", "20240115T113000Z"),
            property("SUMMARY", "Committee meeting"),
            property("DESCRIPTION", "Bring the agenda"),
        ])
    );
    assert_eq!(
        events[2],
        raw(vec![
            property("UID", "allday@example.com"),
            property("DTSTART", "20240120"),
            property("DTEND", "20240121"),
            property("SUMMARY", "Hackathon"),
        ])
    );
}

#[test]
fn read_feed_keeps_a_property_without_a_value() {
    let calendars = read_feed(
        "BEGIN:VCALENDAR\r\nBEGIN:VEVENT\r\nUID:x\r\nSUMMARY:\r\nEND:VEVENT\r\nEND:VCALENDAR\r\n",
    );
    assert_eq!(
        calendars,
        vec![Ok(vec![raw(vec![
            property("UID", "x"),
            RawProperty { name: "SUMMARY".to_string(), value: None },
        ])])]
    );
}

#[test]
fn read_feed_reports_what_it_cannot_read() {
    assert_eq!(read_feed(""), Vec::new());
    assert_eq!(read_feed("this is not a calendar\r\n"), vec![Err(SyncError::ParseError)]);
    assert_eq!(
        read_feed("BEGIN:VCALENDAR\r\nBEGIN:VEVENT\r\nUID:x\r\n"),
        vec![Err(SyncError::ParseError)]
    );
    let mut feed = String::from("BEGIN:VCALENDAR\r\nBEGIN:VNONSENSE\r\n");
    feed.push_str(FEED);
    let calendars = read_feed(&feed);
    assert_eq!(calendars.len(), 2);
    assert_eq!(calendars[0], Err(SyncError::ParseError));
    assert_eq!(calendars[1].as_ref().map(|events| events.len()), Ok(4));
}

#[test]
fn parse_ical_reads_a_feed() {
    let events = parse_ical(FEED, &january());
    assert_eq!(
        events,
        vec![
            ParsedEvent {
                uid: "meeting@example.com".to_string(),
                start_time: Some(at(2024, 1, 15, 10, 0, 0)),
                end_time: Some(at(2024, 1, 15, 11, 30, 0)),
                summary: "Committee meeting".to_string(),
                description: "Bring the agenda".to_string(),
            },
            ParsedEvent {
                uid: "allday@example.com".to_string(),
                start_time: Some(at(2024, 1, 20, 0, 0, 0)),
                end_time: Some(at(2024, 1, 21, 0, 0, 0)),
                summary: "Hackathon".to_string(),
                description: String::new(),
            },
        ]
    );
}

#[test]
fn parse_ical_drops_recurring_events() {
    let events = parse_ical(FEED, &SyncWindow::from_dates("2000-01-01", "2100-01-01").unwrap());
    let uids: Vec<String> = events.into_iter().map(|e| e.uid).collect();
    assert_eq!(
        uids,
        vec![
            "meeting@example.com".to_string(),
            "allday@example.com".to_string(),
            "late@example.com".to_string(),
        ]
    );
}

#[test]
fn parse_ical_keeps_an_event_in_local_time() {
    let feed = "BEGIN:VCALENDAR\r\n\
BEGIN:VEVENT\r\n\
UID:local@example.com\r\n\
DTSTART;TZID=Europe/London:20240117T090000\r\n\
DTEND;TZID=Europe/London:20240117T103000\r\n\
SUMMARY:Office hours\r\n\
END:VEVENT\r\n\
END:VCALENDAR\r\n";
    assert_eq!(
        parse_ical(feed, &january()),
        vec![ParsedEvent {
            uid: "local@example.com".to_string(),
            start_time: Some(at(2024, 1, 17, 9, 0, 0)),
            end_time: Some(at(2024, 1, 17, 10, 30, 0)),
            summary: "Office hours".to_string(),
            description: String::new(),
        }]
    );
}

#[test]
fn normalize_keeps_an_event_in_local_time() {
    let event = raw(vec![
        property("UID", "local"),
        property("DTSTART", "20240117T090000"),
        property("DTEND", "20240117T103000"),
    ]);
    assert_eq!(
        normalize(&event, &january()).map(|e| (e.start_time, e.end_time)),
        Some((Some(at(2024, 1, 17, 9, 0, 0)), Some(at(2024, 1, 17, 10, 30, 0))))
    );
}

#[test]
fn parse_ical_of_nothing_is_nothing() {
    assert_eq!(parse_ical("", &january()), Vec::new());
}

#[test]
fn parse_ical_passes_over_what_is_no_calendar() {
    assert_eq!(parse_ical("this is not a calendar\r\n", &january()), Vec::new());
    let truncated = "BEGIN:VCALENDAR\r\nBEGIN:VEVENT\r\nUID:x\r\nDTSTART:20240115\r\nDTEND:20240116\r\n";
    assert_eq!(parse_ical(truncated, &january()), Vec::new());
}

#[test]
fn parse_ical_goes_on_after_an_unreadable_calendar() {
    let mut feed = String::from("BEGIN:VCALENDAR\r\nBEGIN:VNONSENSE\r\nEND:VNONSENSE\r\nEND:VCALENDAR\r\n");
    feed.push_str(FEED);
    let uids: Vec<String> = parse_ical(&feed, &january()).into_iter().map(|e| e.uid).collect();
    assert_eq!(uids, vec!["meeting@example.com".to_string(), "allday@example.com".to_string()]);
}
