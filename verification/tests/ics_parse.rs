use chrono::TimeZone;
use opentempus::ics::parse::{
    group_by_uid, normalize_line_endings, parse_duration, parse_event, parse_ics, split_unescaped, unescape_text, EventComponent,
    ParseOptions, Property,
};
use opentempus::models::{EventStatus, Rsvp, Transparency};

fn at(y: i32, mo: u32, d: u32, h: u32, mi: u32) -> i64 {
    chrono::Utc.with_ymd_and_hms(y, mo, d, h, mi, 0).unwrap().timestamp()
}

const SAMPLE: &str = "BEGIN:VCALENDAR\r\nVERSION:2.0\r\nPRODID:-//test//EN\r\nX-WR-TIMEZONE:Europe/Amsterdam\r\n\
BEGIN:VEVENT\r\nUID:one@example.com\r\nDTSTART;TZID=Europe/Amsterdam:20260914T090000\r\nDTEND;TZID=Europe/Amsterdam:20260914T093000\r\n\
SUMMARY:Daily standup\\, team A\r\nDESCRIPTION:Line one\\nLine two\r\nLOCATION:Room 1\r\nRRULE:FREQ=WEEKLY;BYDAY=MO,TU,WE,TH,FR\r\n\
EXDATE;TZID=Europe/Amsterdam:20260916T090000\r\nORGANIZER:mailto:boss@example.com\r\n\
ATTENDEE;PARTSTAT=TENTATIVE;CN=Me:mailto:me@example.com\r\nCATEGORIES:Work,Meetings\r\nEND:VEVENT\r\n\
BEGIN:VEVENT\r\nUID:two@example.com\r\nDTSTART;VALUE=DATE:20260920\r\nSUMMARY:Holiday\r\nTRANSP:TRANSPARENT\r\nEND:VEVENT\r\n\
BEGIN:VEVENT\r\nUID:three@example.com\r\nDTSTART:20260921T120000Z\r\nDURATION:PT45M\r\nSUMMARY:Call\r\nSTATUS:CANCELLED\r\n\
X-MICROSOFT-CDO-BUSYSTATUS:FREE\r\nEND:VEVENT\r\nEND:VCALENDAR\r\n";

fn opts() -> ParseOptions {
    ParseOptions { owner_emails: vec!["me@example.com".into()], default_tz: "UTC".into() }
}

#[test]
fn parses_timed_allday_and_duration_events() {
    let report = parse_ics(SAMPLE, &opts()).unwrap();
    assert_eq!(report.events.len(), 3, "{:?}", report.warnings);
    let one = &report.events[0];
    assert_eq!(one.summary.as_deref(), Some("Daily standup, team A"));
    assert_eq!(one.description.as_deref(), Some("Line one\nLine two"));
    // 09:00 Amsterdam in September is 07:00 UTC
    assert_eq!(one.start_at, at(2026, 9, 14, 7, 0));
    assert_eq!(one.end_at, at(2026, 9, 14, 7, 30));
    assert_eq!(one.timezone.as_deref(), Some("Europe/Amsterdam"));
    assert_eq!(one.rsvp, Rsvp::Tentative);
    assert_eq!(one.rrule.as_deref(), Some("FREQ=WEEKLY;BYDAY=MO,TU,WE,TH,FR"));
    assert_eq!(one.exdates, vec![at(2026, 9, 16, 7, 0)]);
    assert_eq!(one.categories, vec!["Work", "Meetings"]);

    let two = &report.events[1];
    assert!(two.all_day);
    assert_eq!(two.start_at, at(2026, 9, 20, 0, 0));
    assert_eq!(two.end_at, at(2026, 9, 21, 0, 0));
    assert_eq!(two.transparency, Transparency::Transparent);
    assert_eq!(two.rsvp, Rsvp::Organizer);

    let three = &report.events[2];
    assert_eq!(three.end_at - three.start_at, 45 * 60);
    assert_eq!(three.status, EventStatus::Cancelled);
    assert_eq!(three.transparency, Transparency::Transparent);
}

#[test]
fn floating_times_use_calendar_default_zone() {
    let ics = "BEGIN:VCALENDAR\r\nX-WR-TIMEZONE:America/New_York\r\nBEGIN:VEVENT\r\nUID:x\r\nDTSTART:20260701T090000\r\nEND:VEVENT\r\nEND:VCALENDAR\r\n";
    let report = parse_ics(ics, &opts()).unwrap();
    assert_eq!(report.events[0].start_at, at(2026, 7, 1, 13, 0));
}

#[test]
fn durations_parse() {
    assert_eq!(parse_duration("PT1H30M").unwrap(), 90 * 60);
    assert_eq!(parse_duration("P2W").unwrap(), 2 * 7 * 86400);
    assert_eq!(parse_duration("P1DT12H").unwrap(), 36 * 3600);
    assert_eq!(parse_duration("-PT15M").unwrap(), -15 * 60);
    assert!(parse_duration("1H").is_err());
}

#[test]
fn organizer_wins_over_attendee() {
    let ics = "BEGIN:VCALENDAR\r\nBEGIN:VEVENT\r\nUID:x\r\nDTSTART:20260701T090000Z\r\nORGANIZER:mailto:ME@example.com\r\nATTENDEE;PARTSTAT=DECLINED:mailto:me@example.com\r\nEND:VEVENT\r\nEND:VCALENDAR\r\n";
    let report = parse_ics(ics, &opts()).unwrap();
    assert_eq!(report.events[0].rsvp, Rsvp::Organizer);
}

#[test]
fn rejects_non_calendar_input() {
    assert!(parse_ics("<html>not a calendar</html>", &opts()).is_err());
}

#[test]
fn mirrored_events_are_skipped() {
    let ics = "BEGIN:VCALENDAR\r\nBEGIN:VEVENT\r\nUID:m\r\nDTSTART:20260701T090000Z\r\nX-OPENTEMPUS-MIRROR:1\r\nEND:VEVENT\r\nEND:VCALENDAR\r\n";
    let report = parse_ics(ics, &opts()).unwrap();
    assert!(report.events.is_empty());
    assert_eq!(report.skipped, 1);
}

#[test]
fn events_without_uid_are_skipped_and_bad_ones_warned() {
    let ics = "BEGIN:VCALENDAR\r\nBEGIN:VEVENT\r\nDTSTART:20260701T090000Z\r\nEND:VEVENT\r\nBEGIN:VEVENT\r\nUID:nostart\r\nEND:VEVENT\r\nEND:VCALENDAR\r\n";
    let report = parse_ics(ics, &opts()).unwrap();
    assert!(report.events.is_empty());
    assert_eq!(report.skipped, 2);
    assert_eq!(report.warnings, vec!["event nostart has no DTSTART".to_string()]);
}

#[test]
fn bare_newlines_are_accepted() {
    let ics = "BEGIN:VCALENDAR\nBEGIN:VEVENT\nUID:lf\nDTSTART:20260701T090000Z\nEND:VEVENT\nEND:VCALENDAR\n";
    let report = parse_ics(ics, &opts()).unwrap();
    assert_eq!(report.events.len(), 1);
    assert_eq!(normalize_line_endings("a\nb\r\nc"), "a\r\nb\r\nc");
}

#[test]
fn empty_document_is_not_a_calendar() {
    let e = parse_ics("", &opts()).unwrap_err();
    assert_eq!(e, "no VCALENDAR component found");
}

#[test]
fn end_before_start_is_clamped_and_all_day_lasts_a_day() {
    let ics = "BEGIN:VCALENDAR\r\nBEGIN:VEVENT\r\nUID:neg\r\nDTSTART:20260701T090000Z\r\nDTEND:20260701T080000Z\r\nEND:VEVENT\r\nEND:VCALENDAR\r\n";
    let report = parse_ics(ics, &opts()).unwrap();
    assert_eq!(report.events[0].end_at, report.events[0].start_at);
}

#[test]
fn sequence_rdates_and_tentative_busy_status() {
    let ics = "BEGIN:VCALENDAR\r\nBEGIN:VEVENT\r\nUID:s\r\nDTSTART:20260701T090000Z\r\nSEQUENCE: 7 \r\nRDATE:20260702T090000Z,20260703T090000Z/PT1H\r\nX-MICROSOFT-CDO-BUSYSTATUS:tentative\r\nLAST-MODIFIED:20260601T000000Z\r\nEND:VEVENT\r\nEND:VCALENDAR\r\n";
    let report = parse_ics(ics, &opts()).unwrap();
    let e = &report.events[0];
    assert_eq!(e.sequence, 7);
    assert_eq!(e.rdates, vec![at(2026, 7, 2, 9, 0), at(2026, 7, 3, 9, 0)]);
    assert_eq!(e.status, EventStatus::Tentative);
    assert_eq!(e.last_modified, Some(at(2026, 6, 1, 0, 0)));
}

#[test]
fn text_escapes_round_trip() {
    assert_eq!(unescape_text("a\\,b\\;c\\\\d\\Ne "), "a,b;c\\d\ne");
    assert_eq!(split_unescaped("a,b\\,c,d", ','), vec!["a", "b\\,c", "d"]);
}

#[test]
fn parse_event_reads_properties() {
    let p = |name: &str, value: &str| Property { name: name.into(), params: None, value: Some(value.into()) };
    let ev = EventComponent { properties: vec![p("UID", "u1"), p("DTSTART", "20260914"), p("SUMMARY", " Hi ")] };
    let e = parse_event(&ev, &opts()).unwrap().unwrap();
    assert!(e.all_day);
    assert_eq!(e.summary.as_deref(), Some("Hi"));
    assert_eq!(e.end_at - e.start_at, 86400);
    let bad = EventComponent { properties: vec![p("UID", "u2"), p("DTSTART", "2026")] };
    assert!(parse_event(&bad, &opts()).is_err());
}

#[test]
fn groups_events_by_uid() {
    let report = parse_ics(SAMPLE, &opts()).unwrap();
    let mut events = report.events;
    let mut dup = events[0].clone();
    dup.recurrence_id = Some(dup.start_at);
    events.push(dup);
    let groups = group_by_uid(events);
    assert_eq!(groups.len(), 3);
    let one = groups.iter().find(|(u, _)| u == "one@example.com").unwrap();
    assert_eq!(one.1.len(), 2);
}

#[test]
fn empty_categories_are_dropped() {
    let ics = "BEGIN:VCALENDAR\r\nBEGIN:VEVENT\r\nUID:c\r\nDTSTART:20260701T090000Z\r\nCATEGORIES:,Work, ,Sport\\,Padel\r\nCATEGORIES:Home,\r\nEND:VEVENT\r\nEND:VCALENDAR\r\n";
    let report = parse_ics(ics, &opts()).unwrap();
    assert_eq!(report.events[0].categories, vec!["Work", "Sport,Padel", "Home"]);
}
