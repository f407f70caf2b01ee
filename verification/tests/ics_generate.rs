use chrono::TimeZone;
use opentempus::ics::generate::{escape_text, mirror_uid, render_feed, render_mirror_object, rsvp_label, FeedOptions};
use opentempus::models::Rsvp;
use opentempus::sharing::SharedEvent;

fn at(y: i32, mo: u32, d: u32, h: u32) -> i64 {
    chrono::Utc.with_ymd_and_hms(y, mo, d, h, 0, 0).unwrap().timestamp()
}

fn now() -> i64 {
    chrono::Utc::now().timestamp()
}

#[test]
fn renders_busy_block_without_details() {
    let ev = SharedEvent {
        id: 0,
        start: at(2026, 9, 14, 7),
        end: at(2026, 9, 14, 8),
        all_day: false,
        busy: true,
        title: None,
        description: None,
        location: None,
        category: None,
        origin_calendar: None,
        rsvp: None,
    };
    let ics = render_feed(&[ev], &FeedOptions { calendar_name: "Robbert (busy)", host: "cal.test", now: now() });
    assert!(ics.contains("SUMMARY:Busy\r\n"));
    assert!(ics.contains("DTSTART:20260914T070000Z\r\n"));
    assert!(!ics.contains("LOCATION"));
    assert!(ics.starts_with("BEGIN:VCALENDAR\r\n"));
    assert!(ics.ends_with("END:VCALENDAR\r\n"));
}

#[test]
fn folds_long_lines_and_escapes() {
    let ev = SharedEvent {
        id: 0,
        start: at(2026, 9, 14, 0),
        end: at(2026, 9, 15, 0),
        all_day: true,
        busy: true,
        title: Some("A; very, long title ".repeat(6)),
        description: Some("l1\nl2".into()),
        location: None,
        category: Some("work".into()),
        origin_calendar: Some("Work".into()),
        rsvp: Some(Rsvp::Accepted),
    };
    let ics = render_feed(&[ev], &FeedOptions { calendar_name: "x", host: "h", now: now() });
    assert!(ics.contains("DTSTART;VALUE=DATE:20260914\r\n"));
    assert!(ics.contains("\\;"));
    assert!(ics.contains("l1\\nl2"));
    for l in ics.split("\r\n") {
        assert!(l.len() <= 75, "line too long: {l:?}");
    }
}

#[test]
fn escapes_text_values() {
    assert_eq!(escape_text("a\\b;c,d\ne\rf"), "a\\\\b\\;c\\,d\\nef");
}

#[test]
fn folds_at_75_octets_with_continuation_space() {
    let mut out = String::new();
    opentempus::ics::generate::line(&mut out, &"x".repeat(80));
    assert_eq!(out, format!("{}\r\n {}\r\n", "x".repeat(75), "x".repeat(5)));
    let mut short = String::new();
    opentempus::ics::generate::line(&mut short, "SUMMARY:ok");
    assert_eq!(short, "SUMMARY:ok\r\n");
}

#[test]
fn labels_and_uids() {
    assert_eq!(rsvp_label(Rsvp::NeedsAction), "needs-action");
    assert_eq!(rsvp_label(Rsvp::Organizer), "organizer");
    assert_eq!(mirror_uid(1, "cal.test"), "ot-00000000-0000-0000-0000-000000000001@cal.test");
}

#[test]
fn mirror_objects_are_marked_and_deterministic() {
    let ev = SharedEvent {
        id: 7,
        start: at(2026, 9, 14, 7),
        end: at(2026, 9, 14, 8),
        all_day: false,
        busy: true,
        title: None,
        description: None,
        location: None,
        category: Some("work".into()),
        origin_calendar: None,
        rsvp: None,
    };
    let a = render_mirror_object(&ev, "Blocked", "cal.test");
    let b = render_mirror_object(&ev, "Blocked", "cal.test");
    assert_eq!(a, b);
    assert!(a.contains("X-OPENTEMPUS-MIRROR:1\r\n"));
    assert!(a.contains("SUMMARY:Blocked\r\n"));
    assert!(a.contains("CATEGORIES:work\r\n"));
}
