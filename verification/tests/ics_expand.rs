use chrono::TimeZone;
use opentempus::ics::expand::{expand, finish_occurrences, Occurrence, MAX_OCCURRENCES};
use opentempus::ics::parse::ParsedEvent;
use opentempus::models::{EventStatus, Rsvp, Transparency};

fn utc(y: i32, m: u32, d: u32, h: u32, min: u32) -> i64 {
    chrono::Utc.with_ymd_and_hms(y, m, d, h, min, 0).unwrap().timestamp()
}

fn master(start: i64, end: i64, rrule: Option<&str>, tz: Option<&str>, all_day: bool) -> ParsedEvent {
    ParsedEvent {
        uid: "u".into(),
        recurrence_id: None,
        summary: None,
        description: None,
        location: None,
        start_at: start,
        end_at: end,
        all_day,
        timezone: tz.map(String::from),
        status: EventStatus::Confirmed,
        transparency: Transparency::Opaque,
        rsvp: Rsvp::Organizer,
        categories: vec![],
        rrule: rrule.map(String::from),
        rdates: vec![],
        exdates: vec![],
        sequence: 0,
        last_modified: None,
    }
}

#[test]
fn non_recurring_yields_single_occurrence_inside_window() {
    let m = master(utc(2026, 9, 14, 9, 0), utc(2026, 9, 14, 10, 0), None, None, false);
    let occ = expand(&m, &[], utc(2026, 9, 1, 0, 0), utc(2026, 10, 1, 0, 0)).unwrap();
    assert_eq!(occ.len(), 1);
    let occ = expand(&m, &[], utc(2026, 10, 1, 0, 0), utc(2026, 11, 1, 0, 0)).unwrap();
    assert!(occ.is_empty());
}

#[test]
fn weekly_rule_expands_with_exdate_and_override() {
    // 09:00 Amsterdam (07:00 UTC in CEST)
    let mut m = master(
        utc(2026, 9, 14, 7, 0),
        utc(2026, 9, 14, 7, 30),
        Some("FREQ=WEEKLY;BYDAY=MO,WE;COUNT=6"),
        Some("Europe/Amsterdam"),
        false,
    );
    m.exdates = vec![utc(2026, 9, 16, 7, 0)];
    let overridden = [utc(2026, 9, 21, 7, 0)];
    let occ = expand(&m, &overridden, utc(2026, 9, 1, 0, 0), utc(2026, 12, 1, 0, 0)).unwrap();
    let starts: Vec<_> = occ.iter().map(|o| o.start_at).collect();
    assert_eq!(starts, vec![utc(2026, 9, 14, 7, 0), utc(2026, 9, 23, 7, 0), utc(2026, 9, 28, 7, 0), utc(2026, 9, 30, 7, 0)]);
    assert!(occ.iter().all(|o| o.end_at - o.start_at == 30 * 60));
}

#[test]
fn dst_transition_keeps_local_wall_time() {
    // Weekly at 09:00 Amsterdam across the October DST change (2026-10-25).
    let m = master(utc(2026, 10, 19, 7, 0), utc(2026, 10, 19, 8, 0), Some("FREQ=WEEKLY;COUNT=2"), Some("Europe/Amsterdam"), false);
    let occ = expand(&m, &[], utc(2026, 10, 1, 0, 0), utc(2026, 11, 30, 0, 0)).unwrap();
    assert_eq!(occ[0].start_at, utc(2026, 10, 19, 7, 0));
    // After DST ends, 09:00 local is 08:00 UTC.
    assert_eq!(occ[1].start_at, utc(2026, 10, 26, 8, 0));
}

#[test]
fn all_day_recurring() {
    let m = master(utc(2026, 9, 14, 0, 0), utc(2026, 9, 15, 0, 0), Some("FREQ=DAILY;COUNT=3"), None, true);
    let occ = expand(&m, &[], utc(2026, 9, 1, 0, 0), utc(2026, 10, 1, 0, 0)).unwrap();
    assert_eq!(occ.len(), 3);
    assert!(occ.iter().all(|o| o.all_day));
    assert_eq!(occ[2].start_at, utc(2026, 9, 16, 0, 0));
}

#[test]
fn occurrence_starting_before_window_but_overlapping_is_included() {
    let m = master(utc(2026, 9, 13, 22, 0), utc(2026, 9, 14, 2, 0), Some("FREQ=DAILY;COUNT=1"), None, false);
    let occ = expand(&m, &[], utc(2026, 9, 14, 0, 0), utc(2026, 9, 15, 0, 0)).unwrap();
    assert_eq!(occ.len(), 1);
}

#[test]
fn invalid_rrule_is_an_error() {
    let m = master(utc(2026, 9, 14, 9, 0), utc(2026, 9, 14, 10, 0), Some("FREQ=SOMETIMES"), None, false);
    assert!(expand(&m, &[], utc(2026, 9, 1, 0, 0), utc(2026, 10, 1, 0, 0)).is_err());
}

#[test]
fn unknown_zone_is_an_error() {
    let m = master(utc(2026, 9, 14, 9, 0), utc(2026, 9, 14, 10, 0), Some("FREQ=DAILY;COUNT=2"), Some("Mars/Olympus"), false);
    let e = expand(&m, &[], utc(2026, 9, 1, 0, 0), utc(2026, 10, 1, 0, 0)).unwrap_err();
    assert_eq!(e, "unknown zone Mars/Olympus");
}

#[test]
fn endless_rule_is_capped() {
    let m = master(utc(2026, 1, 1, 0, 0), utc(2026, 1, 1, 0, 1), Some("FREQ=MINUTELY"), None, false);
    let occ = expand(&m, &[], utc(2026, 1, 1, 0, 0), utc(2026, 12, 1, 0, 0)).unwrap();
    assert_eq!(occ.len(), MAX_OCCURRENCES as usize);
}

#[test]
fn rdates_are_honoured_without_a_rule_and_exdates_remove_them() {
    let mut m = master(utc(2026, 9, 14, 9, 0), utc(2026, 9, 14, 10, 0), None, None, false);
    m.rdates = vec![utc(2026, 9, 16, 9, 0), utc(2026, 9, 15, 9, 0), utc(2026, 9, 15, 9, 0)];
    m.exdates = vec![utc(2026, 9, 16, 9, 0)];
    let occ = expand(&m, &[], utc(2026, 9, 1, 0, 0), utc(2026, 10, 1, 0, 0)).unwrap();
    let starts: Vec<_> = occ.iter().map(|o| o.start_at).collect();
    assert_eq!(starts, vec![utc(2026, 9, 14, 9, 0), utc(2026, 9, 15, 9, 0)]);
}

#[test]
fn finishing_sorts_dedups_and_windows() {
    let out = finish_occurrences(&[30, 10, 20, 10, 100], &[20], 5, false, 0, 50);
    assert_eq!(
        out,
        vec![Occurrence { start_at: 10, end_at: 15, all_day: false }, Occurrence { start_at: 30, end_at: 35, all_day: false }]
    );
}

#[test]
fn rdates_without_a_rule_are_capped_at_the_earliest() {
    let start = utc(2026, 1, 1, 0, 0);
    let mut m = master(start, start + 1800, None, None, false);
    m.rdates = (1..=2500i64).rev().map(|k| start + k * 3600).collect();
    let occ = expand(&m, &[], utc(2025, 1, 1, 0, 0), utc(2027, 1, 1, 0, 0)).unwrap();
    assert_eq!(occ.len(), MAX_OCCURRENCES as usize);
    assert_eq!(occ[0].start_at, start);
    assert_eq!(occ[1999].start_at, start + 1999 * 3600);
}

#[test]
fn refused_rules_are_named_in_the_error() {
    let m = master(utc(2026, 9, 14, 9, 0), utc(2026, 9, 14, 10, 0), Some("FREQ=WEEKLY;UNTIL=20261014T090000"), None, false);
    let err = expand(&m, &[], utc(2026, 9, 1, 0, 0), utc(2026, 12, 1, 0, 0)).unwrap_err();
    assert!(err.starts_with("invalid RRULE 'FREQ=WEEKLY;UNTIL=20261014T090000': "), "{err}");
}
