use chrono::TimeZone;
use opentempus::models::{EventStatus, Rsvp, Transparency};
use opentempus::sharing::{free_slots, included, project, project_all, Filters, FreeSlot, OwnerEvent, Visibility};

fn at(y: i32, mo: u32, d: u32, h: u32, mi: u32) -> i64 {
    chrono::Utc.with_ymd_and_hms(y, mo, d, h, mi, 0).unwrap().timestamp()
}

fn ev(rsvp: Rsvp, transparency: Transparency) -> OwnerEvent {
    OwnerEvent {
        instance_id: 1,
        event_id: 2,
        source_id: 0,
        source_name: "Work".into(),
        source_category: "work".into(),
        uid: "abc".into(),
        start_at: at(2026, 9, 14, 9, 0),
        end_at: at(2026, 9, 14, 10, 0),
        all_day: false,
        summary: Some("Standup".into()),
        description: Some("Daily".into()),
        location: Some("Room 1".into()),
        status: EventStatus::Confirmed,
        transparency,
        rsvp,
    }
}

#[test]
fn busy_only_hides_everything() {
    let e = ev(Rsvp::Accepted, Transparency::Opaque);
    let p = project(&Visibility::busy_only(), &e);
    assert!(p.busy);
    assert_eq!(p.title, None);
    assert_eq!(p.location, None);
    assert_eq!(p.category, None);
    assert_eq!(p.origin_calendar, None);
    assert_eq!(p.rsvp, None);
}

#[test]
fn category_preset_shows_category_and_origin_only() {
    let e = ev(Rsvp::Accepted, Transparency::Opaque);
    let p = project(&Visibility::category(), &e);
    assert_eq!(p.category.as_deref(), Some("work"));
    assert_eq!(p.origin_calendar.as_deref(), Some("Work"));
    assert_eq!(p.title, None);
}

#[test]
fn full_preset_shows_everything() {
    let e = ev(Rsvp::Tentative, Transparency::Opaque);
    let p = project(&Visibility::full(), &e);
    assert_eq!(p.title.as_deref(), Some("Standup"));
    assert_eq!(p.description.as_deref(), Some("Daily"));
    assert_eq!(p.rsvp, Some(Rsvp::Tentative));
}

#[test]
fn declined_events_are_excluded_by_default() {
    let f = Filters::default();
    assert!(!included(&f, &ev(Rsvp::Declined, Transparency::Opaque)));
    assert!(included(&f, &ev(Rsvp::Accepted, Transparency::Opaque)));
}

#[test]
fn transparent_events_excluded_unless_requested() {
    let mut f = Filters::default();
    assert!(!included(&f, &ev(Rsvp::Accepted, Transparency::Transparent)));
    f.include_free = true;
    assert!(included(&f, &ev(Rsvp::Accepted, Transparency::Transparent)));
}

#[test]
fn category_filter_is_case_insensitive() {
    let f = Filters { categories: Some(vec!["WORK".into()]), ..Default::default() };
    assert!(included(&f, &ev(Rsvp::Accepted, Transparency::Opaque)));
    let f = Filters { categories: Some(vec!["personal".into()]), ..Default::default() };
    assert!(!included(&f, &ev(Rsvp::Accepted, Transparency::Opaque)));
}

#[test]
fn free_slots_merge_overlaps_and_respect_min_duration() {
    let t = |h: u32, m: u32| at(2026, 9, 14, h, m);
    let busy = vec![(t(9, 0), t(10, 0)), (t(9, 30), t(11, 0)), (t(13, 0), t(13, 20))];
    let slots = free_slots(t(8, 0), t(18, 0), &busy, 30 * 60);
    assert_eq!(
        slots,
        vec![
            FreeSlot { start: t(8, 0), end: t(9, 0), duration_minutes: 60 },
            FreeSlot { start: t(11, 0), end: t(13, 0), duration_minutes: 120 },
            FreeSlot { start: t(13, 20), end: t(18, 0), duration_minutes: 280 },
        ]
    );
}

#[test]
fn free_slots_with_nothing_busy_is_whole_window() {
    let t = |h: u32| at(2026, 9, 14, h, 0);
    let slots = free_slots(t(8), t(9), &[], 15 * 60);
    assert_eq!(slots.len(), 1);
    assert_eq!(slots[0].duration_minutes, 60);
}

#[test]
fn clamp_window_respects_horizon() {
    let f = Filters { horizon_past_days: 1, horizon_future_days: 2, ..Default::default() };
    let now = at(2026, 9, 14, 12, 0);
    let day = 86400;
    let (a, b) = f.clamp_window(now - 10 * day, now + 10 * day, now);
    assert_eq!(a, now - day);
    assert_eq!(b, now + 2 * day);
}

#[test]
fn presets_are_nested_from_busy_only_to_full() {
    let b = Visibility::busy_only();
    let c = Visibility::category();
    let d = Visibility::details();
    let f = Visibility::full();
    assert!(!b.title && !b.category && !b.description);
    assert!(c.category && c.origin_calendar && !c.title);
    assert!(d.title && d.location && d.rsvp && d.free_busy && !d.description);
    assert!(f.description && f.title);
    assert_eq!(Visibility::preset("details"), Some(d));
    assert_eq!(Visibility::preset("nope"), None);
    assert_eq!(Visibility::default(), b);
}

#[test]
fn project_all_selects_and_orders_by_start() {
    let mut late = ev(Rsvp::Accepted, Transparency::Opaque);
    late.start_at = at(2026, 9, 15, 9, 0);
    late.end_at = at(2026, 9, 15, 10, 0);
    late.instance_id = 10;
    let mut early = ev(Rsvp::Accepted, Transparency::Opaque);
    early.instance_id = 11;
    let declined = ev(Rsvp::Declined, Transparency::Opaque);
    let out = project_all(&Visibility::busy_only(), &Filters::default(), &[late, declined, early]);
    assert_eq!(out.len(), 2);
    assert_eq!(out[0].id, 11);
    assert_eq!(out[1].id, 10);
}

#[test]
fn free_slots_of_a_fully_busy_window_are_none() {
    let t = |h: u32| at(2026, 9, 14, h, 0);
    let slots = free_slots(t(8), t(12), &[(t(7), t(13))], 60);
    assert!(slots.is_empty());
}

#[test]
fn free_slots_never_overlap_busy_time() {
    let t = |h: u32, m: u32| at(2026, 9, 14, h, m);
    let busy = vec![(t(10, 0), t(10, 45)), (t(12, 0), t(12, 30))];
    let slots = free_slots(t(9, 0), t(14, 0), &busy, 60);
    for s in &slots {
        for (b0, b1) in &busy {
            assert!(s.end <= *b0 || s.start >= *b1);
        }
    }
    assert_eq!(slots.len(), 3);
}
