use opentempus::models::SyncStatus;
use opentempus::sync::scheduler::{claim_limit, tick_secs};
use chrono::TimeZone;
use opentempus::ics::parse::{parse_ics, ParseOptions, ParsedEvent};
use opentempus::models::{MirroredEvent, SourceKind};
use opentempus::sharing::SharedEvent;
use opentempus::sync::caldav::{calendars_in_reply, ctag_in_reply, objects_in_reply, propfind_href, validate_config, CalDavConfig};
use opentempus::sync::caldav_source::CalDavConnector;
use opentempus::sync::connector::{connector_for, Connector};
use opentempus::sync::ics_url::{check_feed_size, reply_step, IcsUrlConfig, IcsUrlConnector, MAX_BYTES};
use opentempus::sync::push::{desired_objects, plan_push, push_actions, push_stats, DesiredObject, PushAction};
use opentempus::sync::scheduler::{owner_emails, run_record, sync_delay, sync_summary, zone_or_utc};
use opentempus::sync::store::{instance_id, plan_store, stale_events, store_stats, store_window};

fn at(y: i32, mo: u32, d: u32, h: u32) -> i64 {
    chrono::Utc.with_ymd_and_hms(y, mo, d, h, 0, 0).unwrap().timestamp()
}

fn parsed(ics: &str) -> Vec<ParsedEvent> {
    parse_ics(ics, &ParseOptions { owner_emails: vec![], default_tz: "UTC".into() }).unwrap().events
}

const FEED: &str = "BEGIN:VCALENDAR\r\n\
BEGIN:VEVENT\r\nUID:r\r\nDTSTART:20260914T090000Z\r\nDTEND:20260914T100000Z\r\nRRULE:FREQ=DAILY;COUNT=3\r\nSEQUENCE:1\r\nEND:VEVENT\r\n\
BEGIN:VEVENT\r\nUID:r\r\nDTSTART:20260914T090000Z\r\nDTEND:20260914T100000Z\r\nRRULE:FREQ=DAILY;COUNT=3\r\nSEQUENCE:2\r\nSUMMARY:newer\r\nEND:VEVENT\r\n\
BEGIN:VEVENT\r\nUID:r\r\nRECURRENCE-ID:20260915T090000Z\r\nDTSTART:20260915T120000Z\r\nDTEND:20260915T130000Z\r\nEND:VEVENT\r\n\
BEGIN:VEVENT\r\nUID:single\r\nDTSTART:20260920T090000Z\r\nDTEND:20260920T100000Z\r\nEND:VEVENT\r\n\
END:VCALENDAR\r\n";

#[test]
fn store_plan_keeps_newest_master_and_skips_overridden_occurrences() {
    let plan = plan_store(parsed(FEED), at(2026, 9, 1, 0), at(2026, 10, 1, 0));
    assert_eq!(plan.groups.len(), 2);
    let r = plan.groups.iter().find(|g| g.uid == "r").unwrap();
    assert_eq!(r.master.as_ref().unwrap().summary.as_deref(), Some("newer"));
    assert_eq!(r.overrides.len(), 1);
    assert_eq!(r.override_instances, vec![true]);
    let starts: Vec<i64> = r.occurrences.iter().map(|o| o.start_at).collect();
    assert_eq!(starts, vec![at(2026, 9, 14, 9), at(2026, 9, 16, 9)]);
    let stats = store_stats(&plan, &vec![]);
    assert_eq!(stats.events, 3);
    assert_eq!(stats.instances, 4);
    assert!(stats.warnings.is_empty());
}

#[test]
fn stale_events_are_those_no_longer_in_the_feed() {
    let plan = plan_store(parsed(FEED), at(2026, 9, 1, 0), at(2026, 10, 1, 0));
    let existing = vec![
        (1u128, "r".to_string(), None),
        (2u128, "r".to_string(), Some(at(2026, 9, 15, 9))),
        (3u128, "gone".to_string(), None),
        (4u128, "r".to_string(), Some(at(2026, 9, 16, 9))),
    ];
    let stale = stale_events(&existing, &plan);
    assert_eq!(stale, vec![3, 4]);
    assert_eq!(store_stats(&plan, &stale).removed, 2);
}

#[test]
fn bad_rules_become_warnings() {
    let ics = "BEGIN:VCALENDAR\r\nBEGIN:VEVENT\r\nUID:bad\r\nDTSTART:20260914T090000Z\r\nRRULE:FREQ=NEVER\r\nEND:VEVENT\r\nEND:VCALENDAR\r\n";
    let plan = plan_store(parsed(ics), at(2026, 9, 1, 0), at(2026, 10, 1, 0));
    let w = plan.groups[0].warning.clone().unwrap();
    assert!(w.starts_with("bad: invalid RRULE 'FREQ=NEVER': "));
}

#[test]
fn store_window_spans_the_horizon() {
    let now = at(2026, 9, 14, 12);
    assert_eq!(store_window(now, -5, 0), (now, now + 86400));
    assert_eq!(store_window(now, 30, 365), (now - 30 * 86400, now + 365 * 86400));
}

#[test]
fn instance_ids_are_stable_and_distinct() {
    let a = instance_id(42, at(2026, 9, 14, 9));
    assert_eq!(a, instance_id(42, at(2026, 9, 14, 9)));
    assert_ne!(a, instance_id(42, at(2026, 9, 15, 9)));
    assert_ne!(a, instance_id(43, at(2026, 9, 14, 9)));
    let expected = uuid::Uuid::new_v5(&uuid::Uuid::from_u128(42), "2026-09-14T09:00:00+00:00".as_bytes()).as_u128();
    assert_eq!(a, expected);
}

fn shared(id: u128, start: i64) -> SharedEvent {
    SharedEvent {
        id,
        start,
        end: start + 3600,
        all_day: false,
        busy: true,
        title: None,
        description: None,
        location: None,
        category: None,
        origin_calendar: None,
        rsvp: None,
    }
}

#[test]
fn push_plan_writes_only_what_changed() {
    let events = vec![shared(1, at(2026, 9, 14, 9)), shared(2, at(2026, 9, 15, 9)), shared(3, at(2026, 9, 16, 9))];
    let desired = desired_objects(&events, "Busy", "cal.test");
    assert_eq!(desired.len(), 3);
    assert_eq!(desired[0].hash.len(), 64);
    let recorded = vec![
        MirroredEvent { instance_id: 1, remote_href: "h1".into(), content_hash: desired[0].hash.clone() },
        MirroredEvent { instance_id: 2, remote_href: "h2".into(), content_hash: "old".into() },
        MirroredEvent { instance_id: 9, remote_href: "h9".into(), content_hash: "x".into() },
    ];
    let plan = plan_push(&desired, &recorded);
    assert_eq!(plan.deletes.len(), 1);
    assert_eq!(plan.deletes[0].remote_href, "h9");
    assert_eq!(plan.unchanged, 1);
    assert_eq!(plan.upserts.len(), 2);
    assert_eq!(plan.upserts[0].href.as_deref(), Some("h2"));
    assert_eq!(plan.upserts[1].href, None);
    let stats = push_stats(&plan);
    assert_eq!((stats.created, stats.updated, stats.deleted, stats.unchanged), (1, 1, 1, 1));
    assert_eq!(stats.summary(), "1 created, 1 updated, 1 deleted, 1 unchanged");
}

#[test]
fn push_converges_when_records_match() {
    let events = vec![shared(1, at(2026, 9, 14, 9))];
    let desired = desired_objects(&events, "Busy", "h");
    let recorded = vec![MirroredEvent { instance_id: 1, remote_href: "a".into(), content_hash: desired[0].hash.clone() }];
    let plan = plan_push(&desired, &recorded);
    assert!(plan.deletes.is_empty() && plan.upserts.is_empty());
    assert_eq!(plan.unchanged, 1);
}

#[test]
fn later_event_with_same_id_replaces_earlier() {
    let mut second = shared(1, at(2026, 9, 14, 9));
    second.title = Some("later".into());
    let desired: Vec<DesiredObject> = desired_objects(&[shared(1, at(2026, 9, 14, 9)), second], "Busy", "h");
    assert_eq!(desired.len(), 1);
    assert!(desired[0].body.contains("SUMMARY:later"));
}

fn cfg(url: &str, cal: Option<&str>) -> CalDavConfig {
    CalDavConfig { url: url.into(), username: "me".into(), password: "pw".into(), calendar_url: cal.map(String::from) }
}

#[test]
fn calendar_urls_end_in_a_slash_and_hold_event_resources() {
    assert_eq!(cfg("https://dav.example.com/cal/home", None).calendar().unwrap(), "https://dav.example.com/cal/home/");
    let c = cfg("https://dav.example.com/", Some("https://dav.example.com/cals/work/"));
    assert_eq!(c.calendar().unwrap(), "https://dav.example.com/cals/work/");
    assert_eq!(c.event_href("ot-x@h").unwrap(), "https://dav.example.com/cals/work/ot-x@h.ics");
    assert!(cfg("not a url", None).calendar().unwrap_err().starts_with("invalid calendar url: "));
}

#[test]
fn caldav_configs_are_checked() {
    let ok = validate_config(cfg("  https://dav.example.com/  ", None)).unwrap();
    assert_eq!(ok.url, "https://dav.example.com/");
    assert_eq!(validate_config(cfg("ftp://x.example.com/", None)).unwrap_err(), "url must use http or https");
    let mut blank = cfg("https://dav.example.com/", None);
    blank.username = "  ".into();
    assert_eq!(validate_config(blank).unwrap_err(), "username is required");
    assert_eq!(
        CalDavConnector.validate_config(cfg("https://dav.example.com/", None)).unwrap_err(),
        "pick a calendar first (calendar_url is missing)"
    );
    assert!(CalDavConnector.validate_config(cfg("https://dav.example.com/", Some("https://dav.example.com/c/"))).is_ok());
}

const PROPFIND: &str = r#"<?xml version="1.0"?>
<d:multistatus xmlns:d="DAV:" xmlns:c="urn:ietf:params:xml:ns:caldav" xmlns:cs="http://calendarserver.org/ns/">
  <d:response><d:href>/cals/</d:href><d:propstat><d:prop><d:resourcetype><d:collection/></d:resourcetype></d:prop></d:propstat></d:response>
  <d:response><d:href> /cals/work/ </d:href><d:propstat><d:prop>
    <d:resourcetype><d:collection/><c:calendar/></d:resourcetype><d:displayname> Work </d:displayname>
    <c:supported-calendar-component-set><c:comp name="VEVENT"/></c:supported-calendar-component-set></d:prop></d:propstat></d:response>
  <d:response><d:href>/cals/tasks/</d:href><d:propstat><d:prop>
    <d:resourcetype><d:collection/><c:calendar/></d:resourcetype><d:displayname>Tasks</d:displayname>
    <c:supported-calendar-component-set><c:comp name="VTODO"/></c:supported-calendar-component-set></d:prop></d:propstat></d:response>
  <d:response><d:href>/cals/family/</d:href><d:propstat><d:prop>
    <d:resourcetype><d:collection/><c:calendar/></d:resourcetype></d:prop></d:propstat></d:response>
</d:multistatus>"#;

#[test]
fn propfind_replies_list_event_calendars() {
    let cals = calendars_in_reply("https://dav.example.com/cals/", PROPFIND).unwrap();
    assert_eq!(cals.len(), 2);
    assert_eq!(cals[0].url, "https://dav.example.com/cals/work/");
    assert_eq!(cals[0].name, "Work");
    assert_eq!(cals[1].name, "family");
    assert!(calendars_in_reply("https://dav.example.com/", "<oops").unwrap_err().starts_with("bad XML from server: "));
}

#[test]
fn ctags_hrefs_and_objects_are_read() {
    let ctag = r#"<d:multistatus xmlns:d="DAV:" xmlns:cs="http://calendarserver.org/ns/"><d:response><d:propstat><d:prop><cs:getctag> abc </cs:getctag><d:sync-token>tok</d:sync-token></d:prop></d:propstat></d:response></d:multistatus>"#;
    assert_eq!(ctag_in_reply(ctag).unwrap().as_deref(), Some("abc"));
    let token_only = r#"<d:multistatus xmlns:d="DAV:"><d:sync-token>tok</d:sync-token></d:multistatus>"#;
    assert_eq!(ctag_in_reply(token_only).unwrap().as_deref(), Some("tok"));
    let principal = r#"<d:multistatus xmlns:d="DAV:"><d:response><d:propstat><d:prop><d:current-user-principal><d:href>/p/me/</d:href></d:current-user-principal></d:prop></d:propstat></d:response></d:multistatus>"#;
    assert_eq!(propfind_href(true, principal, "current-user-principal").as_deref(), Some("/p/me/"));
    assert_eq!(propfind_href(false, principal, "current-user-principal"), None);
    let report = r#"<d:multistatus xmlns:d="DAV:" xmlns:c="urn:ietf:params:xml:ns:caldav"><d:response><d:href>/c/1.ics</d:href><d:propstat><d:prop><c:calendar-data>BEGIN:VCALENDAR</c:calendar-data></d:prop></d:propstat></d:response><d:response><d:href>/c/2.ics</d:href></d:response></d:multistatus>"#;
    let objs = objects_in_reply(report).unwrap();
    assert_eq!(objs, vec![("/c/1.ics".to_string(), "BEGIN:VCALENDAR".to_string())]);
}

#[test]
fn caldav_objects_join_into_one_calendar_text() {
    let objs = vec![("a".to_string(), " BEGIN:VCALENDAR\r\nEND:VCALENDAR \r\n".to_string())];
    assert_eq!(CalDavConnector::calendar_text(&objs), "BEGIN:VCALENDAR\r\nEND:VCALENDAR\r\n");
    assert_eq!(CalDavConnector::calendar_text(&vec![]), "BEGIN:VCALENDAR\r\nVERSION:2.0\r\nEND:VCALENDAR\r\n");
    assert!(CalDavConnector::not_modified(&Some("x".into()), &Some("x".into())));
    assert!(!CalDavConnector::not_modified(&None, &None));
}

#[test]
fn feed_configs_are_normalized() {
    let c = IcsUrlConnector
        .validate_config(IcsUrlConfig { url: " webcal://example.com/cal.ics ".into(), username: Some(String::new()), password: Some("p".into()) })
        .unwrap();
    assert_eq!(c.url, "https://example.com/cal.ics");
    assert_eq!(c.username, None);
    assert_eq!(c.password.as_deref(), Some("p"));
    let bad = IcsUrlConnector.validate_config(IcsUrlConfig { url: "mailto:x@example.com".into(), username: None, password: None });
    assert_eq!(bad.unwrap_err(), "url must use http or https");
    assert!(IcsUrlConnector.validate_config(IcsUrlConfig { url: "::".into(), username: None, password: None }).unwrap_err().starts_with("invalid url: "));
}

#[test]
fn feed_size_is_capped() {
    assert!(check_feed_size(MAX_BYTES).is_ok());
    assert_eq!(check_feed_size(MAX_BYTES + 1).unwrap_err(), "feed too large (26214401 bytes)");
}

#[test]
fn connectors_exist_for_url_and_caldav_only() {
    assert_eq!(connector_for(SourceKind::IcsUrl).unwrap(), Connector::IcsUrl);
    assert_eq!(connector_for(SourceKind::Caldav).unwrap(), Connector::Caldav);
    assert_eq!(connector_for(SourceKind::Google).unwrap_err(), "connector Google is not implemented yet; see ROADMAP.md");
}

#[test]
fn scheduling_backs_off_after_errors() {
    assert_eq!(sync_delay(10, false), 60);
    assert_eq!(sync_delay(900, false), 900);
    assert_eq!(sync_delay(60, true), 300);
    assert_eq!(sync_delay(900, true), 900);
    assert_eq!(sync_summary(3, 10, 1, 2), "3 events, 10 occurrences, 1 removed, 2 skipped");
    assert_eq!(owner_emails("Me@Example.com", &vec!["Other@X.org".into()]), vec!["me@example.com", "other@x.org"]);
    assert_eq!(zone_or_utc("Europe/Amsterdam"), "Europe/Amsterdam");
    assert_eq!(zone_or_utc("Nowhere"), "UTC");
}

#[test]
fn scheduler_limits_have_floors() {
    assert_eq!(claim_limit(0), 1);
    assert_eq!(claim_limit(4), 4);
    assert_eq!(tick_secs(1), 5);
    assert_eq!(tick_secs(30), 30);
}

#[test]
fn finished_runs_are_recorded() {
        let ok = run_record(Ok("3 events".into()), 900, true);
    assert_eq!(ok.status, SyncStatus::Succeeded);
    assert_eq!(ok.error, None);
    assert_eq!(ok.next_in_secs, 900);
    assert!(ok.succeeded && ok.push_targets);
    let failed = run_record(Err("remote returned HTTP 404 Not Found".into()), 60, true);
    assert_eq!(failed.status, SyncStatus::Error);
    assert_eq!(failed.error.as_deref(), Some("remote returned HTTP 404 Not Found"));
    assert_eq!(failed.next_in_secs, 300);
    assert!(!failed.succeeded && !failed.push_targets);
    let pushed = run_record(Ok("1 created".into()), 900, false);
    assert!(!pushed.push_targets);
}

#[test]
fn feed_replies_are_read_skipped_or_refused() {
    assert_eq!(reply_step(304, "304 Not Modified"), Ok(false));
    assert_eq!(reply_step(200, "200 OK"), Ok(true));
    assert_eq!(reply_step(404, "404 Not Found"), Err("remote returned HTTP 404 Not Found".to_string()));
}

#[test]
fn pushes_delete_before_they_write() {
    let desired = desired_objects(&[shared(1, 1_000_000), shared(2, 2_000_000)], "Busy", "h");
    let recorded = vec![MirroredEvent { instance_id: 9, remote_href: "https://x/9.ics".into(), content_hash: "old".into() }];
    let plan = plan_push(&desired, &recorded);
    let actions = push_actions(&plan);
    assert_eq!(actions.len(), 3);
    assert!(matches!(&actions[0], PushAction::Delete { instance_id: 9, href } if href == "https://x/9.ics"));
    assert!(matches!(&actions[1], PushAction::Put { id: 1, href: None, .. }));
    assert!(matches!(&actions[2], PushAction::Put { id: 2, href: None, .. }));
}

#[test]
fn a_second_push_writes_nothing() {
    let desired = desired_objects(&[shared(1, 1_000_000), shared(2, 2_000_000)], "Busy", "h");
    let recorded = vec![
        MirroredEvent { instance_id: 9, remote_href: "https://x/9.ics".into(), content_hash: "old".into() },
        MirroredEvent { instance_id: 2, remote_href: "https://x/2.ics".into(), content_hash: "stale".into() },
    ];
    let plan = plan_push(&desired, &recorded);
    let first = push_stats(&plan);
    assert_eq!((first.created, first.updated, first.deleted, first.unchanged), (1, 1, 1, 0));
    // What the records hold once every request succeeded.
    let after: Vec<MirroredEvent> = plan
        .upserts
        .iter()
        .map(|u| MirroredEvent {
            instance_id: u.id,
            remote_href: u.href.clone().unwrap_or_else(|| format!("https://x/{}.ics", u.id)),
            content_hash: u.hash.clone(),
        })
        .collect();
    let again = push_stats(&plan_push(&desired, &after));
    assert_eq!((again.created, again.updated, again.deleted, again.unchanged), (0, 0, 0, 2));
}
