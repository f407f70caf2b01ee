use opentempus::models::TargetKind;
use opentempus::routes::targets::{merge_password, push_interval, validate_target_config};
use opentempus::sync::caldav::CalDavConfig;
use opentempus::routes::shares::{evaluation_window, share_links};
use opentempus::auth::session_expiry;
use opentempus::config::{database_url, listen_address, settings, EnvValues};
use opentempus::auth::{cookie_max_age, hash_password, hash_token, random_token, session_token, verify_password};
use opentempus::config::{flag_value, public_base, secure_by_default};
use opentempus::error::AppError;
use opentempus::routes::auth::{check_registration, normalize_email, updated_profile, validate_timezone, RegisterBody, UpdateMeBody};
use opentempus::routes::friends::{friend_request_step, request_status, RequestStep};
use opentempus::routes::public::{
    answer_free, check_participants, default_min_minutes, feed_calendar_name, feed_token, intersect_windows, public_host, public_info,
};
use opentempus::routes::shares::{check_horizon, presets, required_name, resolve_visibility, update_name};
use opentempus::routes::sources::{clean_category, clean_color, default_settings, kept_password, masked_config, source_settings};
use opentempus::routes::WindowQuery;
use opentempus::sharing::{Filters, Visibility};

fn bad(r: AppError) -> String {
    match r {
        AppError::BadRequest(m) => m,
        other => panic!("not a bad request: {other:?}"),
    }
}

#[test]
fn visibility_resolution_prefers_explicit_then_preset_then_busy_only() {
    assert_eq!(resolve_visibility(None, None).unwrap(), Visibility::busy_only());
    assert_eq!(resolve_visibility(Some("full".into()), None).unwrap(), Visibility::full());
    assert_eq!(resolve_visibility(Some("full".into()), Some(Visibility::category())).unwrap(), Visibility::category());
    assert_eq!(bad(resolve_visibility(Some("everything".into()), None).unwrap_err()), "unknown preset");
}

#[test]
fn presets_are_listed_in_order() {
    let ids: Vec<&str> = presets().iter().map(|p| p.id).collect();
    assert_eq!(ids, vec!["busy_only", "category", "details", "full"]);
    assert_eq!(presets()[1].visibility, Visibility::category());
}

#[test]
fn horizons_and_names_are_checked() {
    assert!(check_horizon(&Filters::default()).is_ok());
    let f = Filters { horizon_future_days: 0, ..Default::default() };
    assert_eq!(bad(check_horizon(&f).unwrap_err()), "horizon out of range");
    let f = Filters { horizon_past_days: 3651, ..Default::default() };
    assert!(check_horizon(&f).is_err());
    assert_eq!(required_name("  Team  ").unwrap(), "Team");
    assert_eq!(bad(required_name("   ").unwrap_err()), "name is required");
    assert_eq!(update_name(Some("  ".into()), "Old".into()), "Old");
    assert_eq!(update_name(Some(" New ".into()), "Old".into()), "New");
}

#[test]
fn windows_default_to_two_weeks_and_are_bounded() {
    let now = 1_800_000_000;
    assert_eq!(WindowQuery { from: None, to: None }.resolve(now).unwrap(), (now, now + 14 * 86400));
    assert_eq!(bad(WindowQuery { from: Some(now), to: Some(now) }.resolve(now).unwrap_err()), "'to' must be after 'from'");
    assert_eq!(
        bad(WindowQuery { from: Some(now), to: Some(now + 401 * 86400) }.resolve(now).unwrap_err()),
        "window may not exceed 400 days"
    );
    assert!(WindowQuery { from: Some(now), to: Some(now + 400 * 86400) }.resolve(now).is_ok());
}

#[test]
fn categories_and_colors_are_cleaned() {
    assert_eq!(clean_category(None), "personal");
    assert_eq!(clean_category(Some("  Work ".into())), "work");
    assert_eq!(clean_color(None).unwrap(), None);
    assert_eq!(clean_color(Some(" #A0b1C2 ".into())).unwrap().as_deref(), Some("#A0b1C2"));
    assert_eq!(bad(clean_color(Some("#12345g".into())).unwrap_err()), "color must look like #rrggbb");
    assert!(clean_color(Some("123456".into())).is_err());
}

#[test]
fn source_settings_fall_back_and_are_clamped() {
    let d = default_settings();
    let s = source_settings(None, None, None, d);
    assert_eq!((s.sync_interval_secs, s.horizon_past_days, s.horizon_future_days), (900, 30, 365));
    let s = source_settings(Some(5), Some(-3), Some(99999), d);
    assert_eq!((s.sync_interval_secs, s.horizon_past_days, s.horizon_future_days), (60, 0, 3650));
}

#[test]
fn passwords_are_masked_and_kept() {
    let shown = masked_config(vec![("url".to_string(), 1), ("password".to_string(), 2), ("username".to_string(), 3)]);
    assert_eq!(shown, vec![("url".to_string(), Some(1)), ("password".to_string(), None), ("username".to_string(), Some(3))]);
    assert_eq!(kept_password(Some("••••••".into()), Some("secret".into())).as_deref(), Some("secret"));
    assert_eq!(kept_password(Some("new".into()), Some("secret".into())).as_deref(), Some("new"));
}

fn reg(email: &str, password: &str, name: &str, tz: Option<&str>) -> RegisterBody {
    RegisterBody { email: email.into(), password: password.into(), display_name: name.into(), timezone: tz.map(String::from) }
}

#[test]
fn registrations_are_checked_in_order() {
    let a = check_registration(true, &reg(" Me@Example.COM ", "longenough", " Me ", None)).unwrap();
    assert_eq!((a.email.as_str(), a.display_name.as_str(), a.timezone.as_str()), ("me@example.com", "Me", "UTC"));
    assert!(matches!(check_registration(false, &reg("a@b", "longenough", "x", None)), Err(AppError::Forbidden(_))));
    assert_eq!(bad(check_registration(true, &reg("nobody", "longenough", "x", None)).unwrap_err()), "invalid email");
    assert_eq!(bad(check_registration(true, &reg("a@b", "short", "x", None)).unwrap_err()), "password must be at least 8 characters");
    assert_eq!(bad(check_registration(true, &reg("a@b", "longenough", " ", None)).unwrap_err()), "display name is required");
    assert_eq!(bad(check_registration(true, &reg("a@b", "longenough", "x", Some("Mars/Base"))).unwrap_err()), "unknown timezone");
    assert_eq!(normalize_email(" X@Y.Z "), "x@y.z");
    assert_eq!(validate_timezone("Europe/Amsterdam").unwrap(), "Europe/Amsterdam");
}

#[test]
fn profiles_keep_what_is_not_updated() {
    let body = UpdateMeBody { display_name: Some("  ".into()), timezone: None };
    assert_eq!(updated_profile("Me".into(), "UTC".into(), &body).unwrap(), ("Me".to_string(), "UTC".to_string()));
    let body = UpdateMeBody { display_name: Some("New".into()), timezone: Some("Asia/Tokyo".into()) };
    assert_eq!(updated_profile("Me".into(), "UTC".into(), &body).unwrap(), ("New".to_string(), "Asia/Tokyo".to_string()));
    let body = UpdateMeBody { display_name: None, timezone: Some("Nope".into()) };
    assert!(updated_profile("Me".into(), "UTC".into(), &body).is_err());
}

#[test]
fn friend_requests_do_not_reveal_accounts() {
    assert_eq!(friend_request_step(1, None, None).unwrap(), RequestStep::Nothing);
    assert_eq!(bad(friend_request_step(1, Some(1), None).unwrap_err()), "you cannot befriend yourself");
    let step = friend_request_step(1, Some(2), Some(opentempus::models::FriendshipStatus::Pending)).unwrap();
    assert_eq!(step, RequestStep::AcceptTheirs { mark_accepted: true });
    assert_eq!(request_status(step), "accepted");
    assert_eq!(request_status(RequestStep::Nothing), "pending");
    assert_eq!(friend_request_step(1, Some(2), None).unwrap(), RequestStep::Ask);
}

#[test]
fn public_endpoints_describe_and_answer() {
    let i = public_info("S".into(), "O".into(), Visibility::busy_only(), 7, 90, "https://cal.test", "tok");
    assert_eq!(i.feed_url, "https://cal.test/feeds/tok.ics");
    assert_eq!(i.events_url, "https://cal.test/api/v1/public/tok/events?from=<rfc3339>&to=<rfc3339>");
    assert_eq!(i.free_url, "https://cal.test/api/v1/public/tok/free?from=<rfc3339>&to=<rfc3339>&min_minutes=60");
    assert_eq!(default_min_minutes(), 30);
    assert_eq!(feed_token("abc.ics"), "abc");
    assert_eq!(feed_token("abc"), "abc");
    assert_eq!(feed_calendar_name("Robbert", "Work"), "Robbert · Work");
    assert_eq!(public_host("https://cal.example.com/x"), "cal.example.com");
    assert_eq!(public_host("not a url"), "opentempus");
    assert!(check_participants(0).is_err());
    assert!(check_participants(50).is_ok());
    assert!(check_participants(51).is_err());
}

#[test]
fn availability_intersects_windows() {
    assert_eq!(intersect_windows(0, 100, &vec![(10, 90), (20, 200)]), (20, 90));
    let (f, t, slots) = answer_free(50, 40, &[], 30);
    assert_eq!((f, t, slots.len()), (50, 50, 0));
    let (_, _, slots) = answer_free(0, 7200, &[(600, 1200)], 0);
    assert_eq!(slots.len(), 2);
    assert_eq!(slots[0].duration_minutes, 10);
}

#[test]
fn tokens_and_passwords() {
    let t = random_token(24);
    assert_eq!(t.len(), 32);
    assert!(t.chars().all(|c| c.is_ascii_alphanumeric() || c == '-' || c == '_'));
    assert_ne!(random_token(24), t);
    assert_eq!(hash_token("abc"), "ba7816bf8f01cfea414140de5dae2223b00361a396177a9cb410ff61f20015ad");
    let h = hash_password("correct horse").unwrap();
    assert!(verify_password("correct horse", &h));
    assert!(!verify_password("wrong", &h));
    assert!(!verify_password("x", "not a hash"));
}

#[test]
fn sessions_from_cookie_or_bearer() {
    assert_eq!(session_token(Some("c".into()), Some("Bearer b".into())).as_deref(), Some("c"));
    assert_eq!(session_token(None, Some("Bearer  b ".into())).as_deref(), Some("b"));
    assert_eq!(session_token(None, Some("Basic b".into())), None);
    assert_eq!(cookie_max_age(100, 40), 60);
    assert_eq!(cookie_max_age(10, 40), 0);
}

#[test]
fn configuration_values_are_read() {
    assert!(flag_value(Some(" YES "), false));
    assert!(!flag_value(Some("off"), true));
    assert!(flag_value(None, true));
    assert_eq!(public_base("https://cal.test//"), "https://cal.test");
    assert!(secure_by_default("https://cal.test"));
    assert!(!secure_by_default("http://cal.test"));
}

#[test]
fn target_configs_passwords_and_intervals() {
    let cfg = |cal: Option<&str>| CalDavConfig {
        url: "  https://dav.example.com/  ".into(),
        username: "me".into(),
        password: "secret".into(),
        calendar_url: cal.map(String::from),
    };
    let ok = validate_target_config(TargetKind::Caldav, cfg(Some("https://dav.example.com/cal/work/"))).unwrap();
    assert_eq!(ok.url, "https://dav.example.com/");
    assert_eq!(ok.calendar_url.as_deref(), Some("https://dav.example.com/cal/work/"));
    assert_eq!(
        bad(validate_target_config(TargetKind::Caldav, cfg(None)).unwrap_err()),
        "pick a calendar first (calendar_url is missing)"
    );
    assert_eq!(
        bad(validate_target_config(TargetKind::Google, cfg(None)).unwrap_err()),
        "Google targets are not implemented yet; see ROADMAP.md"
    );
    let mut no_user = cfg(Some("https://dav.example.com/cal/"));
    no_user.username = " ".into();
    assert_eq!(bad(validate_target_config(TargetKind::Caldav, no_user).unwrap_err()), "username is required");

    assert_eq!(merge_password(Some("••••••".into()), Some("old".into())), Some("old".into()));
    assert_eq!(merge_password(Some(String::new()), Some("old".into())), Some("old".into()));
    assert_eq!(merge_password(None, Some("old".into())), Some("old".into()));
    assert_eq!(merge_password(Some("new".into()), Some("old".into())), Some("new".into()));
    assert_eq!(merge_password(Some("••••••".into()), None), Some("••••••".into()));

    assert_eq!(push_interval(None, 900), 900);
    assert_eq!(push_interval(Some(5), 900), 60);
    assert_eq!(push_interval(Some(1_000_000), 900), 86_400);
    assert_eq!(push_interval(Some(600), 900), 600);
}

#[test]
fn share_links_and_evaluation_windows() {
    let (feed, api) = share_links("https://cal.example.com", "tok");
    assert_eq!(feed, "https://cal.example.com/feeds/tok.ics");
    assert_eq!(api, "https://cal.example.com/api/v1/public/tok");

    let f = Filters::default(); // 7 days back, 90 ahead
    let now = 1_000_000_000;
    assert_eq!(evaluation_window(&f, now - 30 * 86400, now + 86400, now), Some((now - 7 * 86400, now + 86400)));
    assert_eq!(evaluation_window(&f, now + 100 * 86400, now + 200 * 86400, now), None);
}

#[test]
fn sessions_expire_after_their_lifetime() {
    assert_eq!(session_expiry(1_000_000, 30), 1_000_000 + 30 * 86400);
    assert_eq!(session_expiry(1_000_000, 0), 1_000_000);
}

#[test]
fn settings_fall_back_to_their_defaults() {
    let empty = EnvValues {
        database_url: None,
        listen: None,
        public_url: None,
        allow_registration: None,
        sync_concurrency: None,
        scheduler_tick_secs: None,
        session_ttl_days: None,
        secure_cookies: None,
        web_dir: None,
    };
    assert_eq!(database_url(None).unwrap_err(), "DATABASE_URL must be set");
    assert_eq!(listen_address(None), "0.0.0.0:8080");
    let s = settings(&empty, 8080);
    assert_eq!(s.public_url, "http://localhost:8080");
    assert!(s.allow_registration);
    assert_eq!((s.sync_concurrency, s.scheduler_tick_secs, s.session_ttl_days), (4, 30, 30));
    assert!(!s.secure_cookies);
    assert_eq!(s.web_dir, "web/dist");
    let set = EnvValues {
        public_url: Some("https://cal.example.com//".into()),
        allow_registration: Some(" No ".into()),
        sync_concurrency: Some("+8".into()),
        scheduler_tick_secs: Some("-5".into()),
        session_ttl_days: Some("-2".into()),
        ..empty
    };
    let s = settings(&set, 8080);
    assert_eq!(s.public_url, "https://cal.example.com");
    assert!(!s.allow_registration);
    assert_eq!((s.sync_concurrency, s.scheduler_tick_secs, s.session_ttl_days), (8, 30, -2));
    assert!(s.secure_cookies);
}
