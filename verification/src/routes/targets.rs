//! Outbound sync targets: the queries and bodies of their endpoints.

use vstd::prelude::*;

use crate::error::{is_bad_request, AppError};
use crate::models::TargetKind;
use crate::routes::sources::{clamp_spec, PASSWORD_MASK};
use crate::sync::caldav::{checked_config, validate_config, CalDavConfig};
use crate::text::str_equals;
use crate::urls::TextOrMessage;

verus! {

/// Query of a target deletion.
#[derive(Debug, Clone, Copy)]
pub struct DeleteQuery {
    /// Also delete the mirrored events from the remote calendar (default true).
    pub clear_remote: bool,
}

/// Query of a manual push.
#[derive(Debug, Clone, Copy)]
pub struct PushQuery {
    pub wait: bool,
}

/// `true`, the default of the `clear_remote` and `wait` flags.
pub fn default_true() -> (b: bool)
    ensures
        b,
{
    true
}

/// A CalDAV account whose calendars to list.
#[derive(Debug, Clone)]
pub struct DiscoverBody {
    pub url: String,
    pub username: String,
    pub password: String,
}

/// Check the configuration of a target: only CalDAV targets exist yet, and
/// they must name a calendar.
pub fn validate_target_config(kind: TargetKind, config: CalDavConfig) -> (r: Result<CalDavConfig, AppError>)
    ensures
        kind == TargetKind::Caldav ==> (r matches Ok(c) <==> (checked_config(config) is Ok && config.calendar_url is Some)),
        kind == TargetKind::Caldav && r is Ok ==> r->Ok_0.calendar_url == config.calendar_url && checked_config(config)
            == TextOrMessage::Ok(r->Ok_0.url@),
        kind == TargetKind::Caldav && checked_config(config) is Err ==> (r matches Err(e) && is_bad_request(e, checked_config(config)->Err_0)),
        kind == TargetKind::Caldav && checked_config(config) is Ok && config.calendar_url is None ==> (r matches Err(e)
            && is_bad_request(e, "pick a calendar first (calendar_url is missing)"@)),
        kind == TargetKind::Google ==> (r matches Err(e) && is_bad_request(e, "Google targets are not implemented yet; see ROADMAP.md"@)),
        kind == TargetKind::Microsoft ==> (r matches Err(e) && is_bad_request(
            e,
            "Microsoft targets are not implemented yet; see ROADMAP.md"@,
        )),
{
    match kind {
        TargetKind::Caldav => {
            let has_calendar = config.calendar_url.is_some();
            let cfg = match validate_config(config) {
                Ok(c) => c,
                Err(e) => return Err(AppError::BadRequest(e)),
            };
            if !has_calendar {
                return Err(AppError::bad_request("pick a calendar first (calendar_url is missing)"));
            }
            Ok(cfg)
        },
        TargetKind::Google => Err(AppError::bad_request("Google targets are not implemented yet; see ROADMAP.md")),
        TargetKind::Microsoft => Err(AppError::bad_request("Microsoft targets are not implemented yet; see ROADMAP.md")),
    }
}

/// The password to store after a target update: a client that sends no
/// password, an empty one or the mask keeps the stored password.
pub open spec fn target_password_after_update(sent: Option<Seq<char>>, stored: Option<Seq<char>>) -> Option<Seq<char>> {
    let keep = match sent {
        Some(p) => p == PASSWORD_MASK@ || p.len() == 0,
        None => true,
    };
    if keep && stored is Some {
        stored
    } else {
        sent
    }
}

/// The password to store after a target update.
pub fn merge_password(sent: Option<String>, stored: Option<String>) -> (r: Option<String>)
    ensures
        r.deep_view() == target_password_after_update(sent.deep_view(), stored.deep_view()),
{
    let keep = match &sent {
        Some(p) => str_equals(p.as_str(), PASSWORD_MASK) || p.as_str().is_empty(),
        None => true,
    };
    if keep && stored.is_some() {
        stored
    } else {
        sent
    }
}

/// How often a target is pushed, in seconds: the requested interval (else
/// `default`) kept within a minute and a day.
pub fn push_interval(requested: Option<i32>, default: i32) -> (r: i32)
    ensures
        r == clamp_spec(
            match requested {
                Some(v) => v as int,
                None => default as int,
            },
            60,
            86400,
        ),
{
    let v = match requested {
        Some(v) => v,
        None => default,
    };
    if v < 60 { 60 } else if v > 86400 { 86400 } else { v }
}

} // verus!
