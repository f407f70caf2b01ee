//! Shares: presets, the visibility a request asks for, and the limits on
//! filters.

use vstd::prelude::*;

use crate::error::{is_bad_request, AppError};
use crate::sharing::{horizon_end, horizon_fits, horizon_start, max_i, min_i, spec_busy_only, spec_category, spec_details, spec_full, spec_preset, Filters, Visibility};
use crate::text::{trim, trim_seq};

verus! {

/// A named visibility the UI offers.
#[derive(Debug, Clone, Copy)]
pub struct Preset {
    pub id: &'static str,
    pub label: &'static str,
    pub description: &'static str,
    pub visibility: Visibility,
}

/// The presets, from least to most revealing: busy only, category,
/// details, full.
pub fn presets() -> (r: Vec<Preset>)
    ensures
        r@.len() == 4,
        r@[0].id@ == "busy_only"@ && r@[0].visibility == spec_busy_only(),
        r@[1].id@ == "category"@ && r@[1].visibility == spec_category(),
        r@[2].id@ == "details"@ && r@[2].visibility == spec_details(),
        r@[3].id@ == "full"@ && r@[3].visibility == spec_full(),
        forall|k: int| 0 <= k < 4 ==> spec_preset(#[trigger] r@[k].id@) == Some(r@[k].visibility),
{
    proof {
        reveal_strlit("busy_only");
        reveal_strlit("category");
        reveal_strlit("details");
        reveal_strlit("full");
    }
    let mut v: Vec<Preset> = Vec::new();
    v.push(Preset {
        id: "busy_only",
        label: "Busy only",
        description: "Only that time is blocked. No titles, no categories, nothing else.",
        visibility: Visibility::busy_only(),
    });
    v.push(Preset {
        id: "category",
        label: "Category",
        description: "Busy blocks plus the category (work/personal) and which calendar they come from.",
        visibility: Visibility::category(),
    });
    v.push(Preset {
        id: "details",
        label: "Details",
        description: "Titles, locations, categories and whether you accepted. Descriptions stay hidden.",
        visibility: Visibility::details(),
    });
    v.push(Preset { id: "full", label: "Full", description: "Everything, including descriptions.", visibility: Visibility::full() });
    assert forall|k: int| 0 <= k < 4 implies spec_preset(#[trigger] v@[k].id@) == Some(v@[k].visibility) by {
        if k == 1 {
            assert("category"@ != "busy_only"@) by {
                assert("category"@[0] != "busy_only"@[0]);
            }
        } else if k == 2 {
            assert("details"@ != "busy_only"@) by {
                assert("details"@.len() != "busy_only"@.len());
            }
            assert("details"@ != "category"@) by {
                assert("details"@.len() != "category"@.len());
            }
        } else if k == 3 {
            assert("full"@.len() != "busy_only"@.len());
            assert("full"@.len() != "category"@.len());
            assert("full"@.len() != "details"@.len());
        }
    }
    v
}

/// The visibility a request asks for: the explicit one when given, else
/// the named preset, else busy only.
pub open spec fn requested_visibility(preset: Option<Seq<char>>, explicit: Option<Visibility>) -> Result<Visibility, Seq<char>> {
    match explicit {
        Some(v) => Ok(v),
        None => match preset {
            Some(p) => match spec_preset(p) {
                Some(v) => Ok(v),
                None => Err("unknown preset"@),
            },
            None => Ok(spec_busy_only()),
        },
    }
}

/// Resolve the visibility of a share from a preset name or an explicit
/// visibility.
pub fn resolve_visibility(preset: Option<String>, explicit: Option<Visibility>) -> (r: Result<Visibility, AppError>)
    ensures
        r matches Ok(v) ==> requested_visibility(preset.deep_view(), explicit) == Ok::<Visibility, Seq<char>>(v),
        r matches Err(e) ==> requested_visibility(preset.deep_view(), explicit) matches Err(m) && is_bad_request(e, m),
        requested_visibility(preset.deep_view(), explicit) is Ok ==> r is Ok,
{
    match (preset, explicit) {
        (_, Some(v)) => Ok(v),
        (Some(p), None) => match Visibility::preset(p.as_str()) {
            Some(v) => Ok(v),
            None => Err(AppError::bad_request("unknown preset")),
        },
        (None, None) => Ok(Visibility::busy_only()),
    }
}

/// The largest horizon a share may have, in days (about ten years).
pub const MAX_HORIZON_DAYS: i64 = 3650;

/// Whether a share's horizon is allowed: 0 to 3650 days back, 1 to 3650
/// days ahead.
pub open spec fn horizon_allowed(f: Filters) -> bool {
    0 <= f.horizon_past_days <= MAX_HORIZON_DAYS && 1 <= f.horizon_future_days <= MAX_HORIZON_DAYS
}

/// Check the horizon of a share's filters.
pub fn check_horizon(f: &Filters) -> (r: Result<(), AppError>)
    ensures
        r is Ok <==> horizon_allowed(*f),
        r matches Err(e) ==> is_bad_request(e, "horizon out of range"@),
{
    if f.horizon_past_days < 0 || f.horizon_future_days < 1 || f.horizon_future_days > MAX_HORIZON_DAYS
        || f.horizon_past_days > MAX_HORIZON_DAYS {
        return Err(AppError::bad_request("horizon out of range"));
    }
    Ok(())
}

/// Whether filters name only the owner's calendars: `owned` is how many of
/// the listed sources the owner has.
pub fn check_source_ids(f: &Filters, owned: usize) -> (r: Result<(), AppError>)
    ensures
        r is Ok <==> (f.source_ids matches Some(ids) ==> owned == ids@.len()),
        r matches Err(e) ==> is_bad_request(e, "filters.source_ids contains a calendar you do not own"@),
{
    match &f.source_ids {
        Some(ids) => if owned != ids.len() {
            Err(AppError::bad_request("filters.source_ids contains a calendar you do not own"))
        } else {
            Ok(())
        },
        None => Ok(()),
    }
}

/// A name from a request: trimmed, and required.
pub fn required_name(name: &str) -> (r: Result<String, AppError>)
    ensures
        r matches Ok(n) ==> n@ == trim_seq(name@) && n@.len() > 0,
        r matches Err(e) ==> trim_seq(name@).len() == 0 && is_bad_request(e, "name is required"@),
{
    let n = trim(name);
    if n.as_str().is_empty() {
        return Err(AppError::bad_request("name is required"));
    }
    Ok(n)
}

/// A new name from an update: trimmed; an absent or blank one keeps the
/// current name.
pub open spec fn updated_name(new: Option<Seq<char>>, current: Seq<char>) -> Seq<char> {
    match new {
        Some(n) => if trim_seq(n).len() == 0 { current } else { trim_seq(n) },
        None => current,
    }
}

/// The name after an update.
pub fn update_name(new: Option<String>, current: String) -> (r: String)
    ensures
        r@ == updated_name(new.deep_view(), current@),
{
    match new {
        Some(n) => {
            let t = trim(n.as_str());
            if t.as_str().is_empty() { current } else { t }
        },
        None => current,
    }
}

/// Least privilege by default: a share that names neither a preset nor a
/// visibility reveals nothing but busy blocks; an explicit visibility always
/// wins over a preset.
pub proof fn law_least_privilege_by_default(preset: Option<Seq<char>>, explicit: Option<Visibility>)
    ensures
        requested_visibility(None, None) == Ok::<Visibility, Seq<char>>(spec_busy_only()),
        explicit matches Some(v) ==> requested_visibility(preset, explicit) == Ok::<Visibility, Seq<char>>(v),
{
}

/// The links of a share: its iCalendar feed and its JSON API.
pub fn share_links(base: &str, token: &str) -> (r: (String, String))
    ensures
        r.0@ == base@ + "/feeds/"@ + token@ + ".ics"@,
        r.1@ == base@ + "/api/v1/public/"@ + token@,
{
    let mut feed = String::from_str(base);
    feed.append("/feeds/");
    feed.append(token);
    feed.append(".ics");
    let mut api = String::from_str(base);
    api.append("/api/v1/public/");
    api.append(token);
    (feed, api)
}

/// The window a rule is evaluated over: the requested window clamped to the
/// rule's horizon; none when nothing of it remains.
pub fn evaluation_window(filters: &Filters, from: i64, to: i64, now: i64) -> (r: Option<(i64, i64)>)
    requires
        horizon_fits(*filters, now),
    ensures
        r matches Some(w) ==> w.0 == max_i(from as int, horizon_start(*filters, now)) && w.1 == min_i(to as int, horizon_end(*filters, now))
            && w.0 < w.1,
        r is None ==> min_i(to as int, horizon_end(*filters, now)) <= max_i(from as int, horizon_start(*filters, now)),
{
    let (a, b) = filters.clamp_window(from, to, now);
    if b <= a {
        None
    } else {
        Some((a, b))
    }
}

} // verus!
