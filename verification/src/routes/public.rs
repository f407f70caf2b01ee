//! Token-authenticated access for calendar apps and AI agents: what a token
//! describes, the feed it serves, and the free slots it answers.

use vstd::prelude::*;

use crate::error::{is_bad_request, AppError};
use crate::ics::parse::MAX_DURATION_SECS;
use crate::sharing::{free_slots, is_free_run, slot_for, slot_long_enough, FreeSlot, Visibility};
use crate::text::{chars_of, string_of};
use crate::timefmt::representable;
use crate::urls::{parse_url, url_parse};

verus! {

/// What a token gives access to.
#[derive(Debug, Clone)]
pub struct PublicInfo {
    pub name: String,
    pub owner: String,
    pub visibility: Visibility,
    pub horizon_past_days: i64,
    pub horizon_future_days: i64,
    pub feed_url: String,
    pub events_url: String,
    pub free_url: String,
}

fn cat3(a: &str, b: &str, c: &str) -> (s: String)
    ensures
        s@ == a@ + b@ + c@,
{
    let mut s = String::from_str(a);
    s.append(b);
    s.append(c);
    s
}

/// Describe what a token gives access to: the share's name, its owner, what
/// it reveals and how far, and the URLs to use it.
pub fn public_info(
    name: String,
    owner: String,
    visibility: Visibility,
    horizon_past_days: i64,
    horizon_future_days: i64,
    base: &str,
    token: &str,
) -> (i: PublicInfo)
    ensures
        i.name == name && i.owner == owner && i.visibility == visibility,
        i.horizon_past_days == horizon_past_days && i.horizon_future_days == horizon_future_days,
        i.feed_url@ == base@ + "/feeds/"@ + token@ + ".ics"@,
        i.events_url@ == base@ + "/api/v1/public/"@ + token@ + "/events?from=<rfc3339>&to=<rfc3339>"@,
        i.free_url@ == base@ + "/api/v1/public/"@ + token@ + "/free?from=<rfc3339>&to=<rfc3339>&min_minutes=60"@,
{
    let mut feed_url = cat3(base, "/feeds/", token);
    feed_url.append(".ics");
    let mut events_url = cat3(base, "/api/v1/public/", token);
    events_url.append("/events?from=<rfc3339>&to=<rfc3339>");
    let mut free_url = cat3(base, "/api/v1/public/", token);
    free_url.append("/free?from=<rfc3339>&to=<rfc3339>&min_minutes=60");
    PublicInfo { name, owner, visibility, horizon_past_days, horizon_future_days, feed_url, events_url, free_url }
}

/// The shortest free slot reported unless a request says otherwise, in
/// minutes.
pub fn default_min_minutes() -> (m: i64)
    ensures
        m == 30,
{
    30
}

/// The token in a feed path: the path segment without a trailing `.ics`.
pub open spec fn feed_token_of(segment: Seq<char>) -> Seq<char> {
    if segment.len() >= 4 && segment.skip(segment.len() - 4) == ".ics"@ {
        segment.take(segment.len() - 4)
    } else {
        segment
    }
}

/// The token in a feed path.
pub fn feed_token(segment: &str) -> (r: String)
    ensures
        r@ == feed_token_of(segment@),
{
    proof {
        reveal_strlit(".ics");
    }
    let cs = chars_of(segment);
    let n = cs.len();
    if n >= 4 && cs[n - 4] == '.' && cs[n - 3] == 'i' && cs[n - 2] == 'c' && cs[n - 1] == 's' {
        assert(segment@.skip(n - 4) =~= ".ics"@);
        assert(segment@.take(n - 4) =~= cs@.subrange(0, n - 4));
        string_of(&cs, 0, n - 4)
    } else {
        assert(n >= 4 ==> segment@.skip(n - 4) != ".ics"@) by {
            if n >= 4 && segment@.skip(n - 4) == ".ics"@ {
                assert(segment@.skip(n - 4)[0] == cs@[n - 4]);
                assert(segment@.skip(n - 4)[1] == cs@[n - 3]);
                assert(segment@.skip(n - 4)[2] == cs@[n - 2]);
                assert(segment@.skip(n - 4)[3] == cs@[n - 1]);
            }
        }
        assert(cs@.subrange(0, n as int) =~= segment@);
        string_of(&cs, 0, n)
    }
}

/// The calendar name of a feed: the owner, a middle dot, the share's name.
pub fn feed_calendar_name(owner: &str, share_name: &str) -> (r: String)
    ensures
        r@ == owner@ + " · "@ + share_name@,
{
    cat3(owner, " · ", share_name)
}

/// The host named in the service's public URL, `opentempus` when there is
/// none.
pub open spec fn host_of(public_url: Seq<char>) -> Seq<char> {
    match url_parse(public_url) {
        Ok(u) => match u.2 {
            Some(h) => h,
            None => "opentempus"@,
        },
        Err(_) => "opentempus"@,
    }
}

/// The host named in the service's public URL.
pub fn public_host(public_url: &str) -> (r: String)
    ensures
        r@ == host_of(public_url@),
{
    match parse_url(public_url) {
        Ok(u) => match u.host {
            Some(h) => h,
            None => String::from_str("opentempus"),
        },
        Err(_) => String::from_str("opentempus"),
    }
}

/// How many shares an availability request may combine.
pub const MAX_PARTICIPANTS: usize = 50;

/// An availability request names between 1 and 50 shares.
pub fn check_participants(count: usize) -> (r: Result<(), AppError>)
    ensures
        r is Ok <==> 1 <= count <= MAX_PARTICIPANTS,
        r matches Err(e) ==> is_bad_request(e, "between 1 and 50 tokens are required"@),
{
    if count == 0 || count > MAX_PARTICIPANTS {
        return Err(AppError::bad_request("between 1 and 50 tokens are required"));
    }
    Ok(())
}

/// The window common to the request and every participant's horizon (each
/// given as that participant's clamp of the requested window).
pub open spec fn common_window(from: int, to: int, windows: Seq<(i64, i64)>) -> (int, int)
    decreases windows.len(),
{
    if windows.len() == 0 {
        (from, to)
    } else {
        let w = common_window(from, to, windows.drop_last());
        let last = windows.last();
        (if w.0 >= last.0 { w.0 } else { last.0 as int }, if w.1 <= last.1 { w.1 } else { last.1 as int })
    }
}

/// Intersect the requested window with every participant's window.
pub fn intersect_windows(from: i64, to: i64, windows: &Vec<(i64, i64)>) -> (r: (i64, i64))
    ensures
        r.0 == common_window(from as int, to as int, windows@).0,
        r.1 == common_window(from as int, to as int, windows@).1,
{
    let mut a = from;
    let mut b = to;
    let mut i: usize = 0;
    while i < windows.len()
        invariant
            i <= windows.len(),
            a == common_window(from as int, to as int, windows@.take(i as int)).0,
            b == common_window(from as int, to as int, windows@.take(i as int)).1,
        decreases windows.len() - i,
    {
        assert(windows@.take(i + 1).drop_last() =~= windows@.take(i as int));
        let (f, t) = windows[i];
        if f > a {
            a = f;
        }
        if t < b {
            b = t;
        }
        i = i + 1;
    }
    assert(windows@.take(windows.len() as int) =~= windows@);
    (a, b)
}

/// The shortest slot reported, in seconds: at least one minute.
pub open spec fn min_slot_secs(min_minutes: i64) -> int {
    (if min_minutes < 1 { 1 } else { min_minutes as int }) * 60
}

/// Free slots of a window, answered for a free or availability request:
/// an empty window (its end not after its start) is answered as the empty
/// window at its start without slots; else the free slots of at least
/// `min_minutes` (at least one) minutes.
pub fn answer_free(from: i64, to: i64, busy: &[(i64, i64)], min_minutes: i64) -> (r: (i64, i64, Vec<FreeSlot>))
    requires
        representable(from as int),
        representable(to as int),
        min_slot_secs(min_minutes) <= MAX_DURATION_SECS,
    ensures
        to <= from ==> r.0 == from && r.1 == from && r.2@.len() == 0,
        from < to ==> r.0 == from && r.1 == to,
        from < to ==> forall|k: int| 0 <= k < r.2@.len() ==> {
            &&& is_free_run(from as int, to as int, busy@, (#[trigger] r.2@[k]).start as int, r.2@[k].end as int)
            &&& slot_long_enough(r.2@[k].start as int, r.2@[k].end as int, min_slot_secs(min_minutes))
            &&& r.2@[k] == slot_for(r.2@[k].start as int, r.2@[k].end as int)
        },
        from < to ==> forall|k: int, l: int| 0 <= k < l < r.2@.len() ==> (#[trigger] r.2@[k]).end < (#[trigger] r.2@[l]).start,
        from < to ==> forall|a: int, b: int|
            is_free_run(from as int, to as int, busy@, a, b) && slot_long_enough(a, b, min_slot_secs(min_minutes)) ==> exists|k: int|
                0 <= k < r.2@.len() && (#[trigger] r.2@[k]).start == a && r.2@[k].end == b,
{
    if to <= from {
        return (from, from, Vec::new());
    }
    let minutes: i64 = if min_minutes < 1 { 1 } else { min_minutes };
    let slots = free_slots(from, to, busy, minutes * 60);
    assert(min_slot_secs(min_minutes) == minutes * 60);
    let r = (from, to, slots);
    assert forall|a: int, b: int|
        is_free_run(from as int, to as int, busy@, a, b) && slot_long_enough(a, b, min_slot_secs(min_minutes)) implies exists|k: int|
            0 <= k < r.2@.len() && (#[trigger] r.2@[k]).start == a && r.2@[k].end == b by {
        assert(slot_long_enough(a, b, (minutes * 60) as int));
        let k = choose|k: int| 0 <= k < r.2@.len() && (#[trigger] r.2@[k]).start == a && r.2@[k].end == b;
    }
    r
}

/// The common window of an availability request lies within the requested
/// window and within every participant's window, so no participant's slots
/// are looked for outside what that participant allows.
pub proof fn law_common_window_within_each(from: int, to: int, windows: Seq<(i64, i64)>)
    ensures
        common_window(from, to, windows).0 >= from,
        common_window(from, to, windows).1 <= to,
        forall|k: int|
            0 <= k < windows.len() ==> common_window(from, to, windows).0 >= (#[trigger] windows[k]).0 && common_window(
                from,
                to,
                windows,
            ).1 <= windows[k].1,
    decreases windows.len(),
{
    if windows.len() > 0 {
        let d = windows.drop_last();
        law_common_window_within_each(from, to, d);
        assert forall|k: int| 0 <= k < windows.len() implies common_window(from, to, windows).0 >= (#[trigger] windows[k]).0
            && common_window(from, to, windows).1 <= windows[k].1 by {
            if k < d.len() {
                assert(windows[k] == d[k]);
            }
        }
    }
}

} // verus!
