//! What persisting a parsed calendar does: which events are stored, which
//! occurrences are written, and which stored events disappeared from the
//! feed. The database work itself is the caller's.

use vstd::prelude::*;

use crate::ics::expand::{all_within, candidate_starts, expand, expandable, expansion_message, finished_upto, span, Occurrence, MAX_OCCURRENCES};
use crate::ics::parse::{group_by_uid, grouped, out_of_range, with_uid, ParsedEvent};
use crate::ids::{new_uuid_v5, uuid_v5};
use crate::timefmt::{format_rfc3339, representable, rfc3339_text, EARLIEST_INSTANT, LATEST_INSTANT};
use crate::vecs::reversed;

verus! {

/// The events of a group that are masters (no RECURRENCE-ID), in order.
pub open spec fn masters_of(g: Seq<ParsedEvent>) -> Seq<ParsedEvent>
    decreases g.len(),
{
    if g.len() == 0 {
        Seq::empty()
    } else {
        masters_of(g.drop_last()) + if g.last().recurrence_id is None { seq![g.last()] } else { Seq::<ParsedEvent>::empty() }
    }
}

/// The events of a group that override one occurrence, in order.
pub open spec fn overrides_of(g: Seq<ParsedEvent>) -> Seq<ParsedEvent>
    decreases g.len(),
{
    if g.len() == 0 {
        Seq::empty()
    } else {
        overrides_of(g.drop_last()) + if g.last().recurrence_id is Some { seq![g.last()] } else { Seq::<ParsedEvent>::empty() }
    }
}

/// `a` ranks no higher than `b` as the master of a group: by SEQUENCE, then
/// by LAST-MODIFIED, where none ranks lowest.
pub open spec fn ranks_below_or_equal(a: ParsedEvent, b: ParsedEvent) -> bool {
    a.sequence < b.sequence || (a.sequence == b.sequence && match (a.last_modified, b.last_modified) {
        (None, _) => true,
        (Some(_), None) => false,
        (Some(x), Some(y)) => x <= y,
    })
}

/// The master kept when a feed holds several: the last one of highest rank.
pub open spec fn chosen_master(ms: Seq<ParsedEvent>) -> Option<ParsedEvent>
    decreases ms.len(),
{
    if ms.len() == 0 {
        None
    } else {
        match chosen_master(ms.drop_last()) {
            None => Some(ms.last()),
            Some(b) => if ranks_below_or_equal(b, ms.last()) { Some(ms.last()) } else { Some(b) },
        }
    }
}

/// The occurrence starts the overrides replace.
pub open spec fn overridden_starts(os: Seq<ParsedEvent>) -> Seq<i64> {
    Seq::new(os.len(), |k: int| os[k].recurrence_id->0)
}

/// Whether an event overlaps the window `[from, to)`.
pub open spec fn in_window(e: ParsedEvent, from: int, to: int) -> bool {
    e.end_at > from && e.start_at < to
}

/// What is stored for the events of one UID.
pub struct GroupPlan {
    pub uid: String,
    /// The master to store, if the group has one.
    pub master: Option<ParsedEvent>,
    /// The master's occurrences in the window.
    pub occurrences: Vec<Occurrence>,
    /// The overrides to store, in order.
    pub overrides: Vec<ParsedEvent>,
    /// For each override, whether it is an occurrence in the window.
    pub override_instances: Vec<bool>,
    /// Why the master could not be expanded, if it could not.
    pub warning: Option<String>,
}

/// The plan for the events `g` of one UID.
pub open spec fn group_planned(p: GroupPlan, uid: Seq<char>, g: Seq<ParsedEvent>, from: i64, to: i64) -> bool {
    &&& p.uid@ == uid
    &&& p.master == chosen_master(masters_of(g))
    &&& p.overrides@ == overrides_of(g)
    &&& p.override_instances@.len() == p.overrides@.len()
    &&& forall|k: int|
        0 <= k < p.overrides@.len() ==> #[trigger] p.override_instances@[k] == in_window(p.overrides@[k], from as int, to as int)
    &&& match p.master {
        None => p.occurrences@.len() == 0 && p.warning is None,
        Some(m) => if !expandable(m@, from, to) {
            p.occurrences@.len() == 0 && p.warning.deep_view() == Some(uid + ": "@ + out_of_range(uid))
        } else {
            match candidate_starts(m@, from, to) {
                Err(_) => p.occurrences@.len() == 0 && (p.warning.deep_view() matches Some(w) && (uid + ": "@).is_prefix_of(w)
                    && expansion_message(m@, from, to, w.skip(uid.len() as int + 2))),
                Ok(starts) => p.warning is None && finished_upto(
                    p.occurrences@,
                    starts,
                    overridden_starts(p.overrides@),
                    span(m@),
                    m.all_day,
                    from as int,
                    to as int,
                    MAX_OCCURRENCES as int,
                ),
            }
        },
    }
}

fn split_group(g: Vec<ParsedEvent>) -> (r: (Vec<ParsedEvent>, Vec<ParsedEvent>))
    ensures
        r.0@ == masters_of(g@),
        r.1@ == overrides_of(g@),
{
    let ghost all = g@;
    assert(all.len() == g.len());
    let mut rest = reversed(g);
    let mut masters: Vec<ParsedEvent> = Vec::new();
    let mut overrides: Vec<ParsedEvent> = Vec::new();
    let mut n: usize = 0;
    assert(all.take(0) =~= Seq::<ParsedEvent>::empty());
    assert(rest@.reverse() =~= all);
    while rest.len() > 0
        invariant
            all.take(n as int) + rest@.reverse() == all,
            n + rest.len() == all.len(),
            all.len() <= usize::MAX,
            masters@ == masters_of(all.take(n as int)),
            overrides@ == overrides_of(all.take(n as int)),
        decreases rest.len(),
    {
        let ghost v0 = rest@;
        let e = rest.pop().unwrap();
        assert(v0.reverse() =~= seq![e] + rest@.reverse());
        assert(all[n as int] == e) by {
            assert((all.take(n as int) + v0.reverse())[n as int] == e);
        }
        assert(all.take(n + 1).drop_last() =~= all.take(n as int));
        if e.recurrence_id.is_none() {
            masters.push(e);
        } else {
            overrides.push(e);
        }
        n = n + 1;
        assert(all.take(n as int) + rest@.reverse() =~= all);
    }
    assert(all.take(n as int) =~= all);
    (masters, overrides)
}

fn ranks_below_or_equal_exec(a: &ParsedEvent, b: &ParsedEvent) -> (r: bool)
    ensures
        r == ranks_below_or_equal(*a, *b),
{
    if a.sequence != b.sequence {
        return a.sequence < b.sequence;
    }
    match (a.last_modified, b.last_modified) {
        (None, _) => true,
        (Some(_), None) => false,
        (Some(x), Some(y)) => x <= y,
    }
}

fn choose_master(ms: Vec<ParsedEvent>) -> (r: Option<ParsedEvent>)
    ensures
        r == chosen_master(ms@),
{
    let ghost all = ms@;
    assert(all.len() == ms.len());
    let mut rest = reversed(ms);
    let mut best: Option<ParsedEvent> = None;
    let mut n: usize = 0;
    assert(rest@.reverse() =~= all);
    while rest.len() > 0
        invariant
            all.take(n as int) + rest@.reverse() == all,
            n + rest.len() == all.len(),
            all.len() <= usize::MAX,
            best == chosen_master(all.take(n as int)),
        decreases rest.len(),
    {
        let ghost v0 = rest@;
        let e = rest.pop().unwrap();
        assert(v0.reverse() =~= seq![e] + rest@.reverse());
        assert(all[n as int] == e) by {
            assert((all.take(n as int) + v0.reverse())[n as int] == e);
        }
        assert(all.take(n + 1).drop_last() =~= all.take(n as int));
        let replace = match &best {
            None => true,
            Some(b) => ranks_below_or_equal_exec(b, &e),
        };
        if replace {
            best = Some(e);
        }
        n = n + 1;
        assert(all.take(n as int) + rest@.reverse() =~= all);
    }
    assert(all.take(n as int) =~= all);
    best
}

fn representable_exec(t: i128) -> (r: bool)
    ensures
        r == representable(t as int),
{
    EARLIEST_INSTANT as i128 <= t && t <= LATEST_INSTANT as i128
}

fn all_representable(v: &Vec<i64>, shift: i128) -> (r: bool)
    requires
        -0x1_0000_0000_0000_0000i128 <= shift <= 0x1_0000_0000_0000_0000i128,
    ensures
        r == all_within(v@, shift as int),
{
    let mut i: usize = 0;
    while i < v.len()
        invariant
            i <= v.len(),
            -0x1_0000_0000_0000_0000i128 <= shift <= 0x1_0000_0000_0000_0000i128,
            forall|k: int| 0 <= k < i ==> representable(v@[k] as int) && representable(v@[k] + shift),
        decreases v.len() - i,
    {
        if !representable_exec(v[i] as i128) || !representable_exec(v[i] as i128 + shift) {
            return false;
        }
        i = i + 1;
    }
    true
}

/// Whether `expand` can run on `m` for the window without leaving the range
/// of instants.
pub fn can_expand(m: &ParsedEvent, from: i64, to: i64) -> (r: bool)
    ensures
        r == expandable(m@, from, to),
{
    let len: i128 = m.end_at as i128 - m.start_at as i128;
    let abs: i128 = if len < 0 { -len } else { len };
    assert(len == span(m@));
    assert(abs == crate::ics::expand::abs(span(m@)));
    let a = representable_exec(m.start_at as i128) && representable_exec(m.end_at as i128);
    let b = all_representable(&m.rdates, len);
    let c = all_representable(&m.exdates, 0);
    let d = representable_exec(from as i128 - abs) && representable_exec(to as i128 + abs);
    let e = representable_exec(from as i128) && representable_exec(to as i128);
    assert(a == (representable(m@.start_at as int) && representable(m@.end_at as int)));
    assert(d == (representable(from - crate::ics::expand::abs(span(m@))) && representable(to + crate::ics::expand::abs(span(m@)))));
    assert(e == (representable(from as int) && representable(to as int)));
    a && b && c && d && e
}

/// Decide what is stored for the events `g` of one UID.
pub fn plan_group(uid: String, g: Vec<ParsedEvent>, from: i64, to: i64) -> (p: GroupPlan)
    ensures
        group_planned(p, uid@, g@, from, to),
{
    let ghost gv = g@;
    let (masters, overrides) = split_group(g);
    proof {
        lemma_overrides_have_ids(gv);
    }
    let mut overridden: Vec<i64> = Vec::new();
    let mut override_instances: Vec<bool> = Vec::new();
    let mut k: usize = 0;
    while k < overrides.len()
        invariant
            k <= overrides.len(),
            overrides@ == overrides_of(gv),
            forall|q: int| 0 <= q < overrides@.len() ==> (#[trigger] overrides@[q]).recurrence_id is Some,
            overridden@.len() == k,
            override_instances@.len() == k,
            forall|q: int| 0 <= q < k ==> #[trigger] overridden@[q] == overrides@[q].recurrence_id->0,
            forall|q: int| 0 <= q < k ==> #[trigger] override_instances@[q] == in_window(overrides@[q], from as int, to as int),
        decreases overrides.len() - k,
    {
        let o = &overrides[k];
        let rid = match o.recurrence_id {
            Some(t) => t,
            None => 0,
        };
        overridden.push(rid);
        override_instances.push(o.end_at > from && o.start_at < to);
        k = k + 1;
    }
    assert(overridden@ =~= overridden_starts(overrides@));
    let master = choose_master(masters);
    let mut occurrences: Vec<Occurrence> = Vec::new();
    let mut warning: Option<String> = None;
    if let Some(m) = &master {
        if can_expand(m, from, to) {
            match expand(m, overridden.as_slice(), from, to) {
                Ok(occ) => {
                    occurrences = occ;
                },
                Err(e) => {
                    let mut w = uid.clone();
                    w.append(": ");
                    let ghost head = w@;
                    proof {
                        reveal_strlit(": ");
                    }
                    assert(head.len() == uid@.len() + 2);
                    w.append(e.as_str());
                    assert(w@.subrange(0, head.len() as int) =~= head);
                    assert(w@.skip(uid@.len() as int + 2) =~= e@);
                    warning = Some(w);
                },
            }
        } else {
            let mut w = uid.clone();
            w.append(": ");
            w.append("event ");
            w.append(uid.as_str());
            w.append(" ends outside the supported range of instants");
            assert(w@ =~= uid@ + ": "@ + out_of_range(uid@));
            warning = Some(w);
        }
    }
    GroupPlan { uid, master, occurrences, overrides, override_instances, warning }
}

proof fn lemma_overrides_have_ids(g: Seq<ParsedEvent>)
    ensures
        forall|k: int| 0 <= k < overrides_of(g).len() ==> (#[trigger] overrides_of(g)[k]).recurrence_id is Some,
    decreases g.len(),
{
    if g.len() > 0 {
        lemma_overrides_have_ids(g.drop_last());
    }
}

/// What storing a calendar does, one plan per UID.
pub struct StorePlan {
    pub groups: Vec<GroupPlan>,
}

/// The plans hold distinct UIDs, each planned from all events of its UID,
/// and every event's UID has a plan.
pub open spec fn store_planned(groups: Seq<GroupPlan>, events: Seq<ParsedEvent>, from: i64, to: i64) -> bool {
    &&& forall|k: int, l: int| 0 <= k < l < groups.len() ==> #[trigger] groups[k].uid@ != #[trigger] groups[l].uid@
    &&& forall|k: int|
        0 <= k < groups.len() ==> #[trigger] group_planned(groups[k], groups[k].uid@, with_uid(events, groups[k].uid@), from, to)
    &&& forall|i: int| 0 <= i < events.len() ==> has_plan(groups, #[trigger] events[i].uid@)
}

/// Whether one of the plans is for the given UID.
pub open spec fn has_plan(groups: Seq<GroupPlan>, uid: Seq<char>) -> bool {
    exists|k: int| 0 <= k < groups.len() && #[trigger] groups[k].uid@ == uid
}

/// Decide what storing the parsed events of a calendar does for the window
/// `[from, to)`: events grouped by UID, one master kept per UID, the master
/// expanded into occurrences, and overrides stored as their own occurrence.
pub fn plan_store(events: Vec<ParsedEvent>, from: i64, to: i64) -> (plan: StorePlan)
    ensures
        store_planned(plan.groups@, events@, from, to),
{
    let ghost evs = events@;
    let groups = group_by_uid(events);
    let ghost gs = groups@;
    assert(gs.len() == groups.len());
    let mut rest = reversed(groups);
    let mut out: Vec<GroupPlan> = Vec::new();
    let mut n: usize = 0;
    assert(rest@.reverse() =~= gs);
    assert(gs.take(0) =~= Seq::<(String, Vec<ParsedEvent>)>::empty());
    while rest.len() > 0
        invariant
            grouped(gs, evs),
            gs.take(n as int) + rest@.reverse() == gs,
            n + rest.len() == gs.len(),
            gs.len() <= usize::MAX,
            out@.len() == n,
            forall|k: int| 0 <= k < n ==> #[trigger] out@[k].uid@ == gs[k].0@,
            forall|k: int| 0 <= k < n ==> #[trigger] group_planned(out@[k], out@[k].uid@, with_uid(evs, out@[k].uid@), from, to),
        decreases rest.len(),
    {
        let ghost v0 = rest@;
        let (uid, g) = rest.pop().unwrap();
        assert(v0.reverse() =~= seq![(uid, g)] + rest@.reverse());
        assert(gs[n as int] == (uid, g)) by {
            assert((gs.take(n as int) + v0.reverse())[n as int] == (uid, g));
        }
        let ghost u = uid@;
        let p = plan_group(uid, g, from, to);
        out.push(p);
        n = n + 1;
        assert(gs.take(n as int) + rest@.reverse() =~= gs);
    }
    assert forall|i: int| 0 <= i < evs.len() implies has_plan(out@, #[trigger] evs[i].uid@) by {
        let k = choose|k: int| 0 <= k < gs.len() && #[trigger] gs[k].0@ == #[trigger] evs[i].uid@;
        assert(out@[k].uid@ == gs[k].0@);
    }
    assert forall|k: int, l: int| 0 <= k < l < out@.len() implies #[trigger] out@[k].uid@ != #[trigger] out@[l].uid@ by {
        assert(gs[k].0@ != gs[l].0@);
    }
    assert(store_planned(out@, evs, from, to));
    StorePlan { groups: out }
}

/// Whether the plans store an event with this UID and RECURRENCE-ID: the
/// master for none, an override for an instant.
pub open spec fn seen(groups: Seq<GroupPlan>, uid: Seq<char>, rid: Option<i64>) -> bool {
    exists|k: int|
        0 <= k < groups.len() && #[trigger] groups[k].uid@ == uid && match rid {
            None => groups[k].master is Some,
            Some(t) => exists|j: int| 0 <= j < groups[k].overrides@.len() && #[trigger] groups[k].overrides@[j].recurrence_id == Some(t),
        }
}

/// The ids of stored events that the plans no longer store, in order.
pub open spec fn stale_of(existing: Seq<(u128, String, Option<i64>)>, groups: Seq<GroupPlan>) -> Seq<u128>
    decreases existing.len(),
{
    if existing.len() == 0 {
        Seq::empty()
    } else {
        let r = existing.last();
        stale_of(existing.drop_last(), groups) + if seen(groups, r.1@, r.2) { Seq::<u128>::empty() } else { seq![r.0] }
    }
}

fn has_override(os: &Vec<ParsedEvent>, t: i64) -> (r: bool)
    ensures
        r == exists|j: int| 0 <= j < os@.len() && #[trigger] os@[j].recurrence_id == Some(t),
{
    let mut j: usize = 0;
    while j < os.len()
        invariant
            j <= os.len(),
            forall|q: int| 0 <= q < j ==> #[trigger] os@[q].recurrence_id != Some(t),
        decreases os.len() - j,
    {
        if os[j].recurrence_id == Some(t) {
            assert(os@[j as int].recurrence_id == Some(t));
            return true;
        }
        j = j + 1;
    }
    false
}

fn is_seen(groups: &Vec<GroupPlan>, uid: &String, rid: Option<i64>) -> (r: bool)
    ensures
        r == seen(groups@, uid@, rid),
{
    let mut k: usize = 0;
    while k < groups.len()
        invariant
            k <= groups.len(),
            forall|q: int|
                0 <= q < k ==> !(#[trigger] groups@[q].uid@ == uid@ && match rid {
                    None => groups@[q].master is Some,
                    Some(t) => exists|j: int|
                        0 <= j < groups@[q].overrides@.len() && #[trigger] groups@[q].overrides@[j].recurrence_id == Some(t),
                }),
        decreases groups.len() - k,
    {
        let g = &groups[k];
        if crate::text::str_equals(g.uid.as_str(), uid.as_str()) {
            match rid {
                None => {
                    if g.master.is_some() {
                        return true;
                    }
                },
                Some(t) => {
                    if has_override(&g.overrides, t) {
                        return true;
                    }
                },
            }
        }
        k = k + 1;
    }
    false
}

/// The stored events (id, UID, RECURRENCE-ID) that disappeared from the feed.
pub fn stale_events(existing: &Vec<(u128, String, Option<i64>)>, plan: &StorePlan) -> (r: Vec<u128>)
    ensures
        r@ == stale_of(existing@, plan.groups@),
{
    let mut out: Vec<u128> = Vec::new();
    let mut i: usize = 0;
    assert(existing@.take(0) =~= Seq::<(u128, String, Option<i64>)>::empty());
    while i < existing.len()
        invariant
            i <= existing.len(),
            out@ == stale_of(existing@.take(i as int), plan.groups@),
        decreases existing.len() - i,
    {
        assert(existing@.take(i + 1).drop_last() =~= existing@.take(i as int));
        assert(existing@.take(i + 1).last() == existing@[i as int]);
        if !is_seen(&plan.groups, &existing[i].1, existing[i].2) {
            out.push(existing[i].0);
        }
        assert(out@ =~= stale_of(existing@.take(i + 1), plan.groups@));
        i = i + 1;
    }
    assert(existing@.take(existing.len() as int) =~= existing@);
    out
}

/// Occurrence ids are derived from the event id and the start instant, so
/// they survive re-syncs. Feed subscribers and mirrored events rely on that.
pub fn instance_id(event_id: u128, start_at: i64) -> (r: u128)
    requires
        representable(start_at as int),
    ensures
        r == uuid_v5(event_id, vstd::utf8::encode_utf8(rfc3339_text(start_at))),
{
    let text = format_rfc3339(start_at);
    new_uuid_v5(event_id, text.as_str().as_bytes())
}

/// The window a source's occurrences are stored for: from `past_days`
/// (at least 0) days before `now` to `future_days` (at least 1) days after.
pub open spec fn window_of(now: i64, past_days: i32, future_days: i32) -> (int, int) {
    (
        now - (if past_days < 0 { 0 } else { past_days as int }) * 86400,
        now + (if future_days < 1 { 1 } else { future_days as int }) * 86400,
    )
}

/// The window a source's occurrences are stored for.
pub fn store_window(now: i64, past_days: i32, future_days: i32) -> (r: (i64, i64))
    requires
        representable(window_of(now, past_days, future_days).0),
        representable(window_of(now, past_days, future_days).1),
    ensures
        r.0 == window_of(now, past_days, future_days).0,
        r.1 == window_of(now, past_days, future_days).1,
{
    let past: i64 = if past_days < 0 { 0 } else { past_days as i64 };
    let future: i64 = if future_days < 1 { 1 } else { future_days as i64 };
    (now - past * 86400, now + future * 86400)
}

/// Counts of one store, and the events that could not be expanded.
#[derive(Debug)]
pub struct StoreStats {
    pub events: usize,
    pub instances: usize,
    pub removed: usize,
    pub warnings: Vec<String>,
}

/// `a + b`, saturating at `usize::MAX`.
pub open spec fn sat_add(a: nat, b: int) -> nat {
    if a + b > usize::MAX { usize::MAX as nat } else { (a + b) as nat }
}

/// How many entries are true.
pub open spec fn count_true(s: Seq<bool>) -> int
    decreases s.len(),
{
    if s.len() == 0 {
        0
    } else {
        count_true(s.drop_last()) + if s.last() { 1int } else { 0int }
    }
}

/// Events stored: each kept master and each override.
pub open spec fn events_stored(gs: Seq<GroupPlan>) -> nat
    decreases gs.len(),
{
    if gs.len() == 0 {
        0
    } else {
        sat_add(events_stored(gs.drop_last()), (if gs.last().master is Some { 1int } else { 0int }) + gs.last().overrides@.len())
    }
}

/// Occurrences written: the masters' occurrences and the overrides in the
/// window.
pub open spec fn instances_written(gs: Seq<GroupPlan>) -> nat
    decreases gs.len(),
{
    if gs.len() == 0 {
        0
    } else {
        sat_add(instances_written(gs.drop_last()), gs.last().occurrences@.len() + count_true(gs.last().override_instances@))
    }
}

/// The warnings of the plans, in order.
pub open spec fn warnings_of(gs: Seq<GroupPlan>) -> Seq<Seq<char>>
    decreases gs.len(),
{
    if gs.len() == 0 {
        Seq::empty()
    } else {
        warnings_of(gs.drop_last()) + match gs.last().warning {
            Some(w) => seq![w@],
            None => Seq::<Seq<char>>::empty(),
        }
    }
}

fn add_sat(a: usize, b: usize) -> (r: usize)
    ensures
        r == sat_add(a as nat, b as int),
{
    if b > usize::MAX - a { usize::MAX } else { a + b }
}

fn true_count(s: &Vec<bool>) -> (r: usize)
    ensures
        r == count_true(s@),
{
    let mut n: usize = 0;
    let mut i: usize = 0;
    while i < s.len()
        invariant
            i <= s.len(),
            n == count_true(s@.take(i as int)),
            n <= i,
        decreases s.len() - i,
    {
        assert(s@.take(i + 1).drop_last() =~= s@.take(i as int));
        if s[i] {
            n = n + 1;
        }
        i = i + 1;
    }
    assert(s@.take(s.len() as int) =~= s@);
    n
}

/// The counts of a store: events stored, occurrences written, stale events
/// removed, and the plans' warnings.
pub fn store_stats(plan: &StorePlan, stale: &Vec<u128>) -> (s: StoreStats)
    ensures
        s.events == events_stored(plan.groups@),
        s.instances == instances_written(plan.groups@),
        s.removed == stale.len(),
        s.warnings.deep_view() == warnings_of(plan.groups@),
{
    let gs = &plan.groups;
    let mut events: usize = 0;
    let mut instances: usize = 0;
    let mut warnings: Vec<String> = Vec::new();
    let mut k: usize = 0;
    assert(gs@.take(0) =~= Seq::<GroupPlan>::empty());
    assert(warnings.deep_view() =~= Seq::<Seq<char>>::empty());
    while k < gs.len()
        invariant
            k <= gs.len(),
            events == events_stored(gs@.take(k as int)),
            instances == instances_written(gs@.take(k as int)),
            warnings.deep_view() == warnings_of(gs@.take(k as int)),
        decreases gs.len() - k,
    {
        let ghost t = gs@.take(k + 1);
        assert(t.drop_last() =~= gs@.take(k as int));
        assert(t.last() == gs@[k as int]);
        let g = &gs[k];
        let here = if g.master.is_some() { 1 } else { 0 };
        events = add_sat(events, add_sat(here, g.overrides.len()));
        instances = add_sat(instances, add_sat(g.occurrences.len(), true_count(&g.override_instances)));
        let ghost w0 = warnings.deep_view();
        match &g.warning {
            Some(w) => {
                warnings.push(w.clone());
                assert(warnings.deep_view() =~= w0.push(w@));
            },
            None => {},
        }
        assert(warnings.deep_view() =~= warnings_of(t));
        k = k + 1;
    }
    assert(gs@.take(gs.len() as int) =~= gs@);
    StoreStats { events, instances, removed: stale.len(), warnings }
}

/// When a feed holds several masters for one UID, the one kept is one of
/// them and none of the others ranks above it (highest SEQUENCE, then latest
/// LAST-MODIFIED).
pub proof fn law_kept_master_ranks_highest(ms: Seq<ParsedEvent>)
    requires
        ms.len() > 0,
    ensures
        chosen_master(ms) matches Some(m) && ms.contains(m),
        forall|i: int| 0 <= i < ms.len() ==> ranks_below_or_equal(#[trigger] ms[i], chosen_master(ms)->Some_0),
    decreases ms.len(),
{
    let d = ms.drop_last();
    let x = ms.last();
    assert(ms[ms.len() - 1] == x);
    if d.len() == 0 {
        assert(chosen_master(d) is None);
        assert forall|i: int| 0 <= i < ms.len() implies ranks_below_or_equal(#[trigger] ms[i], chosen_master(ms)->Some_0) by {
            assert(i == 0);
        }
    } else {
        law_kept_master_ranks_highest(d);
        let b = chosen_master(d)->Some_0;
        let q = choose|q: int| 0 <= q < d.len() && d[q] == b;
        assert(ms[q] == b);
        assert forall|i: int| 0 <= i < ms.len() implies ranks_below_or_equal(#[trigger] ms[i], chosen_master(ms)->Some_0) by {
            if i < d.len() {
                assert(ms[i] == d[i]);
                assert(ranks_below_or_equal(d[i], b));
            }
        }
    }
}

} // verus!
