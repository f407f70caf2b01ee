//! The sharing model: what a share *includes* (filters) and what the audience
//! may *see* of each included event (visibility).
//!
//! A share is a pure projection over the owner's normalized events, evaluated
//! on every read. Nothing is copied, so changing a rule takes effect
//! immediately for every consumer (ICS feed, JSON API, friend view).
//!
//! Instants are whole seconds since the Unix epoch (UTC); identifiers are the
//! 128-bit values of UUIDs.

use vstd::prelude::*;

use crate::models::{EventStatus, Rsvp, Transparency};
use crate::text::{eq_ignore_case, str_eq_ignore_case};

verus! {

/// Seconds in a day.
pub const SECS_PER_DAY: i64 = 86400;

/// Which event fields the audience of a share is allowed to see.
///
/// Everything defaults to hidden; the minimal share is "busy blocks only".
#[derive(Clone, Copy, Debug, PartialEq, Eq, Structural)]
pub struct Visibility {
    pub title: bool,
    pub description: bool,
    pub location: bool,
    /// The user-assigned category of the origin calendar (work/personal/...).
    pub category: bool,
    /// The name of the calendar the event came from.
    pub origin_calendar: bool,
    /// Whether the owner accepted / tentatively accepted / has not answered.
    pub rsvp: bool,
    /// Whether the event marks the owner busy or free (transparency).
    pub free_busy: bool,
}

pub open spec fn spec_busy_only() -> Visibility {
    Visibility {
        title: false,
        description: false,
        location: false,
        category: false,
        origin_calendar: false,
        rsvp: false,
        free_busy: false,
    }
}

pub open spec fn spec_category() -> Visibility {
    Visibility { category: true, origin_calendar: true, ..spec_busy_only() }
}

pub open spec fn spec_details() -> Visibility {
    Visibility { title: true, location: true, rsvp: true, free_busy: true, ..spec_category() }
}

pub open spec fn spec_full() -> Visibility {
    Visibility { description: true, ..spec_details() }
}

/// The preset a name stands for, if any.
pub open spec fn spec_preset(name: Seq<char>) -> Option<Visibility> {
    if name == "busy_only"@ {
        Some(spec_busy_only())
    } else if name == "category"@ {
        Some(spec_category())
    } else if name == "details"@ {
        Some(spec_details())
    } else if name == "full"@ {
        Some(spec_full())
    } else {
        None
    }
}

/// Whether every field visible under `a` is visible under `b`.
pub open spec fn reveals_at_most(a: Visibility, b: Visibility) -> bool {
    &&& a.title ==> b.title
    &&& a.description ==> b.description
    &&& a.location ==> b.location
    &&& a.category ==> b.category
    &&& a.origin_calendar ==> b.origin_calendar
    &&& a.rsvp ==> b.rsvp
    &&& a.free_busy ==> b.free_busy
}

impl Visibility {
    /// Only that time is blocked.
    pub fn busy_only() -> (v: Visibility)
        ensures
            v == spec_busy_only(),
    {
        Visibility {
            title: false,
            description: false,
            location: false,
            category: false,
            origin_calendar: false,
            rsvp: false,
            free_busy: false,
        }
    }

    /// Busy blocks plus the category and the origin calendar.
    pub fn category() -> (v: Visibility)
        ensures
            v == spec_category(),
    {
        Visibility { category: true, origin_calendar: true, ..Visibility::busy_only() }
    }

    /// Titles, locations, categories and RSVP; descriptions stay hidden.
    pub fn details() -> (v: Visibility)
        ensures
            v == spec_details(),
    {
        Visibility { title: true, location: true, rsvp: true, free_busy: true, ..Visibility::category() }
    }

    /// Everything, including descriptions.
    pub fn full() -> (v: Visibility)
        ensures
            v == spec_full(),
    {
        Visibility { description: true, ..Visibility::details() }
    }

    /// Look up a preset by name.
    pub fn preset(name: &str) -> (r: Option<Visibility>)
        ensures
            r == spec_preset(name@),
    {
        proof {
            reveal_strlit("busy_only");
            reveal_strlit("category");
            reveal_strlit("details");
            reveal_strlit("full");
        }
        if crate::text::str_equals(name, "busy_only") {
            Some(Visibility::busy_only())
        } else if crate::text::str_equals(name, "category") {
            Some(Visibility::category())
        } else if crate::text::str_equals(name, "details") {
            Some(Visibility::details())
        } else if crate::text::str_equals(name, "full") {
            Some(Visibility::full())
        } else {
            None
        }
    }
}

impl Default for Visibility {
    /// Everything hidden: busy blocks only.
    fn default() -> (v: Visibility)
        ensures
            v == spec_busy_only(),
    {
        Visibility::busy_only()
    }
}

} // verus!

verus! {

/// Which of the owner's events are included in a share at all.
#[derive(Clone, Debug, PartialEq, Eq)]
pub struct Filters {
    /// Restrict to these calendar sources. `None` means all sources.
    pub source_ids: Option<Vec<u128>>,
    /// Restrict to these categories (matched against the source category,
    /// ignoring ASCII case). `None` means all categories.
    pub categories: Option<Vec<String>>,
    /// Only include events whose RSVP status is in this list.
    pub rsvp: Vec<Rsvp>,
    /// Include events that do not block time (transparent / "free").
    pub include_free: bool,
    /// Include all-day events.
    pub include_all_day: bool,
    /// Include events marked tentative by the organizer.
    pub include_tentative: bool,
    /// How many days into the past the audience may look.
    pub horizon_past_days: i64,
    /// How many days into the future the audience may look.
    pub horizon_future_days: i64,
}

/// The RSVP states a share includes unless told otherwise: everything but
/// declined.
pub open spec fn default_rsvps() -> Seq<Rsvp> {
    seq![Rsvp::Organizer, Rsvp::Accepted, Rsvp::Tentative, Rsvp::NeedsAction, Rsvp::Unknown]
}

/// The filters of a share created without any: all sources and categories,
/// declined and free events excluded, all-day and tentative included, one
/// week back and ninety days ahead.
pub open spec fn is_default_filters(f: Filters) -> bool {
    &&& f.source_ids is None
    &&& f.categories is None
    &&& f.rsvp@ == default_rsvps()
    &&& !f.include_free
    &&& f.include_all_day
    &&& f.include_tentative
    &&& f.horizon_past_days == 7
    &&& f.horizon_future_days == 90
}

impl Default for Filters {
    fn default() -> (f: Filters)
        ensures
            is_default_filters(f),
    {
        let mut rsvp: Vec<Rsvp> = Vec::new();
        rsvp.push(Rsvp::Organizer);
        rsvp.push(Rsvp::Accepted);
        rsvp.push(Rsvp::Tentative);
        rsvp.push(Rsvp::NeedsAction);
        rsvp.push(Rsvp::Unknown);
        assert(rsvp@ =~= default_rsvps());
        Filters {
            source_ids: None,
            categories: None,
            rsvp,
            include_free: false,
            include_all_day: true,
            include_tentative: true,
            horizon_past_days: 7,
            horizon_future_days: 90,
        }
    }
}

pub open spec fn max_i(a: int, b: int) -> int {
    if a >= b { a } else { b }
}

pub open spec fn min_i(a: int, b: int) -> int {
    if a <= b { a } else { b }
}

/// The earliest instant a share lets its audience see, seen at `now`.
pub open spec fn horizon_start(f: Filters, now: i64) -> int {
    now - max_i(f.horizon_past_days as int, 0) * SECS_PER_DAY
}

/// The latest instant a share lets its audience see, seen at `now`.
pub open spec fn horizon_end(f: Filters, now: i64) -> int {
    now + max_i(f.horizon_future_days as int, 0) * SECS_PER_DAY
}

/// Whether the horizon of `f` seen at `now` is a representable window.
pub open spec fn horizon_fits(f: Filters, now: i64) -> bool {
    &&& max_i(f.horizon_past_days as int, 0) * SECS_PER_DAY <= i64::MAX
    &&& max_i(f.horizon_future_days as int, 0) * SECS_PER_DAY <= i64::MAX
    &&& i64::MIN <= horizon_start(f, now)
    &&& horizon_end(f, now) <= i64::MAX
}

impl Filters {
    /// Whether the horizon of these filters, seen at `now`, is a window of
    /// `i64` instants (the condition `clamp_window` needs).
    pub fn horizon_ok(&self, now: i64) -> (r: bool)
        ensures
            r == horizon_fits(*self, now),
    {
        let past: i128 = if self.horizon_past_days > 0 { self.horizon_past_days as i128 } else { 0 };
        let future: i128 = if self.horizon_future_days > 0 { self.horizon_future_days as i128 } else { 0 };
        let p = past * 86400;
        let f = future * 86400;
        p <= i64::MAX as i128 && f <= i64::MAX as i128 && i64::MIN as i128 <= now as i128 - p && now as i128 + f <= i64::MAX as i128
    }

    /// Clamp a requested window to the horizon this share permits.
    pub fn clamp_window(&self, from: i64, to: i64, now: i64) -> (r: (i64, i64))
        requires
            horizon_fits(*self, now),
        ensures
            r.0 == max_i(from as int, horizon_start(*self, now)),
            r.1 == min_i(to as int, horizon_end(*self, now)),
    {
        let past: i64 = if self.horizon_past_days > 0 { self.horizon_past_days } else { 0 };
        let future: i64 = if self.horizon_future_days > 0 { self.horizon_future_days } else { 0 };
        let min = now - past * 86400;
        let max = now + future * 86400;
        let a = if from >= min { from } else { min };
        let b = if to <= max { to } else { max };
        (a, b)
    }
}

/// A fully normalized event occurrence as read from the owner's store, before
/// projection. This is the input to [`project`].
#[derive(Clone, Debug)]
pub struct OwnerEvent {
    pub instance_id: u128,
    pub event_id: u128,
    pub source_id: u128,
    pub source_name: String,
    pub source_category: String,
    pub uid: String,
    pub start_at: i64,
    pub end_at: i64,
    pub all_day: bool,
    pub summary: Option<String>,
    pub description: Option<String>,
    pub location: Option<String>,
    pub status: EventStatus,
    pub transparency: Transparency,
    pub rsvp: Rsvp,
}

/// What a consumer of a share receives for one event occurrence.
#[derive(Clone, Debug, PartialEq, Eq)]
pub struct SharedEvent {
    /// Stable identifier for this occurrence; safe to expose.
    pub id: u128,
    pub start: i64,
    pub end: i64,
    pub all_day: bool,
    /// Always present: the whole point of sharing is knowing when time is taken.
    pub busy: bool,
    pub title: Option<String>,
    pub description: Option<String>,
    pub location: Option<String>,
    pub category: Option<String>,
    pub origin_calendar: Option<String>,
    pub rsvp: Option<Rsvp>,
}

/// Whether one of `cats` equals `c` ignoring ASCII case.
pub open spec fn category_listed(cats: Seq<String>, c: Seq<char>) -> bool {
    exists|i: int| 0 <= i < cats.len() && eq_ignore_case(#[trigger] cats[i]@, c)
}

/// Whether an owner event passes a share's filters.
pub open spec fn spec_included(f: Filters, ev: OwnerEvent) -> bool {
    &&& ev.status != EventStatus::Cancelled
    &&& (f.include_tentative || ev.status != EventStatus::Tentative)
    &&& (f.source_ids matches Some(ids) ==> ids@.contains(ev.source_id))
    &&& (f.categories matches Some(cats) ==> category_listed(cats@, ev.source_category@))
    &&& f.rsvp@.contains(ev.rsvp)
    &&& (f.include_free || ev.transparency != Transparency::Transparent)
    &&& (f.include_all_day || !ev.all_day)
}

fn contains_id(ids: &Vec<u128>, id: u128) -> (r: bool)
    ensures
        r == ids@.contains(id),
{
    let mut i: usize = 0;
    while i < ids.len()
        invariant
            i <= ids.len(),
            forall|k: int| 0 <= k < i ==> ids@[k] != id,
        decreases ids.len() - i,
    {
        if ids[i] == id {
            return true;
        }
        i = i + 1;
    }
    false
}

fn contains_rsvp(list: &Vec<Rsvp>, r: Rsvp) -> (b: bool)
    ensures
        b == list@.contains(r),
{
    let mut i: usize = 0;
    while i < list.len()
        invariant
            i <= list.len(),
            forall|k: int| 0 <= k < i ==> list@[k] != r,
        decreases list.len() - i,
    {
        if list[i] == r {
            return true;
        }
        i = i + 1;
    }
    false
}

fn any_category_matches(cats: &Vec<String>, c: &String) -> (b: bool)
    ensures
        b == category_listed(cats@, c@),
{
    let mut i: usize = 0;
    while i < cats.len()
        invariant
            i <= cats.len(),
            forall|k: int| 0 <= k < i ==> !eq_ignore_case(#[trigger] cats@[k]@, c@),
        decreases cats.len() - i,
    {
        if str_eq_ignore_case(cats[i].as_str(), c.as_str()) {
            return true;
        }
        i = i + 1;
    }
    false
}

/// Decide whether an owner event passes the share's filters.
pub fn included(filters: &Filters, ev: &OwnerEvent) -> (r: bool)
    ensures
        r == spec_included(*filters, *ev),
{
    if ev.status == EventStatus::Cancelled {
        return false;
    }
    if !filters.include_tentative && ev.status == EventStatus::Tentative {
        return false;
    }
    if let Some(ids) = &filters.source_ids {
        if !contains_id(ids, ev.source_id) {
            return false;
        }
    }
    if let Some(cats) = &filters.categories {
        if !any_category_matches(cats, &ev.source_category) {
            return false;
        }
    }
    if !contains_rsvp(&filters.rsvp, ev.rsvp) {
        return false;
    }
    if !filters.include_free && ev.transparency == Transparency::Transparent {
        return false;
    }
    if !filters.include_all_day && ev.all_day {
        return false;
    }
    true
}

/// Whether an owner event blocks the owner's time: opaque and not declined.
pub open spec fn blocks_time(ev: OwnerEvent) -> bool {
    ev.transparency == Transparency::Opaque && ev.rsvp != Rsvp::Declined
}

/// The projection of an owner event through a visibility mask.
pub open spec fn spec_project(vis: Visibility, ev: OwnerEvent) -> SharedEvent {
    SharedEvent {
        id: ev.instance_id,
        start: ev.start_at,
        end: ev.end_at,
        all_day: ev.all_day,
        busy: if vis.free_busy { blocks_time(ev) } else { true },
        title: if vis.title { ev.summary } else { None },
        description: if vis.description { ev.description } else { None },
        location: if vis.location { ev.location } else { None },
        category: if vis.category { Some(ev.source_category) } else { None },
        origin_calendar: if vis.origin_calendar { Some(ev.source_name) } else { None },
        rsvp: if vis.rsvp { Some(ev.rsvp) } else { None },
    }
}

fn clone_opt(s: &Option<String>) -> (r: Option<String>)
    ensures
        r == *s,
{
    match s {
        Some(v) => Some(v.clone()),
        None => None,
    }
}

/// Project an owner event through a visibility mask.
pub fn project(vis: &Visibility, ev: &OwnerEvent) -> (r: SharedEvent)
    ensures
        r == spec_project(*vis, *ev),
{
    let busy = ev.transparency == Transparency::Opaque && ev.rsvp != Rsvp::Declined;
    SharedEvent {
        id: ev.instance_id,
        start: ev.start_at,
        end: ev.end_at,
        all_day: ev.all_day,
        // When free/busy is hidden, everything included is reported as busy.
        busy: if vis.free_busy { busy } else { true },
        title: if vis.title { clone_opt(&ev.summary) } else { None },
        description: if vis.description { clone_opt(&ev.description) } else { None },
        location: if vis.location { clone_opt(&ev.location) } else { None },
        category: if vis.category { Some(ev.source_category.clone()) } else { None },
        origin_calendar: if vis.origin_calendar { Some(ev.source_name.clone()) } else { None },
        rsvp: if vis.rsvp { Some(ev.rsvp) } else { None },
    }
}

} // verus!

verus! {

/// The order in which shared events are delivered: by start, then by end.
pub open spec fn starts_no_later(a: SharedEvent, b: SharedEvent) -> bool {
    a.start < b.start || (a.start == b.start && a.end <= b.end)
}

/// `s` with `x` placed after every element that does not come after it.
pub open spec fn insert_in_order(s: Seq<SharedEvent>, x: SharedEvent) -> Seq<SharedEvent>
    decreases s.len(),
{
    if s.len() == 0 || starts_no_later(s.last(), x) {
        s.push(x)
    } else {
        insert_in_order(s.drop_last(), x).push(s.last())
    }
}

/// Stable sort by (start, end): equal keys keep their input order.
pub open spec fn sort_by_start_end(s: Seq<SharedEvent>) -> Seq<SharedEvent>
    decreases s.len(),
{
    if s.len() == 0 {
        s
    } else {
        insert_in_order(sort_by_start_end(s.drop_last()), s.last())
    }
}

/// The projections of the included events, in input order.
pub open spec fn select_and_project(vis: Visibility, f: Filters, events: Seq<OwnerEvent>) -> Seq<SharedEvent>
    decreases events.len(),
{
    if events.len() == 0 {
        Seq::empty()
    } else {
        let rest = select_and_project(vis, f, events.drop_last());
        if spec_included(f, events.last()) {
            rest.push(spec_project(vis, events.last()))
        } else {
            rest
        }
    }
}

/// What a share yields for a list of owner events.
pub open spec fn spec_project_all(vis: Visibility, f: Filters, events: Seq<OwnerEvent>) -> Seq<SharedEvent> {
    sort_by_start_end(select_and_project(vis, f, events))
}

proof fn lemma_insert_at(s: Seq<SharedEvent>, x: SharedEvent, p: int)
    requires
        0 <= p <= s.len(),
        p == 0 || starts_no_later(s[p - 1], x),
        forall|j: int| p <= j < s.len() ==> !starts_no_later(#[trigger] s[j], x),
    ensures
        insert_in_order(s, x) == s.insert(p, x),
    decreases s.len(),
{
    if s.len() == p {
        assert(s.insert(p, x) =~= s.push(x));
    } else {
        let t = s.drop_last();
        lemma_insert_at(t, x, p);
        assert(s.insert(p, x) =~= t.insert(p, x).push(s.last()));
    }
}

fn insert_ordered(v: &mut Vec<SharedEvent>, x: SharedEvent)
    ensures
        final(v)@ == insert_in_order(old(v)@, x),
{
    let mut p = v.len();
    while p > 0 && !(v[p - 1].start < x.start || (v[p - 1].start == x.start && v[p - 1].end <= x.end))
        invariant
            p <= v.len(),
            v@ == old(v)@,
            forall|j: int| p <= j < v.len() ==> !starts_no_later(#[trigger] v@[j], x),
        decreases p,
    {
        p = p - 1;
    }
    proof {
        lemma_insert_at(v@, x, p as int);
    }
    v.insert(p, x);
}

/// Apply filters and visibility to a list of owner events, ordered by start
/// and end.
pub fn project_all(vis: &Visibility, filters: &Filters, events: &[OwnerEvent]) -> (out: Vec<SharedEvent>)
    ensures
        out@ == spec_project_all(*vis, *filters, events@),
{
    let mut out: Vec<SharedEvent> = Vec::new();
    let mut i: usize = 0;
    while i < events.len()
        invariant
            i <= events.len(),
            out@ == sort_by_start_end(select_and_project(*vis, *filters, events@.take(i as int))),
        decreases events.len() - i,
    {
        proof {
            assert(events@.take(i + 1).drop_last() =~= events@.take(i as int));
        }
        let ghost prefix = events@.take(i + 1);
        let ghost rest = select_and_project(*vis, *filters, events@.take(i as int));
        assert(prefix.last() == events@[i as int]);
        if included(filters, &events[i]) {
            let p = project(vis, &events[i]);
            insert_ordered(&mut out, p);
            assert(rest.push(p).drop_last() =~= rest);
        }
        i = i + 1;
    }
    proof {
        assert(events@.take(events.len() as int) =~= events@);
    }
    out
}

} // verus!

verus! {

/// Whether `s` is ordered by (start, end).
pub open spec fn ordered_by_start_end(s: Seq<SharedEvent>) -> bool {
    forall|i: int, j: int| 0 <= i < j < s.len() ==> starts_no_later(#[trigger] s[i], #[trigger] s[j])
}

proof fn lemma_insert_bounded(s: Seq<SharedEvent>, x: SharedEvent, y: SharedEvent)
    requires
        forall|i: int| 0 <= i < s.len() ==> starts_no_later(#[trigger] s[i], y),
        starts_no_later(x, y),
    ensures
        forall|i: int| 0 <= i < insert_in_order(s, x).len() ==> starts_no_later(#[trigger] insert_in_order(s, x)[i], y),
        insert_in_order(s, x).len() == s.len() + 1,
    decreases s.len(),
{
    if s.len() == 0 || starts_no_later(s.last(), x) {
    } else {
        lemma_insert_bounded(s.drop_last(), x, y);
    }
}

proof fn lemma_insert_ordered(s: Seq<SharedEvent>, x: SharedEvent)
    requires
        ordered_by_start_end(s),
    ensures
        ordered_by_start_end(insert_in_order(s, x)),
        insert_in_order(s, x).to_multiset() == s.to_multiset().insert(x),
    decreases s.len(),
{
    broadcast use vstd::seq_lib::group_to_multiset_ensures;
    if s.len() == 0 || starts_no_later(s.last(), x) {
        let r = s.push(x);
        assert forall|i: int, j: int| 0 <= i < j < r.len() implies starts_no_later(#[trigger] r[i], #[trigger] r[j]) by {
            if j == s.len() {
                assert(starts_no_later(s[i], s.last()) || i == s.len() - 1);
            }
        }
    } else {
        let t = s.drop_last();
        assert(ordered_by_start_end(t));
        lemma_insert_ordered(t, x);
        assert forall|i: int| 0 <= i < t.len() implies starts_no_later(#[trigger] t[i], s.last()) by {
            assert(s[i] == t[i]);
        }
        lemma_insert_bounded(t, x, s.last());
        assert(t.push(s.last()) =~= s);
    }
}

proof fn lemma_sort_ordered(s: Seq<SharedEvent>)
    ensures
        ordered_by_start_end(sort_by_start_end(s)),
        sort_by_start_end(s).to_multiset() == s.to_multiset(),
    decreases s.len(),
{
    broadcast use vstd::seq_lib::group_to_multiset_ensures;
    if s.len() > 0 {
        lemma_sort_ordered(s.drop_last());
        lemma_insert_ordered(sort_by_start_end(s.drop_last()), s.last());
        assert(s.drop_last().push(s.last()) =~= s);
    }
}

/// What a share yields is ordered by start and then end, and consists of
/// exactly the projections of the included events, each once.
pub proof fn law_project_all_is_ordered_selection(vis: Visibility, f: Filters, events: Seq<OwnerEvent>)
    ensures
        ordered_by_start_end(spec_project_all(vis, f, events)),
        spec_project_all(vis, f, events).to_multiset() == select_and_project(vis, f, events).to_multiset(),
{
    lemma_sort_ordered(select_and_project(vis, f, events));
}

/// Whether `x` is the projection of some included event of `events`.
pub open spec fn projects_an_included(vis: Visibility, f: Filters, events: Seq<OwnerEvent>, x: SharedEvent) -> bool {
    exists|i: int| 0 <= i < events.len() && spec_included(f, #[trigger] events[i]) && x == spec_project(vis, events[i])
}

/// Every event in a projection list is the projection of an included event.
pub proof fn law_selection_only_holds_included(vis: Visibility, f: Filters, events: Seq<OwnerEvent>)
    ensures
        forall|k: int| 0 <= k < select_and_project(vis, f, events).len() ==>
            projects_an_included(vis, f, events, #[trigger] select_and_project(vis, f, events)[k]),
    decreases events.len(),
{
    if events.len() > 0 {
        let t = events.drop_last();
        law_selection_only_holds_included(vis, f, t);
        let r = select_and_project(vis, f, events);
        let rt = select_and_project(vis, f, t);
        assert forall|k: int| 0 <= k < r.len() implies projects_an_included(vis, f, events, #[trigger] r[k]) by {
            if k < rt.len() {
                assert(projects_an_included(vis, f, t, rt[k]));
                let i = choose|i: int| 0 <= i < t.len() && spec_included(f, #[trigger] t[i]) && rt[k] == spec_project(vis, t[i]);
                assert(events[i] == t[i]);
            } else {
                assert(events[events.len() - 1] == events.last());
            }
        }
    }
}

/// A field hidden by the visibility is never part of a projection, and the
/// time of an event is always part of it.
pub proof fn law_projection_reveals_only_visible(vis: Visibility, ev: OwnerEvent)
    ensures
        !vis.title ==> spec_project(vis, ev).title is None,
        !vis.description ==> spec_project(vis, ev).description is None,
        !vis.location ==> spec_project(vis, ev).location is None,
        !vis.category ==> spec_project(vis, ev).category is None,
        !vis.origin_calendar ==> spec_project(vis, ev).origin_calendar is None,
        !vis.rsvp ==> spec_project(vis, ev).rsvp is None,
        !vis.free_busy ==> spec_project(vis, ev).busy,
        spec_project(vis, ev).start == ev.start_at,
        spec_project(vis, ev).end == ev.end_at,
{
}

/// Under "busy only" an event is a bare busy block: its time and nothing else.
pub proof fn law_busy_only_is_a_bare_block(ev: OwnerEvent)
    ensures
        spec_project(spec_busy_only(), ev) == (SharedEvent {
            id: ev.instance_id,
            start: ev.start_at,
            end: ev.end_at,
            all_day: ev.all_day,
            busy: true,
            title: None,
            description: None,
            location: None,
            category: None,
            origin_calendar: None,
            rsvp: None,
        }),
{
}

/// The presets are nested: each one reveals everything the previous one does.
pub proof fn law_presets_are_nested()
    ensures
        reveals_at_most(spec_busy_only(), spec_category()),
        reveals_at_most(spec_category(), spec_details()),
        reveals_at_most(spec_details(), spec_full()),
        !spec_details().description,
{
}

/// With the default filters, cancelled, declined and free events are never
/// shared.
pub proof fn law_default_filters_exclude_declined_and_free(f: Filters, ev: OwnerEvent)
    requires
        is_default_filters(f),
    ensures
        ev.rsvp == Rsvp::Declined ==> !spec_included(f, ev),
        ev.transparency == Transparency::Transparent ==> !spec_included(f, ev),
        ev.status == EventStatus::Cancelled ==> !spec_included(f, ev),
{
    if ev.rsvp == Rsvp::Declined {
        assert(!default_rsvps().contains(Rsvp::Declined)) by {
            if default_rsvps().contains(Rsvp::Declined) {
                let i = choose|i: int| 0 <= i < default_rsvps().len() && default_rsvps()[i] == Rsvp::Declined;
            }
        }
    }
}

/// A clamped window never reaches outside the share's horizon nor outside
/// the requested window.
pub proof fn law_clamped_window_within_horizon(f: Filters, from: i64, to: i64, now: i64, r: (i64, i64))
    requires
        r.0 == max_i(from as int, horizon_start(f, now)),
        r.1 == min_i(to as int, horizon_end(f, now)),
    ensures
        horizon_start(f, now) <= r.0,
        r.1 <= horizon_end(f, now),
        from <= r.0,
        r.1 <= to,
{
}

} // verus!

verus! {

/// A free slot in a window.
#[derive(Clone, Copy, Debug, PartialEq, Eq, Structural)]
pub struct FreeSlot {
    pub start: i64,
    pub end: i64,
    pub duration_minutes: i64,
}

/// Whether instant `t` lies in one of the busy intervals `[start, end)`.
pub open spec fn busy_at(busy: Seq<(i64, i64)>, t: int) -> bool {
    exists|i: int| 0 <= i < busy.len() && (#[trigger] busy[i]).0 <= t < busy[i].1
}

/// Whether `[a, b)` is a maximal run of free time inside `[from, to)`: it is
/// non-empty, nothing in it is busy, and it cannot be extended on either side.
pub open spec fn is_free_run(from: int, to: int, busy: Seq<(i64, i64)>, a: int, b: int) -> bool {
    &&& from <= a < b <= to
    &&& forall|t: int| a <= t < b ==> !#[trigger] busy_at(busy, t)
    &&& (a == from || busy_at(busy, a - 1))
    &&& (b == to || busy_at(busy, b))
}

/// Whether a free run is long enough to be reported.
pub open spec fn slot_long_enough(a: int, b: int, min_secs: int) -> bool {
    b - a >= min_secs && b - a > 0
}

/// The slot reported for a free run `[a, b)`.
pub open spec fn slot_for(a: int, b: int) -> FreeSlot {
    FreeSlot { start: a as i64, end: b as i64, duration_minutes: ((b - a) / 60) as i64 }
}

// ---- the interval lists the computation goes through ------------------------

/// Interval `iv` contains `t`.
pub open spec fn covers(iv: (i64, i64), t: int) -> bool {
    iv.0 <= t < iv.1
}

/// Non-empty intervals inside `[from, to)`.
pub open spec fn within(ivs: Seq<(i64, i64)>, from: int, to: int) -> bool {
    forall|k: int| 0 <= k < ivs.len() ==> from <= (#[trigger] ivs[k]).0 < ivs[k].1 <= to
}

/// Lexicographic order on intervals.
pub open spec fn pair_le(a: (i64, i64), b: (i64, i64)) -> bool {
    a.0 < b.0 || (a.0 == b.0 && a.1 <= b.1)
}

pub open spec fn pairs_sorted(s: Seq<(i64, i64)>) -> bool {
    forall|i: int, j: int| 0 <= i < j < s.len() ==> pair_le(#[trigger] s[i], #[trigger] s[j])
}

/// Pairwise separated and ordered: each interval ends strictly before the
/// next one starts.
pub open spec fn separated(m: Seq<(i64, i64)>) -> bool {
    forall|i: int, j: int| 0 <= i < j < m.len() ==> (#[trigger] m[i]).1 < (#[trigger] m[j]).0
}

/// Start of the `k`-th gap left by the separated intervals `m` in `[from, to)`.
pub open spec fn gap_start(m: Seq<(i64, i64)>, from: int, k: int) -> int {
    if k == 0 { from } else { m[k - 1].1 as int }
}

/// End of the `k`-th gap.
pub open spec fn gap_end(m: Seq<(i64, i64)>, to: int, k: int) -> int {
    if k == m.len() { to } else { m[k].0 as int }
}

/// The reported slots among the first `n` gaps.
pub open spec fn gap_slots(m: Seq<(i64, i64)>, from: int, to: int, min_secs: int, n: int) -> Seq<FreeSlot>
    decreases n,
{
    if n <= 0 {
        Seq::empty()
    } else {
        let rest = gap_slots(m, from, to, min_secs, n - 1);
        let a = gap_start(m, from, n - 1);
        let b = gap_end(m, to, n - 1);
        if slot_long_enough(a, b, min_secs) { rest.push(slot_for(a, b)) } else { rest }
    }
}

fn push_slot(slots: &mut Vec<FreeSlot>, start: i64, end: i64, min: i64)
    requires
        start <= end,
        end - start <= i64::MAX,
    ensures
        final(slots)@ == if slot_long_enough(start as int, end as int, min as int) {
            old(slots)@.push(slot_for(start as int, end as int))
        } else {
            old(slots)@
        },
{
    let dur = end - start;
    if dur >= min && dur > 0 {
        slots.push(FreeSlot { start, end, duration_minutes: dur / 60 });
    }
}

fn insert_interval(v: &mut Vec<(i64, i64)>, x: (i64, i64))
    requires
        pairs_sorted(old(v)@),
    ensures
        pairs_sorted(final(v)@),
        final(v)@.to_multiset() == old(v)@.to_multiset().insert(x),
{
    let mut p = v.len();
    while p > 0 && !(v[p - 1].0 < x.0 || (v[p - 1].0 == x.0 && v[p - 1].1 <= x.1))
        invariant
            p <= v.len(),
            v@ == old(v)@,
            forall|j: int| p <= j < v.len() ==> !pair_le(#[trigger] v@[j], x),
        decreases p,
    {
        p = p - 1;
    }
    let ghost s = v@;
    v.insert(p, x);
    proof {
        broadcast use vstd::seq_lib::group_to_multiset_ensures;
        vstd::seq_lib::to_multiset_insert(s, p as int, x);
        s.insert_ensures(p as int, x);
        let r = v@;
        assert forall|i: int, j: int| 0 <= i < j < r.len() implies pair_le(#[trigger] r[i], #[trigger] r[j]) by {
            if j < p {
            } else if j == p {
                if i < p - 1 {
                    assert(pair_le(s[i], s[p - 1]));
                }
            } else if i < p {
                if i < p - 1 {
                    assert(pair_le(s[i], s[p - 1]));
                }
                assert(!pair_le(s[j - 1], x));
                if i == p - 1 { } else { assert(pair_le(s[i], s[j - 1])); }
            } else if i == p {
                assert(!pair_le(s[j - 1], x));
            } else {
                assert(pair_le(s[i - 1], s[j - 1]));
            }
        }
    }
}

} // verus!

verus! {

/// The busy time of `busy` and of `m` agree inside `[from, to)`.
pub open spec fn same_busy_time(busy: Seq<(i64, i64)>, m: Seq<(i64, i64)>, from: int, to: int) -> bool {
    forall|t: int| from <= t < to ==> (busy_at(busy, t) <==> #[trigger] busy_at(m, t))
}

proof fn lemma_gap_is_run(m: Seq<(i64, i64)>, from: int, to: int, busy: Seq<(i64, i64)>, k: int)
    requires
        within(m, from, to),
        separated(m),
        same_busy_time(busy, m, from, to),
        0 <= k <= m.len(),
        gap_start(m, from, k) < gap_end(m, to, k),
    ensures
        is_free_run(from, to, busy, gap_start(m, from, k), gap_end(m, to, k)),
{
    let a = gap_start(m, from, k);
    let b = gap_end(m, to, k);
    if k > 0 {
        assert(from <= m[k - 1].0);
    }
    if k < m.len() {
        assert(m[k].1 <= to);
    }
    assert forall|t: int| a <= t < b implies !#[trigger] busy_at(busy, t) by {
        if busy_at(m, t) {
            let j = choose|j: int| 0 <= j < m.len() && (#[trigger] m[j]).0 <= t < m[j].1;
            if j < k {
                if j < k - 1 {
                    assert(m[j].1 < m[k - 1].0);
                }
            } else if j > k {
                assert(m[k].1 < m[j].0);
            }
        }
    }
    if k > 0 {
        assert(covers(m[k - 1], a - 1));
        assert(busy_at(m, a - 1));
    }
    if k < m.len() {
        assert(covers(m[k], b));
        assert(busy_at(m, b));
    }
}

proof fn lemma_run_is_gap(m: Seq<(i64, i64)>, from: int, to: int, busy: Seq<(i64, i64)>, k: int, a: int, b: int)
    requires
        within(m, from, to),
        separated(m),
        same_busy_time(busy, m, from, to),
        0 <= k <= m.len(),
        is_free_run(from, to, busy, a, b),
        gap_start(m, from, k) <= a,
        k < m.len() ==> a < m[k].0,
    ensures
        a == gap_start(m, from, k),
        b == gap_end(m, to, k),
{
    assert(!busy_at(busy, a));
    assert(!busy_at(m, a));
    if a == from {
        if k > 0 {
            assert(from <= m[k - 1].0);
        }
    } else {
        assert(busy_at(m, a - 1));
        let j = choose|j: int| 0 <= j < m.len() && (#[trigger] m[j]).0 <= a - 1 < m[j].1;
        if a < m[j].1 {
            assert(covers(m[j], a));
        }
        if j < k - 1 {
            assert(m[j].1 < m[k - 1].0);
        }
        if j >= k {
            if j > k {
                assert(m[k].1 < m[j].0);
            }
        }
        assert(j == k - 1);
    }
    if k == m.len() {
        if b != to {
            assert(busy_at(m, b));
            let j = choose|j: int| 0 <= j < m.len() && (#[trigger] m[j]).0 <= b < m[j].1;
            if j < k - 1 {
                assert(m[j].1 < m[k - 1].0);
            }
        }
    } else {
        if b > m[k].0 {
            assert(covers(m[k], m[k].0 as int));
            assert(busy_at(m, m[k].0 as int));
            assert(!busy_at(busy, m[k].0 as int));
        }
        if b < m[k].0 {
            assert(b != to);
            assert(busy_at(m, b));
            let j = choose|j: int| 0 <= j < m.len() && (#[trigger] m[j]).0 <= b < m[j].1;
            if j > k {
                assert(m[k].1 < m[j].0);
            }
            if j < k - 1 {
                assert(m[j].1 < m[k - 1].0);
            }
        }
    }
}

proof fn lemma_busy_after_insert(s: Seq<(i64, i64)>, s2: Seq<(i64, i64)>, x: (i64, i64), t: int)
    requires
        s2.to_multiset() == s.to_multiset().insert(x),
    ensures
        busy_at(s2, t) == (busy_at(s, t) || covers(x, t)),
        forall|y: (i64, i64)| s2.contains(y) <==> (s.contains(y) || y == x),
{
    broadcast use vstd::seq_lib::group_to_multiset_ensures;
    broadcast use vstd::multiset::group_multiset_axioms;
    assert forall|y: (i64, i64)| s2.contains(y) <==> (s.contains(y) || y == x) by {
        assert(s2.contains(y) <==> s2.to_multiset().count(y) > 0);
        assert(s.contains(y) <==> s.to_multiset().count(y) > 0);
    }
    if busy_at(s2, t) {
        let i = choose|i: int| 0 <= i < s2.len() && (#[trigger] s2[i]).0 <= t < s2[i].1;
        assert(s2.contains(s2[i]));
        if s2[i] != x {
            assert(s.contains(s2[i]));
            let j = choose|j: int| 0 <= j < s.len() && s[j] == s2[i];
            assert(covers(s[j], t));
        }
    }
    if busy_at(s, t) {
        let j = choose|j: int| 0 <= j < s.len() && (#[trigger] s[j]).0 <= t < s[j].1;
        assert(s.contains(s[j]));
        assert(s2.contains(s[j]));
        let i = choose|i: int| 0 <= i < s2.len() && s2[i] == s[j];
        assert(covers(s2[i], t));
    }
    if covers(x, t) {
        assert(s2.contains(x));
        let i = choose|i: int| 0 <= i < s2.len() && s2[i] == x;
        assert(covers(s2[i], t));
    }
}

} // verus!

verus! {

/// Compute free slots in `[from, to)` given busy intervals from any number of
/// calendars. Overlapping busy intervals are merged first; slots shorter than
/// `min_duration_secs` are dropped.
pub fn free_slots(from: i64, to: i64, busy: &[(i64, i64)], min_duration_secs: i64) -> (slots: Vec<FreeSlot>)
    requires
        to - from <= i64::MAX,
    ensures
        forall|k: int| 0 <= k < slots.len() ==> {
            &&& is_free_run(from as int, to as int, busy@, (#[trigger] slots[k]).start as int, slots[k].end as int)
            &&& slot_long_enough(slots[k].start as int, slots[k].end as int, min_duration_secs as int)
            &&& slots[k] == slot_for(slots[k].start as int, slots[k].end as int)
        },
        forall|k: int, l: int| 0 <= k < l < slots.len() ==> (#[trigger] slots[k]).end < (#[trigger] slots[l]).start,
        forall|a: int, b: int|
            is_free_run(from as int, to as int, busy@, a, b) && slot_long_enough(a, b, min_duration_secs as int)
                ==> exists|k: int| 0 <= k < slots.len() && (#[trigger] slots[k]).start == a && slots[k].end == b,
{
    let mut slots: Vec<FreeSlot> = Vec::new();
    if to <= from {
        return slots;
    }
    // Clip the busy intervals to the window, keeping them sorted.
    let mut intervals: Vec<(i64, i64)> = Vec::new();
    let mut i: usize = 0;
    while i < busy.len()
        invariant
            from < to,
            i <= busy.len(),
            within(intervals@, from as int, to as int),
            pairs_sorted(intervals@),
            same_busy_time(busy@.take(i as int), intervals@, from as int, to as int),
        decreases busy.len() - i,
    {
        let (s, e) = busy[i];
        let ghost old_iv = intervals@;
        let ghost pre = busy@.take(i as int);
        let ghost post = busy@.take(i + 1);
        proof {
            assert(post =~= pre.push((s, e)));
            assert forall|t: int| busy_at(post, t) == (busy_at(pre, t) || covers((s, e), t)) by {
                if busy_at(post, t) {
                    let j = choose|j: int| 0 <= j < post.len() && (#[trigger] post[j]).0 <= t < post[j].1;
                    if j < pre.len() {
                        assert(pre[j] == post[j]);
                    }
                }
                if busy_at(pre, t) {
                    let j = choose|j: int| 0 <= j < pre.len() && (#[trigger] pre[j]).0 <= t < pre[j].1;
                    assert(post[j] == pre[j]);
                }
                if covers((s, e), t) {
                    assert(post[pre.len() as int] == (s, e));
                }
            }
        }
        if e > s && e > from && s < to {
            let cs = if s >= from { s } else { from };
            let ce = if e <= to { e } else { to };
            insert_interval(&mut intervals, (cs, ce));
            proof {
                assert forall|t: int| from <= t < to implies (busy_at(post, t) <==> #[trigger] busy_at(intervals@, t)) by {
                    lemma_busy_after_insert(old_iv, intervals@, (cs, ce), t);
                }
                assert forall|k: int| 0 <= k < intervals@.len() implies from <= (#[trigger] intervals@[k]).0 < intervals@[k].1 <= to by {
                    lemma_busy_after_insert(old_iv, intervals@, (cs, ce), 0);
                    assert(intervals@.contains(intervals@[k]));
                    if intervals@[k] != (cs, ce) {
                        let j = choose|j: int| 0 <= j < old_iv.len() && old_iv[j] == intervals@[k];
                    }
                }
            }
        }
        i = i + 1;
    }
    proof {
        assert(busy@.take(busy.len() as int) =~= busy@);
    }

    // Merge overlapping (and touching) intervals.
    let mut merged: Vec<(i64, i64)> = Vec::new();
    let mut i: usize = 0;
    while i < intervals.len()
        invariant
            from < to,
            i <= intervals.len(),
            within(intervals@, from as int, to as int),
            pairs_sorted(intervals@),
            within(merged@, from as int, to as int),
            separated(merged@),
            forall|t: int| busy_at(intervals@.take(i as int), t) <==> #[trigger] busy_at(merged@, t),
            i == 0 ==> merged.len() == 0,
            i > 0 ==> merged.len() > 0 && merged@.last().0 <= intervals@[i - 1].0,
        decreases intervals.len() - i,
    {
        let (s, e) = intervals[i];
        let ghost old_m = merged@;
        let ghost pre = intervals@.take(i as int);
        let ghost post = intervals@.take(i + 1);
        proof {
            assert(post =~= pre.push((s, e)));
            assert forall|t: int| busy_at(post, t) == (busy_at(pre, t) || covers((s, e), t)) by {
                if busy_at(post, t) {
                    let j = choose|j: int| 0 <= j < post.len() && (#[trigger] post[j]).0 <= t < post[j].1;
                    if j < pre.len() {
                        assert(pre[j] == post[j]);
                    }
                }
                if busy_at(pre, t) {
                    let j = choose|j: int| 0 <= j < pre.len() && (#[trigger] pre[j]).0 <= t < pre[j].1;
                    assert(post[j] == pre[j]);
                }
                if covers((s, e), t) {
                    assert(post[pre.len() as int] == (s, e));
                }
            }
            if i > 0 {
                assert(pair_le(intervals@[i - 1], intervals@[i as int]));
            }
        }
        let n = merged.len();
        if n > 0 && s <= merged[n - 1].1 {
            let last = merged[n - 1];
            let ne = if e > last.1 { e } else { last.1 };
            merged.set(n - 1, (last.0, ne));
            proof {
                let m = merged@;
                assert forall|t: int| busy_at(post, t) <==> #[trigger] busy_at(m, t) by {
                    if busy_at(m, t) {
                        let j = choose|j: int| 0 <= j < m.len() && (#[trigger] m[j]).0 <= t < m[j].1;
                        if j < n - 1 {
                            assert(old_m[j] == m[j]);
                            assert(busy_at(old_m, t));
                        } else if t < last.1 {
                            assert(covers(old_m[j], t));
                            assert(busy_at(old_m, t));
                        }
                    }
                    if busy_at(old_m, t) {
                        let j = choose|j: int| 0 <= j < old_m.len() && (#[trigger] old_m[j]).0 <= t < old_m[j].1;
                        assert(covers(m[j], t));
                    }
                    if covers((s, e), t) {
                        assert(covers(m[n - 1], t));
                    }
                }
                assert forall|a: int, b: int| 0 <= a < b < m.len() implies (#[trigger] m[a]).1 < (#[trigger] m[b]).0 by {
                    assert(old_m[a].1 < old_m[b].0);
                }
            }
        } else {
            merged.push((s, e));
            proof {
                let m = merged@;
                assert forall|t: int| busy_at(post, t) <==> #[trigger] busy_at(m, t) by {
                    if busy_at(m, t) {
                        let j = choose|j: int| 0 <= j < m.len() && (#[trigger] m[j]).0 <= t < m[j].1;
                        if j < n {
                            assert(old_m[j] == m[j]);
                            assert(busy_at(old_m, t));
                        }
                    }
                    if busy_at(old_m, t) {
                        let j = choose|j: int| 0 <= j < old_m.len() && (#[trigger] old_m[j]).0 <= t < old_m[j].1;
                        assert(covers(m[j], t));
                    }
                    if covers((s, e), t) {
                        assert(covers(m[n as int], t));
                    }
                }
                assert forall|a: int, b: int| 0 <= a < b < m.len() implies (#[trigger] m[a]).1 < (#[trigger] m[b]).0 by {
                    if b == n {
                        if a < n - 1 {
                            assert(old_m[a].1 < old_m[n - 1].0);
                        }
                    } else {
                        assert(old_m[a].1 < old_m[b].0);
                    }
                }
            }
        }
        i = i + 1;
    }
    proof {
        assert(intervals@.take(intervals.len() as int) =~= intervals@);
    }
    let ghost m = merged@;
    assert(same_busy_time(busy@, m, from as int, to as int));

    // The gaps between the merged intervals are the free slots.
    let mut cursor = from;
    let mut k: usize = 0;
    while k < merged.len()
        invariant
            from < to,
            to - from <= i64::MAX,
            merged@ == m,
            within(m, from as int, to as int),
            separated(m),
            same_busy_time(busy@, m, from as int, to as int),
            k <= m.len(),
            cursor == gap_start(m, from as int, k as int),
            from <= cursor <= to,
            forall|q: int| 0 <= q < slots.len() ==> {
                &&& is_free_run(from as int, to as int, busy@, (#[trigger] slots@[q]).start as int, slots@[q].end as int)
                &&& slot_long_enough(slots@[q].start as int, slots@[q].end as int, min_duration_secs as int)
                &&& slots@[q] == slot_for(slots@[q].start as int, slots@[q].end as int)
                &&& slots@[q].end < cursor || (k == 0)
            },
            k == 0 ==> slots.len() == 0,
            forall|q: int, l: int| 0 <= q < l < slots.len() ==> (#[trigger] slots@[q]).end < (#[trigger] slots@[l]).start,
            forall|a: int, b: int|
                is_free_run(from as int, to as int, busy@, a, b) && slot_long_enough(a, b, min_duration_secs as int) && a < cursor
                    ==> exists|q: int| 0 <= q < slots.len() && (#[trigger] slots@[q]).start == a && slots@[q].end == b,
        decreases m.len() - k,
    {
        let (s, e) = merged[k];
        proof {
            if k > 0 {
                assert(m[k - 1].1 < m[k as int].0);
            }
        }
        let ghost old_slots = slots@;
        if s > cursor {
            push_slot(&mut slots, cursor, s, min_duration_secs);
            proof {
                lemma_gap_is_run(m, from as int, to as int, busy@, k as int);
            }
        }
        proof {
            assert forall|a: int, b: int|
                is_free_run(from as int, to as int, busy@, a, b) && slot_long_enough(a, b, min_duration_secs as int) && a < e
                    implies exists|q: int| 0 <= q < slots.len() && (#[trigger] slots@[q]).start == a && slots@[q].end == b by {
                if a < cursor {
                    let q = choose|q: int| 0 <= q < old_slots.len() && (#[trigger] old_slots[q]).start == a && old_slots[q].end == b;
                    assert(slots@[q] == old_slots[q]);
                } else {
                    if a >= s {
                        assert(covers(m[k as int], a));
                        assert(busy_at(m, a));
                    }
                    lemma_run_is_gap(m, from as int, to as int, busy@, k as int, a, b);
                    assert(slots@[slots.len() - 1].start == a);
                }
            }
        }
        cursor = if cursor >= e { cursor } else { e };
        k = k + 1;
    }
    let ghost old_slots = slots@;
    if to > cursor {
        push_slot(&mut slots, cursor, to, min_duration_secs);
        proof {
            lemma_gap_is_run(m, from as int, to as int, busy@, m.len() as int);
        }
    }
    proof {
        assert forall|a: int, b: int|
            is_free_run(from as int, to as int, busy@, a, b) && slot_long_enough(a, b, min_duration_secs as int)
                implies exists|q: int| 0 <= q < slots.len() && (#[trigger] slots@[q]).start == a && slots@[q].end == b by {
            if a < cursor {
                let q = choose|q: int| 0 <= q < old_slots.len() && (#[trigger] old_slots[q]).start == a && old_slots[q].end == b;
                assert(slots@[q] == old_slots[q]);
            } else {
                lemma_run_is_gap(m, from as int, to as int, busy@, m.len() as int, a, b);
                assert(slots@[slots.len() - 1].start == a);
            }
        }
    }
    slots
}


/// Every filter of a share excludes what it says: an included event is not
/// cancelled; it is tentative, free or all-day only when the filters let
/// such events in; its RSVP is one the filters list; and it comes from a
/// listed calendar and category when the filters list them.
pub proof fn law_included_events_pass_every_filter(f: Filters, ev: OwnerEvent)
    requires
        spec_included(f, ev),
    ensures
        ev.status != EventStatus::Cancelled,
        !f.include_tentative ==> ev.status != EventStatus::Tentative,
        !f.include_free ==> ev.transparency != Transparency::Transparent,
        !f.include_all_day ==> !ev.all_day,
        exists|i: int| 0 <= i < f.rsvp@.len() && f.rsvp@[i] == ev.rsvp,
        f.source_ids matches Some(ids) ==> exists|i: int| 0 <= i < ids@.len() && ids@[i] == ev.source_id,
        f.categories matches Some(cats) ==> exists|i: int| 0 <= i < cats@.len() && eq_ignore_case(cats@[i]@, ev.source_category@),
{
}

/// Filters that let everything in include every event that is not
/// cancelled and whose RSVP they list.
pub proof fn law_open_filters_include_everything_listed(f: Filters, ev: OwnerEvent)
    requires
        f.source_ids is None,
        f.categories is None,
        f.include_free,
        f.include_all_day,
        f.include_tentative,
        f.rsvp@.contains(ev.rsvp),
    ensures
        spec_included(f, ev) <==> ev.status != EventStatus::Cancelled,
{
}

/// The all-day filter only concerns all-day events: for any other event,
/// switching it changes nothing; an all-day event is included with it off
/// only if it is with it on.
pub proof fn law_all_day_filter_only_drops_all_day_events(f: Filters, ev: OwnerEvent)
    ensures
        !ev.all_day ==> spec_included(Filters { include_all_day: false, ..f }, ev) == spec_included(
            Filters { include_all_day: true, ..f },
            ev,
        ),
        ev.all_day ==> !spec_included(Filters { include_all_day: false, ..f }, ev),
{
}

/// The free filter only concerns free (transparent) events: for any other
/// event, switching it changes nothing; a free event is never included with
/// it off.
pub proof fn law_free_filter_only_drops_free_events(f: Filters, ev: OwnerEvent)
    ensures
        ev.transparency != Transparency::Transparent ==> spec_included(Filters { include_free: false, ..f }, ev)
            == spec_included(Filters { include_free: true, ..f }, ev),
        ev.transparency == Transparency::Transparent ==> !spec_included(Filters { include_free: false, ..f }, ev),
{
}

/// When free/busy is visible, a projection is busy exactly when the event
/// blocks the owner's time: a free (transparent) event or a declined one
/// never shows as busy, an opaque one the owner did not decline always
/// does. When free/busy is hidden, everything shows as busy.
pub proof fn law_busy_follows_transparency_and_rsvp(vis: Visibility, ev: OwnerEvent)
    ensures
        vis.free_busy && ev.transparency == Transparency::Transparent ==> !spec_project(vis, ev).busy,
        vis.free_busy && ev.rsvp == Rsvp::Declined ==> !spec_project(vis, ev).busy,
        vis.free_busy && ev.transparency == Transparency::Opaque && ev.rsvp != Rsvp::Declined ==> spec_project(vis, ev).busy,
        !vis.free_busy ==> spec_project(vis, ev).busy,
{
}


/// An event that passes every filter is included: not cancelled, tentative,
/// free or all-day only where allowed, with a listed RSVP, and from a
/// listed calendar and category where the filters list them.
pub proof fn law_events_passing_every_filter_are_included(f: Filters, ev: OwnerEvent)
    requires
        ev.status != EventStatus::Cancelled,
        !f.include_tentative ==> ev.status != EventStatus::Tentative,
        !f.include_free ==> ev.transparency != Transparency::Transparent,
        !f.include_all_day ==> !ev.all_day,
        exists|i: int| 0 <= i < f.rsvp@.len() && f.rsvp@[i] == ev.rsvp,
        f.source_ids matches Some(ids) ==> exists|i: int| 0 <= i < ids@.len() && ids@[i] == ev.source_id,
        f.categories matches Some(cats) ==> exists|i: int| 0 <= i < cats@.len() && eq_ignore_case(cats@[i]@, ev.source_category@),
    ensures
        spec_included(f, ev),
{
    if let Some(cats) = f.categories {
        let i = choose|i: int| 0 <= i < cats@.len() && eq_ignore_case(cats@[i]@, ev.source_category@);
        assert(eq_ignore_case(cats@[i]@, ev.source_category@));
    }
}

/// A field the visibility shows is the event's own: title, description,
/// location, category, origin calendar and RSVP when visible, and always
/// the occurrence's id, times and all-day flag.
pub proof fn law_projection_shows_visible_fields(vis: Visibility, ev: OwnerEvent)
    ensures
        vis.title ==> spec_project(vis, ev).title == ev.summary,
        vis.description ==> spec_project(vis, ev).description == ev.description,
        vis.location ==> spec_project(vis, ev).location == ev.location,
        vis.category ==> spec_project(vis, ev).category == Some(ev.source_category),
        vis.origin_calendar ==> spec_project(vis, ev).origin_calendar == Some(ev.source_name),
        vis.rsvp ==> spec_project(vis, ev).rsvp == Some(ev.rsvp),
        spec_project(vis, ev).id == ev.instance_id,
        spec_project(vis, ev).all_day == ev.all_day,
{
}

} // verus!
