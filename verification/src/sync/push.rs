//! Write-back: reconcile a target calendar with the projection its rule
//! produces. Idempotent: every run computes the desired set, diffs it against
//! what we recorded in `mirrored_events`, and issues only the needed PUTs and
//! DELETEs. The requests themselves are the caller's.

use vstd::prelude::*;

use crate::digest::{digest_text, sha256_hex};
use crate::ics::generate::{fold_all, mirror_lines, render_mirror_object, renderable};
use crate::models::MirroredEvent;
use crate::sharing::SharedEvent;
use crate::text::{decimal, decimal_text, str_equals};

verus! {

/// An object the target calendar should hold: the occurrence it mirrors,
/// its iCalendar text and the hash of that text.
pub struct DesiredObject {
    pub id: u128,
    pub body: String,
    pub hash: String,
}

/// The iCalendar text of the object mirroring `ev`.
pub open spec fn mirror_body(ev: SharedEvent, placeholder: Seq<char>, host: Seq<char>) -> Seq<char> {
    fold_all(mirror_lines(ev, placeholder, host))
}

/// Whether no later event has the same id as event `i`.
pub open spec fn latest_event(events: Seq<SharedEvent>, i: int) -> bool {
    forall|j: int| i < j < events.len() ==> #[trigger] events[j].id != events[i].id
}

/// One object per occurrence id, rendered from the last event with that id.
pub open spec fn desired_for(out: Seq<DesiredObject>, events: Seq<SharedEvent>, placeholder: Seq<char>, host: Seq<char>) -> bool {
    &&& forall|k: int, l: int| 0 <= k < l < out.len() ==> #[trigger] out[k].id != #[trigger] out[l].id
    &&& forall|k: int|
        0 <= k < out.len() ==> exists|i: int|
            0 <= i < events.len() && #[trigger] events[i].id == #[trigger] out[k].id && latest_event(events, i) && out[k].body@
                == mirror_body(events[i], placeholder, host) && out[k].hash@ == digest_text(out[k].body@)
    &&& forall|i: int| 0 <= i < events.len() ==> has_object(out, #[trigger] events[i].id)
}

/// Whether one of the objects is for the given occurrence.
pub open spec fn has_object(out: Seq<DesiredObject>, id: u128) -> bool {
    exists|k: int| 0 <= k < out.len() && #[trigger] out[k].id == id
}

fn object_index(out: &Vec<DesiredObject>, id: u128) -> (r: Option<usize>)
    ensures
        r matches Some(k) ==> k < out.len() && out@[k as int].id == id,
        r is None ==> !has_object(out@, id),
{
    let mut k: usize = 0;
    while k < out.len()
        invariant
            k <= out.len(),
            forall|q: int| 0 <= q < k ==> #[trigger] out@[q].id != id,
        decreases out.len() - k,
    {
        if out[k].id == id {
            return Some(k);
        }
        k = k + 1;
    }
    None
}

/// Render and hash the object for each occurrence; a later event with the
/// same id replaces an earlier one.
pub fn desired_objects(events: &[SharedEvent], placeholder_title: &str, host: &str) -> (out: Vec<DesiredObject>)
    requires
        forall|i: int| 0 <= i < events@.len() ==> renderable(#[trigger] events@[i]),
    ensures
        desired_for(out@, events@, placeholder_title@, host@),
{
    let mut out: Vec<DesiredObject> = Vec::new();
    let mut n: usize = 0;
    while n < events.len()
        invariant
            n <= events.len(),
            forall|i: int| 0 <= i < events@.len() ==> renderable(#[trigger] events@[i]),
            desired_for(out@, events@.take(n as int), placeholder_title@, host@),
        decreases events.len() - n,
    {
        let ghost p = events@.take(n as int);
        let ghost q = events@.take(n + 1);
        let ghost o0 = out@;
        let ev = &events[n];
        assert(q[n as int] == *ev);
        let body = render_mirror_object(ev, placeholder_title, host);
        let hash = sha256_hex(body.as_str());
        let obj = DesiredObject { id: ev.id, body, hash };
        let found = object_index(&out, ev.id);
        match found {
            Some(j) => {
                out.set(j, obj);
            },
            None => {
                out.push(obj);
            },
        }
        assert forall|k: int, l: int| 0 <= k < l < out@.len() implies #[trigger] out@[k].id != #[trigger] out@[l].id by {
            if found is None && l == o0.len() {
                assert(o0[k].id == out@[k].id);
            } else {
                assert(o0[k].id == out@[k].id || k == found->0);
                assert(o0[l].id == out@[l].id || l == found->0);
            }
        }
        assert forall|k: int| 0 <= k < out@.len() implies exists|i: int|
            0 <= i < q.len() && #[trigger] q[i].id == #[trigger] out@[k].id && latest_event(q, i) && out@[k].body@
                == mirror_body(q[i], placeholder_title@, host@) && out@[k].hash@ == digest_text(out@[k].body@) by {
            if out@[k].id == ev.id {
                assert(q[n as int].id == out@[k].id);
                if found is Some {
                    assert(k == found->0) by {
                        if k != found->0 {
                            assert(o0[k].id == out@[k].id);
                        }
                    }
                }
                assert(out@[k] == obj);
            } else {
                assert(o0[k] == out@[k]);
                let i = choose|i: int|
                    0 <= i < p.len() && #[trigger] p[i].id == #[trigger] o0[k].id && latest_event(p, i) && o0[k].body@
                        == mirror_body(p[i], placeholder_title@, host@) && o0[k].hash@ == digest_text(o0[k].body@);
                assert(q[i] == p[i]);
                assert(latest_event(q, i));
            }
        }
        assert forall|i: int| 0 <= i < q.len() implies has_object(out@, #[trigger] q[i].id) by {
            if q[i].id == ev.id {
                match found {
                    Some(j) => assert(out@[j as int].id == ev.id),
                    None => assert(out@[o0.len() as int].id == ev.id),
                }
            } else {
                assert(q[i] == p[i]);
                assert(has_object(o0, p[i].id));
                let k = choose|k: int| 0 <= k < o0.len() && #[trigger] o0[k].id == p[i].id;
                assert(out@[k].id == o0[k].id) by {
                    if found is Some && k == found->0 {
                        assert(o0[k].id == ev.id);
                    }
                }
            }
        }
        n = n + 1;
    }
    assert(events@.take(events.len() as int) =~= events@);
    out
}

/// The record of an occurrence: the last one with its id.
pub open spec fn record_for(recorded: Seq<MirroredEvent>, id: u128) -> Option<MirroredEvent>
    decreases recorded.len(),
{
    if recorded.len() == 0 {
        None
    } else if recorded.last().instance_id == id {
        Some(recorded.last())
    } else {
        record_for(recorded.drop_last(), id)
    }
}

/// Whether record `i` is the last one with its id.
pub open spec fn latest_record(recorded: Seq<MirroredEvent>, i: int) -> bool {
    forall|j: int| i < j < recorded.len() ==> #[trigger] recorded[j].instance_id != recorded[i].instance_id
}

/// The records to delete, among the first `n`: the last record of each
/// occurrence that is no longer desired.
pub open spec fn deletes_upto(recorded: Seq<MirroredEvent>, desired: Seq<DesiredObject>, n: int) -> Seq<MirroredEvent>
    decreases n,
{
    if n <= 0 {
        Seq::empty()
    } else {
        deletes_upto(recorded, desired, n - 1) + if latest_record(recorded, n - 1) && !has_object(desired, recorded[n - 1].instance_id) {
            seq![recorded[n - 1]]
        } else {
            Seq::<MirroredEvent>::empty()
        }
    }
}

/// A write of one object: created when `href` is none, else replacing the
/// object recorded there.
pub struct Upsert {
    pub id: u128,
    pub body: String,
    pub hash: String,
    pub href: Option<String>,
}

/// Whether desired object `d` is already on the target as recorded.
pub open spec fn unchanged(recorded: Seq<MirroredEvent>, d: DesiredObject) -> bool {
    record_for(recorded, d.id) matches Some(m) && m.content_hash@ == d.hash@
}

/// The writes for the first `n` desired objects: each one that is new or
/// whose text changed, with the href it was recorded at.
pub open spec fn upserts_upto(desired: Seq<DesiredObject>, recorded: Seq<MirroredEvent>, n: int) -> Seq<Upsert>
    decreases n,
{
    if n <= 0 {
        Seq::empty()
    } else {
        let d = desired[n - 1];
        upserts_upto(desired, recorded, n - 1) + if unchanged(recorded, d) {
            Seq::<Upsert>::empty()
        } else {
            seq![
                Upsert {
                    id: d.id,
                    body: d.body,
                    hash: d.hash,
                    href: match record_for(recorded, d.id) {
                        Some(m) => Some(m.remote_href),
                        None => None,
                    },
                },
            ]
        }
    }
}

/// How many of the first `n` desired objects are unchanged.
pub open spec fn unchanged_upto(desired: Seq<DesiredObject>, recorded: Seq<MirroredEvent>, n: int) -> int
    decreases n,
{
    if n <= 0 {
        0
    } else {
        unchanged_upto(desired, recorded, n - 1) + if unchanged(recorded, desired[n - 1]) { 1int } else { 0int }
    }
}

/// What reconciling a target does: deletions first, so that a moved
/// occurrence does not briefly double-book, then creations and updates.
pub struct PushPlan {
    pub deletes: Vec<MirroredEvent>,
    pub upserts: Vec<Upsert>,
    pub unchanged: usize,
}

fn find_record(recorded: &Vec<MirroredEvent>, id: u128) -> (r: Option<usize>)
    ensures
        r matches Some(i) ==> i < recorded.len() && record_for(recorded@, id) == Some(recorded@[i as int]),
        r is None ==> record_for(recorded@, id) is None,
{
    let mut i = recorded.len();
    assert(recorded@.take(i as int) =~= recorded@);
    while i > 0
        invariant
            i <= recorded.len(),
            record_for(recorded@, id) == record_for(recorded@.take(i as int), id),
        decreases i,
    {
        assert(recorded@.take(i as int).drop_last() =~= recorded@.take(i - 1));
        if recorded[i - 1].instance_id == id {
            return Some(i - 1);
        }
        i = i - 1;
    }
    None
}

fn is_latest_record(recorded: &Vec<MirroredEvent>, i: usize) -> (r: bool)
    requires
        i < recorded.len(),
    ensures
        r == latest_record(recorded@, i as int),
{
    let mut j = i + 1;
    while j < recorded.len()
        invariant
            i < j <= recorded.len(),
            forall|q: int| i < q < j ==> #[trigger] recorded@[q].instance_id != recorded@[i as int].instance_id,
        decreases recorded.len() - j,
    {
        if recorded[j].instance_id == recorded[i].instance_id {
            return false;
        }
        j = j + 1;
    }
    true
}

fn has_desired(desired: &Vec<DesiredObject>, id: u128) -> (r: bool)
    ensures
        r == has_object(desired@, id),
{
    let mut k: usize = 0;
    while k < desired.len()
        invariant
            k <= desired.len(),
            forall|q: int| 0 <= q < k ==> #[trigger] desired@[q].id != id,
        decreases desired.len() - k,
    {
        if desired[k].id == id {
            return true;
        }
        k = k + 1;
    }
    false
}

/// Diff the desired objects against what was recorded.
pub fn plan_push(desired: &Vec<DesiredObject>, recorded: &Vec<MirroredEvent>) -> (plan: PushPlan)
    ensures
        plan.deletes@ == deletes_upto(recorded@, desired@, recorded@.len() as int),
        plan.upserts@ == upserts_upto(desired@, recorded@, desired@.len() as int),
        plan.unchanged == unchanged_upto(desired@, recorded@, desired@.len() as int),
{
    let mut deletes: Vec<MirroredEvent> = Vec::new();
    let mut i: usize = 0;
    while i < recorded.len()
        invariant
            i <= recorded.len(),
            deletes@ == deletes_upto(recorded@, desired@, i as int),
        decreases recorded.len() - i,
    {
        let r = &recorded[i];
        if is_latest_record(recorded, i) && !has_desired(desired, r.instance_id) {
            deletes.push(MirroredEvent {
                instance_id: r.instance_id,
                remote_href: r.remote_href.clone(),
                content_hash: r.content_hash.clone(),
            });
        }
        i = i + 1;
    }
    let mut upserts: Vec<Upsert> = Vec::new();
    let mut same: usize = 0;
    let mut k: usize = 0;
    while k < desired.len()
        invariant
            k <= desired.len(),
            upserts@ == upserts_upto(desired@, recorded@, k as int),
            same == unchanged_upto(desired@, recorded@, k as int),
            same <= k,
        decreases desired.len() - k,
    {
        let d = &desired[k];
        let found = find_record(recorded, d.id);
        let keep = match found {
            Some(j) => str_equals(recorded[j].content_hash.as_str(), d.hash.as_str()),
            None => false,
        };
        if keep {
            same = same + 1;
        } else {
            let href = match found {
                Some(j) => Some(recorded[j].remote_href.clone()),
                None => None,
            };
            upserts.push(Upsert { id: d.id, body: d.body.clone(), hash: d.hash.clone(), href });
        }
        k = k + 1;
    }
    PushPlan { deletes, upserts, unchanged: same }
}

/// One request of a push.
pub enum PushAction {
    /// Delete the object at `href`, mirroring occurrence `instance_id`.
    Delete { instance_id: u128, href: String },
    /// Write an object: create it when `href` is none, else replace it there.
    Put { id: u128, body: String, hash: String, href: Option<String> },
}

/// The request that carries out a planned deletion.
pub open spec fn delete_action(m: MirroredEvent) -> PushAction {
    PushAction::Delete { instance_id: m.instance_id, href: m.remote_href }
}

/// The request that carries out a planned write.
pub open spec fn put_action(u: Upsert) -> PushAction {
    PushAction::Put { id: u.id, body: u.body, hash: u.hash, href: u.href }
}

/// The requests of a plan, in the order they are made: every deletion
/// first, so that a moved occurrence does not briefly double-book, then the
/// writes, each in plan order.
pub fn push_actions(plan: &PushPlan) -> (r: Vec<PushAction>)
    ensures
        r@.len() == plan.deletes@.len() + plan.upserts@.len(),
        forall|i: int| 0 <= i < plan.deletes@.len() ==> #[trigger] r@[i] == delete_action(plan.deletes@[i]),
        forall|k: int|
            0 <= k < plan.upserts@.len() ==> #[trigger] r@[plan.deletes@.len() + k] == put_action(plan.upserts@[k]),
{
    let mut r: Vec<PushAction> = Vec::new();
    let mut i: usize = 0;
    while i < plan.deletes.len()
        invariant
            i <= plan.deletes.len(),
            r@.len() == i,
            forall|q: int| 0 <= q < i ==> #[trigger] r@[q] == delete_action(plan.deletes@[q]),
        decreases plan.deletes.len() - i,
    {
        let m = &plan.deletes[i];
        r.push(PushAction::Delete { instance_id: m.instance_id, href: m.remote_href.clone() });
        i = i + 1;
    }
    let mut k: usize = 0;
    while k < plan.upserts.len()
        invariant
            k <= plan.upserts.len(),
            r@.len() == plan.deletes@.len() + k,
            forall|q: int| 0 <= q < plan.deletes@.len() ==> #[trigger] r@[q] == delete_action(plan.deletes@[q]),
            forall|q: int| 0 <= q < k ==> #[trigger] r@[plan.deletes@.len() + q] == put_action(plan.upserts@[q]),
        decreases plan.upserts.len() - k,
    {
        let u = &plan.upserts[k];
        let href = match &u.href {
            Some(h) => Some(h.clone()),
            None => None,
        };
        r.push(PushAction::Put { id: u.id, body: u.body.clone(), hash: u.hash.clone(), href });
        k = k + 1;
    }
    r
}

/// Counts of one push.
#[derive(Debug)]
pub struct PushStats {
    pub created: usize,
    pub updated: usize,
    pub deleted: usize,
    pub unchanged: usize,
}

/// How many writes create an object.
pub open spec fn creations(ups: Seq<Upsert>) -> int
    decreases ups.len(),
{
    if ups.len() == 0 {
        0
    } else {
        creations(ups.drop_last()) + if ups.last().href is None { 1int } else { 0int }
    }
}

/// The counts of a push whose requests all succeeded.
pub fn push_stats(plan: &PushPlan) -> (s: PushStats)
    ensures
        s.created == creations(plan.upserts@),
        s.updated == plan.upserts@.len() - creations(plan.upserts@),
        s.deleted == plan.deletes@.len(),
        s.unchanged == plan.unchanged,
{
    let mut created: usize = 0;
    let mut k: usize = 0;
    while k < plan.upserts.len()
        invariant
            k <= plan.upserts.len(),
            created == creations(plan.upserts@.take(k as int)),
            0 <= created <= k,
        decreases plan.upserts.len() - k,
    {
        assert(plan.upserts@.take(k + 1).drop_last() =~= plan.upserts@.take(k as int));
        if plan.upserts[k].href.is_none() {
            created = created + 1;
        }
        k = k + 1;
    }
    assert(plan.upserts@.take(plan.upserts.len() as int) =~= plan.upserts@);
    PushStats { created, updated: plan.upserts.len() - created, deleted: plan.deletes.len(), unchanged: plan.unchanged }
}

/// The summary text of push counts.
pub open spec fn push_summary(s: PushStats) -> Seq<char> {
    decimal_text(s.created as nat) + " created, "@ + decimal_text(s.updated as nat) + " updated, "@ + decimal_text(
        s.deleted as nat,
    ) + " deleted, "@ + decimal_text(s.unchanged as nat) + " unchanged"@
}

impl PushStats {
    /// "N created, N updated, N deleted, N unchanged".
    pub fn summary(&self) -> (r: String)
        ensures
            r@ == push_summary(*self),
    {
        let mut s = decimal(self.created as u64);
        s.append(" created, ");
        s.append(decimal(self.updated as u64).as_str());
        s.append(" updated, ");
        s.append(decimal(self.deleted as u64).as_str());
        s.append(" deleted, ");
        s.append(decimal(self.unchanged as u64).as_str());
        s.append(" unchanged");
        s
    }
}

proof fn lemma_no_deletes(recorded: Seq<MirroredEvent>, desired: Seq<DesiredObject>, n: int)
    requires
        0 <= n <= recorded.len(),
        forall|i: int| 0 <= i < recorded.len() ==> has_object(desired, #[trigger] recorded[i].instance_id),
    ensures
        deletes_upto(recorded, desired, n).len() == 0,
    decreases n,
{
    if n > 0 {
        lemma_no_deletes(recorded, desired, n - 1);
        assert(has_object(desired, recorded[n - 1].instance_id));
    }
}

proof fn lemma_nothing_to_write(desired: Seq<DesiredObject>, recorded: Seq<MirroredEvent>, n: int)
    requires
        0 <= n <= desired.len(),
        forall|k: int| 0 <= k < desired.len() ==> unchanged(recorded, #[trigger] desired[k]),
    ensures
        upserts_upto(desired, recorded, n).len() == 0,
        unchanged_upto(desired, recorded, n) == n,
    decreases n,
{
    if n > 0 {
        lemma_nothing_to_write(desired, recorded, n - 1);
        assert(unchanged(recorded, desired[n - 1]));
    }
}

/// Pushing is idempotent: once the records hold exactly the desired objects
/// with their hashes, a push deletes nothing and writes nothing, and every
/// object counts as unchanged.
pub proof fn law_push_converges(desired: Seq<DesiredObject>, recorded: Seq<MirroredEvent>)
    requires
        forall|k: int| 0 <= k < desired.len() ==> unchanged(recorded, #[trigger] desired[k]),
        forall|i: int| 0 <= i < recorded.len() ==> has_object(desired, #[trigger] recorded[i].instance_id),
    ensures
        deletes_upto(recorded, desired, recorded.len() as int).len() == 0,
        upserts_upto(desired, recorded, desired.len() as int).len() == 0,
        unchanged_upto(desired, recorded, desired.len() as int) == desired.len(),
{
    lemma_no_deletes(recorded, desired, recorded.len() as int);
    lemma_nothing_to_write(desired, recorded, desired.len() as int);
}

proof fn lemma_deletes_not_desired(recorded: Seq<MirroredEvent>, desired: Seq<DesiredObject>, n: int)
    requires
        0 <= n <= recorded.len(),
    ensures
        forall|k: int|
            0 <= k < deletes_upto(recorded, desired, n).len() ==> !has_object(
                desired,
                (#[trigger] deletes_upto(recorded, desired, n)[k]).instance_id,
            ),
    decreases n,
{
    if n > 0 {
        lemma_deletes_not_desired(recorded, desired, n - 1);
        let a = deletes_upto(recorded, desired, n - 1);
        assert forall|k: int| 0 <= k < deletes_upto(recorded, desired, n).len() implies !has_object(
            desired,
            (#[trigger] deletes_upto(recorded, desired, n)[k]).instance_id,
        ) by {
            if k < a.len() {
                assert(deletes_upto(recorded, desired, n)[k] == a[k]);
            }
        }
    }
}

/// A push only deletes what is no longer desired: mirrors of occurrences the
/// rule still yields are never deleted.
pub proof fn law_push_deletes_only_undesired(recorded: Seq<MirroredEvent>, desired: Seq<DesiredObject>)
    ensures
        forall|k: int|
            0 <= k < deletes_upto(recorded, desired, recorded.len() as int).len() ==> !has_object(
                desired,
                (#[trigger] deletes_upto(recorded, desired, recorded.len() as int)[k]).instance_id,
            ),
{
    lemma_deletes_not_desired(recorded, desired, recorded.len() as int);
}


/// Whether an occurrence is deleted or written by a push.
pub open spec fn touched(deletes: Seq<MirroredEvent>, ups: Seq<Upsert>, id: u128) -> bool {
    (exists|k: int| 0 <= k < deletes.len() && #[trigger] deletes[k].instance_id == id) || (exists|k: int|
        0 <= k < ups.len() && #[trigger] ups[k].id == id)
}

/// The records a push leaves untouched, in order.
pub open spec fn untouched_records(recorded: Seq<MirroredEvent>, deletes: Seq<MirroredEvent>, ups: Seq<Upsert>) -> Seq<
    MirroredEvent,
>
    decreases recorded.len(),
{
    if recorded.len() == 0 {
        Seq::empty()
    } else {
        untouched_records(recorded.drop_last(), deletes, ups) + if touched(deletes, ups, recorded.last().instance_id) {
            Seq::<MirroredEvent>::empty()
        } else {
            seq![recorded.last()]
        }
    }
}

/// The records of the writes of a push: each written object at the href it
/// was written to, with its hash.
pub open spec fn written_records(ups: Seq<Upsert>, hrefs: Seq<String>) -> Seq<MirroredEvent> {
    Seq::new(ups.len(), |k: int| MirroredEvent { instance_id: ups[k].id, remote_href: hrefs[k], content_hash: ups[k].hash })
}

/// The records after a push whose requests all succeeded: the records of
/// deleted and written occurrences go, and each write is recorded at the
/// href it went to (`hrefs`, one per write).
pub open spec fn records_after_push(recorded: Seq<MirroredEvent>, desired: Seq<DesiredObject>, hrefs: Seq<String>) -> Seq<
    MirroredEvent,
> {
    let deletes = deletes_upto(recorded, desired, recorded.len() as int);
    let ups = upserts_upto(desired, recorded, desired.len() as int);
    untouched_records(recorded, deletes, ups) + written_records(ups, hrefs)
}

/// Whether no two desired objects share an occurrence.
pub open spec fn distinct_objects(desired: Seq<DesiredObject>) -> bool {
    forall|k: int, l: int| 0 <= k < l < desired.len() ==> #[trigger] desired[k].id != #[trigger] desired[l].id
}

proof fn lemma_record_is_last(s: Seq<MirroredEvent>, j: int, id: u128)
    requires
        0 <= j < s.len(),
        s[j].instance_id == id,
        forall|i: int| j < i < s.len() ==> #[trigger] s[i].instance_id != id,
    ensures
        record_for(s, id) == Some(s[j]),
    decreases s.len(),
{
    if j < s.len() - 1 {
        assert(s.last() == s[s.len() - 1]);
        lemma_record_is_last(s.drop_last(), j, id);
    }
}

proof fn lemma_record_append(a: Seq<MirroredEvent>, b: Seq<MirroredEvent>, id: u128)
    requires
        forall|i: int| 0 <= i < b.len() ==> #[trigger] b[i].instance_id != id,
    ensures
        record_for(a + b, id) == record_for(a, id),
    decreases b.len(),
{
    if b.len() > 0 {
        assert((a + b).drop_last() =~= a + b.drop_last());
        assert((a + b).last() == b[b.len() - 1]);
        lemma_record_append(a, b.drop_last(), id);
    } else {
        assert(a + b =~= a);
    }
}

proof fn lemma_record_untouched(recorded: Seq<MirroredEvent>, deletes: Seq<MirroredEvent>, ups: Seq<Upsert>, id: u128)
    requires
        !touched(deletes, ups, id),
    ensures
        record_for(untouched_records(recorded, deletes, ups), id) == record_for(recorded, id),
    decreases recorded.len(),
{
    if recorded.len() > 0 {
        let rest = untouched_records(recorded.drop_last(), deletes, ups);
        lemma_record_untouched(recorded.drop_last(), deletes, ups, id);
        if !touched(deletes, ups, recorded.last().instance_id) {
            assert((rest + seq![recorded.last()]).drop_last() =~= rest);
        } else {
            assert(rest + Seq::<MirroredEvent>::empty() =~= rest);
        }
    }
}

proof fn lemma_untouched_members(recorded: Seq<MirroredEvent>, deletes: Seq<MirroredEvent>, ups: Seq<Upsert>)
    ensures
        forall|k: int|
            0 <= k < untouched_records(recorded, deletes, ups).len() ==> exists|i: int|
                0 <= i < recorded.len() && #[trigger] untouched_records(recorded, deletes, ups)[k] == recorded[i] && !touched(
                    deletes,
                    ups,
                    recorded[i].instance_id,
                ),
    decreases recorded.len(),
{
    if recorded.len() > 0 {
        let d = recorded.drop_last();
        lemma_untouched_members(d, deletes, ups);
        let rest = untouched_records(d, deletes, ups);
        let u = untouched_records(recorded, deletes, ups);
        assert forall|k: int| 0 <= k < u.len() implies exists|i: int|
            0 <= i < recorded.len() && #[trigger] u[k] == recorded[i] && !touched(deletes, ups, recorded[i].instance_id) by {
            if k < rest.len() {
                assert(u[k] == rest[k]);
                let i = choose|i: int| 0 <= i < d.len() && #[trigger] rest[k] == d[i] && !touched(deletes, ups, d[i].instance_id);
                assert(recorded[i] == d[i]);
            } else {
                assert(u[k] == recorded[recorded.len() - 1]);
            }
        }
    }
}

/// A record whose occurrence is not desired has a later-or-equal record
/// with its id that is the last one with it, and that one is deleted.
proof fn lemma_latest_exists(s: Seq<MirroredEvent>, i: int) -> (j: int)
    requires
        0 <= i < s.len(),
    ensures
        i <= j < s.len(),
        s[j].instance_id == s[i].instance_id,
        latest_record(s, j),
    decreases s.len() - i,
{
    if latest_record(s, i) {
        i
    } else {
        let q = choose|q: int| i < q < s.len() && #[trigger] s[q].instance_id == s[i].instance_id;
        lemma_latest_exists(s, q)
    }
}

proof fn lemma_deleted(recorded: Seq<MirroredEvent>, desired: Seq<DesiredObject>, n: int, j: int)
    requires
        0 <= j < n <= recorded.len(),
        latest_record(recorded, j),
        !has_object(desired, recorded[j].instance_id),
    ensures
        exists|k: int|
            0 <= k < deletes_upto(recorded, desired, n).len() && #[trigger] deletes_upto(recorded, desired, n)[k].instance_id
                == recorded[j].instance_id,
    decreases n,
{
    let a = deletes_upto(recorded, desired, n - 1);
    let all = deletes_upto(recorded, desired, n);
    if j == n - 1 {
        assert(all[a.len() as int] == recorded[j]);
    } else {
        lemma_deleted(recorded, desired, n - 1, j);
        let k = choose|k: int| 0 <= k < a.len() && #[trigger] a[k].instance_id == recorded[j].instance_id;
        assert(all[k] == a[k]);
    }
}

/// Each write is of a desired object that was not recorded as it is.
pub open spec fn writes_desired(ups: Seq<Upsert>, desired: Seq<DesiredObject>, recorded: Seq<MirroredEvent>) -> bool {
    forall|k: int|
        0 <= k < ups.len() ==> exists|q: int|
            0 <= q < desired.len() && (#[trigger] ups[k]).id == desired[q].id && ups[k].hash == desired[q].hash && !unchanged(
                recorded,
                desired[q],
            )
}

/// Each of the first `n` desired objects that was not recorded as it is,
/// is written.
pub open spec fn writes_changed(ups: Seq<Upsert>, desired: Seq<DesiredObject>, recorded: Seq<MirroredEvent>, n: int) -> bool {
    forall|q: int|
        0 <= q < n && !unchanged(recorded, #[trigger] desired[q]) ==> exists|k: int|
            0 <= k < ups.len() && #[trigger] ups[k].id == desired[q].id
}

/// No occurrence is written twice.
pub open spec fn distinct_writes(ups: Seq<Upsert>) -> bool {
    forall|k: int, l: int| 0 <= k < l < ups.len() ==> #[trigger] ups[k].id != #[trigger] ups[l].id
}

proof fn lemma_upserts_step(desired: Seq<DesiredObject>, recorded: Seq<MirroredEvent>, n: int)
    requires
        0 < n <= desired.len(),
    ensures
        unchanged(recorded, desired[n - 1]) ==> upserts_upto(desired, recorded, n) == upserts_upto(desired, recorded, n - 1),
        !unchanged(recorded, desired[n - 1]) ==> upserts_upto(desired, recorded, n).len() == upserts_upto(desired, recorded, n - 1).len() + 1
            && upserts_upto(desired, recorded, n).drop_last() == upserts_upto(desired, recorded, n - 1)
            && upserts_upto(desired, recorded, n).last().id == desired[n - 1].id
            && upserts_upto(desired, recorded, n).last().hash == desired[n - 1].hash,
{
    let a = upserts_upto(desired, recorded, n - 1);
    if unchanged(recorded, desired[n - 1]) {
        assert(upserts_upto(desired, recorded, n) =~= a);
    } else {
        assert(upserts_upto(desired, recorded, n).drop_last() =~= a);
    }
}

proof fn lemma_writes_desired(desired: Seq<DesiredObject>, recorded: Seq<MirroredEvent>, n: int)
    requires
        0 <= n <= desired.len(),
    ensures
        writes_desired(upserts_upto(desired, recorded, n), desired, recorded),
    decreases n,
{
    if n > 0 {
        lemma_writes_desired(desired, recorded, n - 1);
        lemma_upserts_step(desired, recorded, n);
        let a = upserts_upto(desired, recorded, n - 1);
        let all = upserts_upto(desired, recorded, n);
        if !unchanged(recorded, desired[n - 1]) {
            assert forall|k: int| 0 <= k < all.len() implies exists|q: int|
                0 <= q < desired.len() && (#[trigger] all[k]).id == desired[q].id && all[k].hash == desired[q].hash
                    && !unchanged(recorded, desired[q]) by {
                if k < a.len() {
                    assert(all[k] == a[k]);
                } else {
                    assert(all[k] == all.last());
                }
            }
        }
    }
}

proof fn lemma_writes_changed(desired: Seq<DesiredObject>, recorded: Seq<MirroredEvent>, n: int)
    requires
        0 <= n <= desired.len(),
    ensures
        writes_changed(upserts_upto(desired, recorded, n), desired, recorded, n),
    decreases n,
{
    if n > 0 {
        lemma_writes_changed(desired, recorded, n - 1);
        lemma_upserts_step(desired, recorded, n);
        let a = upserts_upto(desired, recorded, n - 1);
        let all = upserts_upto(desired, recorded, n);
        assert forall|q: int| 0 <= q < n && !unchanged(recorded, #[trigger] desired[q]) implies exists|k: int|
            0 <= k < all.len() && #[trigger] all[k].id == desired[q].id by {
            if q < n - 1 {
                let k = choose|k: int| 0 <= k < a.len() && #[trigger] a[k].id == desired[q].id;
                assert(all[k] == a[k]);
            } else {
                assert(all[all.len() - 1] == all.last());
            }
        }
    }
}

proof fn lemma_distinct_writes(desired: Seq<DesiredObject>, recorded: Seq<MirroredEvent>, n: int)
    requires
        0 <= n <= desired.len(),
        distinct_objects(desired),
    ensures
        distinct_writes(upserts_upto(desired, recorded, n)),
        forall|k: int| 0 <= k < upserts_upto(desired, recorded, n).len() ==> exists|q: int|
            0 <= q < n && #[trigger] upserts_upto(desired, recorded, n)[k].id == desired[q].id,
    decreases n,
{
    if n > 0 {
        lemma_distinct_writes(desired, recorded, n - 1);
        lemma_upserts_step(desired, recorded, n);
        let a = upserts_upto(desired, recorded, n - 1);
        let all = upserts_upto(desired, recorded, n);
        if !unchanged(recorded, desired[n - 1]) {
            assert forall|k: int| 0 <= k < all.len() implies exists|q: int| 0 <= q < n && #[trigger] all[k].id == desired[q].id by {
                if k < a.len() {
                    assert(all[k] == a[k]);
                    let q = choose|q: int| 0 <= q < n - 1 && #[trigger] a[k].id == desired[q].id;
                } else {
                    assert(all[k] == all.last());
                }
            }
            assert forall|k: int, l: int| 0 <= k < l < all.len() implies #[trigger] all[k].id != #[trigger] all[l].id by {
                assert(all[k] == a[k]);
                if l < a.len() {
                    assert(all[l] == a[l]);
                } else {
                    assert(all[l] == all.last());
                    let q = choose|q: int| 0 <= q < n - 1 && #[trigger] a[k].id == desired[q].id;
                    assert(desired[q].id != desired[n - 1].id);
                }
            }
        }
    }
}

proof fn lemma_after_push_desired(desired: Seq<DesiredObject>, recorded: Seq<MirroredEvent>, hrefs: Seq<String>)
    requires
        distinct_objects(desired),
        hrefs.len() == upserts_upto(desired, recorded, desired.len() as int).len(),
    ensures
        forall|i: int|
            0 <= i < records_after_push(recorded, desired, hrefs).len() ==> has_object(
                desired,
                #[trigger] records_after_push(recorded, desired, hrefs)[i].instance_id,
            ),
{
    let deletes = deletes_upto(recorded, desired, recorded.len() as int);
    let ups = upserts_upto(desired, recorded, desired.len() as int);
    let kept = untouched_records(recorded, deletes, ups);
    let written = written_records(ups, hrefs);
    let after = records_after_push(recorded, desired, hrefs);
    assert(after == kept + written);
    lemma_writes_desired(desired, recorded, desired.len() as int);
    lemma_untouched_members(recorded, deletes, ups);
    // Every record left is of a desired occurrence.
    assert forall|i: int| 0 <= i < after.len() implies has_object(desired, #[trigger] after[i].instance_id) by {
        if i < kept.len() {
            assert(after[i] == kept[i]);
            let r = choose|r: int| 0 <= r < recorded.len() && #[trigger] kept[i] == recorded[r] && !touched(
                deletes,
                ups,
                recorded[r].instance_id,
            );
            if !has_object(desired, recorded[r].instance_id) {
                let j = lemma_latest_exists(recorded, r);
                lemma_deleted(recorded, desired, recorded.len() as int, j);
                let k = choose|k: int| 0 <= k < deletes.len() && #[trigger] deletes[k].instance_id == recorded[j].instance_id;
                assert(touched(deletes, ups, recorded[r].instance_id));
            }
        } else {
            let k = i - kept.len();
            assert(after[i] == written[k]);
            let q = choose|q: int|
                0 <= q < desired.len() && (#[trigger] ups[k]).id == desired[q].id && ups[k].hash == desired[q].hash && !unchanged(
                    recorded,
                    desired[q],
                );
            assert(desired[q].id == after[i].instance_id);
        }
    }
}

#[verifier::spinoff_prover]
proof fn lemma_after_push_unchanged(desired: Seq<DesiredObject>, recorded: Seq<MirroredEvent>, hrefs: Seq<String>)
    requires
        distinct_objects(desired),
        hrefs.len() == upserts_upto(desired, recorded, desired.len() as int).len(),
    ensures
        forall|q: int| 0 <= q < desired.len() ==> unchanged(records_after_push(recorded, desired, hrefs), #[trigger] desired[q]),
{
    let deletes = deletes_upto(recorded, desired, recorded.len() as int);
    let ups = upserts_upto(desired, recorded, desired.len() as int);
    let kept = untouched_records(recorded, deletes, ups);
    let written = written_records(ups, hrefs);
    let after = records_after_push(recorded, desired, hrefs);
    assert(after == kept + written);
    lemma_writes_desired(desired, recorded, desired.len() as int);
    lemma_writes_changed(desired, recorded, desired.len() as int);
    lemma_distinct_writes(desired, recorded, desired.len() as int);
    lemma_deletes_not_desired(recorded, desired, recorded.len() as int);
    // Every desired object is recorded with its hash.
    assert forall|q: int| 0 <= q < desired.len() implies unchanged(after, #[trigger] desired[q]) by {
        let d = desired[q];
        if !unchanged(recorded, d) {
            let k = choose|k: int| 0 <= k < ups.len() && #[trigger] ups[k].id == d.id;
            let q2 = choose|q2: int|
                0 <= q2 < desired.len() && (#[trigger] ups[k]).id == desired[q2].id && ups[k].hash == desired[q2].hash
                    && !unchanged(recorded, desired[q2]);
            assert(q2 == q);
            let j = kept.len() + k;
            assert(after[j] == written[k]);
            assert forall|i: int| j < i < after.len() implies #[trigger] after[i].instance_id != d.id by {
                let l = i - kept.len();
                assert(after[i] == written[l]);
                assert(ups[k].id != ups[l].id);
            }
            lemma_record_is_last(after, j, d.id);
        } else {
            assert forall|k: int| 0 <= k < ups.len() implies #[trigger] ups[k].id != d.id by {
                let q2 = choose|q2: int|
                    0 <= q2 < desired.len() && (#[trigger] ups[k]).id == desired[q2].id && ups[k].hash == desired[q2].hash
                        && !unchanged(recorded, desired[q2]);
                if ups[k].id == d.id {
                    assert(q2 == q);
                }
            }
            assert forall|k: int| 0 <= k < deletes.len() implies #[trigger] deletes[k].instance_id != d.id by {
                assert(!has_object(desired, deletes[k].instance_id));
                if deletes[k].instance_id == d.id {
                    assert(desired[q].id == d.id);
                }
            }
            assert(!touched(deletes, ups, d.id));
            lemma_record_untouched(recorded, deletes, ups, d.id);
            assert forall|i: int| 0 <= i < written.len() implies #[trigger] written[i].instance_id != d.id by {
                assert(written[i].instance_id == ups[i].id);
            }
            lemma_record_append(kept, written, d.id);
        }
    }
}

proof fn lemma_every_object_counted(desired: Seq<DesiredObject>, recorded: Seq<MirroredEvent>, n: int)
    requires
        0 <= n <= desired.len(),
    ensures
        upserts_upto(desired, recorded, n).len() + unchanged_upto(desired, recorded, n) == n,
    decreases n,
{
    if n > 0 {
        lemma_every_object_counted(desired, recorded, n - 1);
        lemma_upserts_step(desired, recorded, n);
    }
}

/// Pushing twice writes nothing the second time: a push writes or counts
/// as unchanged every desired object, and after it, when its requests all
/// succeeded, planning again against the records it left deletes nothing,
/// writes nothing, and counts every desired object as unchanged, whatever
/// hrefs the writes went to.
pub proof fn law_push_is_idempotent(desired: Seq<DesiredObject>, recorded: Seq<MirroredEvent>, hrefs: Seq<String>)
    requires
        distinct_objects(desired),
        hrefs.len() == upserts_upto(desired, recorded, desired.len() as int).len(),
    ensures
        upserts_upto(desired, recorded, desired.len() as int).len() + unchanged_upto(desired, recorded, desired.len() as int)
            == desired.len(),
        deletes_upto(
            records_after_push(recorded, desired, hrefs),
            desired,
            records_after_push(recorded, desired, hrefs).len() as int,
        ).len() == 0,
        upserts_upto(desired, records_after_push(recorded, desired, hrefs), desired.len() as int).len() == 0,
        unchanged_upto(desired, records_after_push(recorded, desired, hrefs), desired.len() as int) == desired.len(),
{
    let after = records_after_push(recorded, desired, hrefs);
    lemma_every_object_counted(desired, recorded, desired.len() as int);
    lemma_after_push_desired(desired, recorded, hrefs);
    lemma_after_push_unchanged(desired, recorded, hrefs);
    lemma_no_deletes(after, desired, after.len() as int);
    lemma_nothing_to_write(desired, after, desired.len() as int);
}

} // verus!
