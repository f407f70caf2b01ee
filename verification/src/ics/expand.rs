//! Expand a recurring master (plus its overrides) into concrete occurrences
//! within a window.

use vstd::prelude::*;

use crate::ics::parse::{EventModel, ParsedEvent};
use crate::timefmt::{
    format_utc_stamp, format_zone_wall, is_known_zone, known_zone, representable, utc_stamp_text, zone_wall_text,
};

verus! {

/// A concrete occurrence of an event.
#[derive(Clone, Copy, Debug, PartialEq, Eq, Structural)]
pub struct Occurrence {
    pub start_at: i64,
    pub end_at: i64,
    pub all_day: bool,
}

/// Hard cap on the number of occurrences generated for one master, to keep
/// a hostile or broken feed from exhausting the database.
pub const MAX_OCCURRENCES: u16 = 2000;

pub open spec fn abs(x: int) -> int {
    if x < 0 { -x } else { x }
}

/// Whether an occurrence starting at `s` and lasting `dur` seconds overlaps
/// the window `[from, to)`.
pub open spec fn overlaps(s: int, dur: int, from: int, to: int) -> bool {
    s + dur > from && s < to
}

/// Whether a candidate start becomes an occurrence: it is not overridden
/// and it overlaps the window.
pub open spec fn kept(s: i64, overridden: Seq<i64>, dur: int, from: int, to: int) -> bool {
    !overridden.contains(s) && overlaps(s as int, dur, from, to)
}

/// The occurrence that starts at `s`.
pub open spec fn occurrence_at(s: i64, dur: int, all_day: bool) -> Occurrence {
    Occurrence { start_at: s, end_at: (s + dur) as i64, all_day }
}

/// `out` holds one occurrence for each kept candidate start, ordered by
/// start, without repeats.
pub open spec fn finished(out: Seq<Occurrence>, starts: Seq<i64>, overridden: Seq<i64>, dur: int, all_day: bool, from: int, to: int) -> bool {
    &&& forall|k: int, l: int| 0 <= k < l < out.len() ==> #[trigger] out[k].start_at < #[trigger] out[l].start_at
    &&& forall|k: int|
        0 <= k < out.len() ==> #[trigger] out[k] == occurrence_at(out[k].start_at, dur, all_day) && starts.contains(out[k].start_at)
            && kept(out[k].start_at, overridden, dur, from, to)
    &&& forall|i: int|
        0 <= i < starts.len() && kept(starts[i], overridden, dur, from, to) ==> exists|k: int|
            0 <= k < out.len() && #[trigger] out[k].start_at == #[trigger] starts[i]
}

fn contains_instant(v: &[i64], t: i64) -> (r: bool)
    ensures
        r == v@.contains(t),
{
    let mut i: usize = 0;
    while i < v.len()
        invariant
            i <= v.len(),
            forall|k: int| 0 <= k < i ==> v@[k] != t,
        decreases v.len() - i,
    {
        if v[i] == t {
            assert(v@[i as int] == t);
            return true;
        }
        i = i + 1;
    }
    false
}

/// Insert `s` into a strictly increasing list unless it is there already.
fn insert_sorted(starts: &mut Vec<i64>, s: i64)
    requires
        forall|k: int, l: int| 0 <= k < l < old(starts)@.len() ==> old(starts)@[k] < old(starts)@[l],
    ensures
        forall|k: int, l: int| 0 <= k < l < final(starts)@.len() ==> final(starts)@[k] < final(starts)@[l],
        forall|t: i64| #[trigger] final(starts)@.contains(t) <==> old(starts)@.contains(t) || t == s,
        final(starts)@.len() <= old(starts)@.len() + 1,
{
    let mut p: usize = 0;
    while p < starts.len() && starts[p] < s
        invariant
            p <= starts.len(),
            starts@ == old(starts)@,
            forall|k: int| 0 <= k < p ==> starts@[k] < s,
        decreases starts.len() - p,
    {
        p = p + 1;
    }
    if p < starts.len() && starts[p] == s {
        assert(starts@.contains(s));
        return;
    }
    let ghost before = starts@;
    starts.insert(p, s);
    assert(starts@ =~= before.insert(p as int, s));
    assert forall|t: i64| #[trigger] starts@.contains(t) <==> before.contains(t) || t == s by {
        if starts@.contains(t) {
            let k = choose|k: int| 0 <= k < starts@.len() && starts@[k] == t;
            if k < p {
                assert(before[k] == t);
            } else if k > p {
                assert(before[k - 1] == t);
            }
        }
        if before.contains(t) {
            let k = choose|k: int| 0 <= k < before.len() && before[k] == t;
            if k < p {
                assert(starts@[k] == t);
            } else {
                assert(starts@[k + 1] == t);
            }
        }
        if t == s {
            assert(starts@[p as int] == t);
        }
    }
}

/// Turn candidate starts into occurrences: drop overridden starts and those
/// outside the window, order by start and drop repeats.
pub fn finish_occurrences(starts: &[i64], overridden: &[i64], dur: i64, all_day: bool, from: i64, to: i64) -> (out: Vec<Occurrence>)
    requires
        forall|i: int| 0 <= i < starts@.len() ==> representable(starts@[i] + dur),
        forall|i: int| 0 <= i < starts@.len() ==> representable(starts@[i] as int),
    ensures
        finished(out@, starts@, overridden@, dur as int, all_day, from as int, to as int),
        out@.len() <= starts@.len(),
{
    let mut sorted: Vec<i64> = Vec::new();
    let mut i: usize = 0;
    while i < starts.len()
        invariant
            i <= starts.len(),
            sorted@.len() <= i,
            forall|i: int| 0 <= i < starts@.len() ==> representable(starts@[i] + dur),
            forall|i: int| 0 <= i < starts@.len() ==> representable(starts@[i] as int),
            forall|k: int, l: int| 0 <= k < l < sorted@.len() ==> sorted@[k] < sorted@[l],
            forall|k: int|
                0 <= k < sorted@.len() ==> #[trigger] starts@.contains(sorted@[k]) && kept(sorted@[k], overridden@, dur as int, from as int, to as int),
            forall|j: int| 0 <= j < i && kept(starts@[j], overridden@, dur as int, from as int, to as int) ==> #[trigger] sorted@.contains(starts@[j]),
        decreases starts.len() - i,
    {
        let s = starts[i];
        assert(representable(s + dur));
        if !contains_instant(overridden, s) && s + dur > from && s < to {
            let ghost before = sorted@;
            insert_sorted(&mut sorted, s);
            assert forall|k: int| 0 <= k < sorted@.len() implies #[trigger] starts@.contains(sorted@[k])
                && kept(sorted@[k], overridden@, dur as int, from as int, to as int) by {
                assert(sorted@.contains(sorted@[k]));
                if sorted@[k] != s {
                    let q = choose|q: int| 0 <= q < before.len() && before[q] == sorted@[k];
                    assert(starts@.contains(before[q]));
                } else {
                    assert(starts@[i as int] == s);
                }
            }
            assert forall|j: int| 0 <= j < i + 1 && kept(starts@[j], overridden@, dur as int, from as int, to as int) implies #[trigger] sorted@.contains(starts@[j]) by {
                if j < i {
                    assert(before.contains(starts@[j]));
                }
            }
        }
        i = i + 1;
    }
    let mut out: Vec<Occurrence> = Vec::new();
    let mut k: usize = 0;
    while k < sorted.len()
        invariant
            k <= sorted.len(),
            sorted@.len() <= starts@.len(),
            out@.len() == k,
            forall|i: int| 0 <= i < starts@.len() ==> representable(starts@[i] + dur),
            forall|q: int| 0 <= q < sorted@.len() ==> #[trigger] starts@.contains(sorted@[q]),
            forall|q: int| 0 <= q < k ==> #[trigger] out@[q] == occurrence_at(sorted@[q], dur as int, all_day),
        decreases sorted.len() - k,
    {
        let s = sorted[k];
        proof {
            assert(starts@.contains(s));
            let q = choose|q: int| 0 <= q < starts@.len() && starts@[q] == s;
            assert(representable(starts@[q] + dur));
        }
        out.push(Occurrence { start_at: s, end_at: s + dur, all_day });
        k = k + 1;
    }
    assert forall|i: int| 0 <= i < starts@.len() && kept(starts@[i], overridden@, dur as int, from as int, to as int) implies exists|k: int|
        0 <= k < out@.len() && #[trigger] out@[k].start_at == #[trigger] starts@[i] by {
        assert(sorted@.contains(starts@[i]));
        let k = choose|k: int| 0 <= k < sorted@.len() && sorted@[k] == starts@[i];
        assert(out@[k].start_at == sorted@[k]);
    }
    out
}

} // verus!

verus! {

/// The occurrences of a recurrence set as the `rrule` crate computes them:
/// the set read from `text` (a DTSTART line and an RRULE line), with the
/// extra dates and exception dates, between `after` and `before`, at most
/// `limit` of them; none when the crate refuses the text.
pub uninterp spec fn rule_set_dates(text: Seq<char>, rdates: Seq<i64>, exdates: Seq<i64>, after: i64, before: i64, limit: u16)
    -> Option<Seq<i64>>;

/// Instants, or a message.
pub type DatesOrMessage = Result<Seq<i64>, Seq<char>>;

/// Reads a recurrence set with `<rrule::RRuleSet as FromStr>::from_str`,
/// adds the dates with `RRuleSet::rdate` and `RRuleSet::exdate`, and lists
/// its occurrences with `after(..).before(..).all(limit)`. The crate's
/// source keeps only dates `d` with `after <= d <= before` and stops at
/// `limit` dates. The DTSTART line names UTC or a zone, so the dates depend
/// on the arguments alone. When the crate refuses the text, the message is
/// its own and is not named: a floating UNTIL is read in the machine's zone,
/// and the wording of the refusal can depend on that zone.
#[verifier::external_body]
fn rrule_dates(text: &str, rdates: &[i64], exdates: &[i64], after: i64, before: i64, limit: u16) -> (r: Result<Vec<i64>, String>)
    requires
        representable(after as int),
        representable(before as int),
        forall|i: int| 0 <= i < rdates@.len() ==> representable(rdates@[i] as int),
        forall|i: int| 0 <= i < exdates@.len() ==> representable(exdates@[i] as int),
    ensures
        r matches Ok(ds) ==> rule_set_dates(text@, rdates@, exdates@, after, before, limit) == Some(ds@),
        r is Err ==> rule_set_dates(text@, rdates@, exdates@, after, before, limit) is None,
        r matches Ok(ds) ==> ds@.len() <= limit && forall|i: int| 0 <= i < ds@.len() ==> after <= #[trigger] ds@[i] <= before,
{
    let at = |t: i64| chrono::DateTime::from_timestamp(t, 0).unwrap().with_timezone(&rrule::Tz::UTC);
    let mut set: rrule::RRuleSet = text.parse().map_err(|e: rrule::RRuleError| e.to_string())?;
    for rd in rdates {
        set = set.rdate(at(*rd));
    }
    for ex in exdates {
        set = set.exdate(at(*ex));
    }
    Ok(set.after(at(after)).before(at(before)).all(limit).dates.iter().map(|d| d.timestamp()).collect())
}

/// The rdates that are not also exception dates.
pub open spec fn not_excluded(rdates: Seq<i64>, exdates: Seq<i64>) -> Seq<i64>
    decreases rdates.len(),
{
    if rdates.len() == 0 {
        Seq::empty()
    } else {
        not_excluded(rdates.drop_last(), exdates) + if exdates.contains(rdates.last()) {
            Seq::<i64>::empty()
        } else {
            seq![rdates.last()]
        }
    }
}

/// The DTSTART line for the rule: in the event's zone for a zoned timed
/// event, so that DST transitions keep the local wall time; else in UTC.
pub open spec fn dtstart_line(m: EventModel) -> Seq<char> {
    match m.timezone {
        Some(z) => if !m.all_day {
            match zone_wall_text(z, m.start_at) {
                Some(w) => "DTSTART;TZID="@ + z + ":"@ + w,
                None => Seq::empty(),
            }
        } else {
            "DTSTART:"@ + utc_stamp_text(m.start_at)
        },
        None => "DTSTART:"@ + utc_stamp_text(m.start_at),
    }
}

/// The length of an event in seconds.
pub open spec fn span(m: EventModel) -> int {
    m.end_at - m.start_at
}

/// Where occurrence starts are looked for: occurrences that start before the
/// window but overlap it still matter, so the lower bound is widened by the
/// event's length.
pub open spec fn search_from(m: EventModel, from: i64) -> int {
    from - if span(m) < 0 { 0 } else { span(m) }
}

/// The text handed to the `rrule` crate for a recurring event.
pub open spec fn rule_text(m: EventModel) -> Seq<char> {
    dtstart_line(m) + "\nRRULE:"@ + m.rrule->0
}

/// Whether the zone of a zoned timed event is unknown.
pub open spec fn zone_unknown(m: EventModel) -> bool {
    m.timezone is Some && !m.all_day && !known_zone(m.timezone->0)
}

/// Whether the `rrule` crate refuses the rule of a recurring event.
pub open spec fn rule_refused(m: EventModel, from: i64, to: i64) -> bool {
    m.rrule is Some && !zone_unknown(m) && rule_set_dates(
        rule_text(m),
        m.rdates,
        m.exdates,
        search_from(m, from) as i64,
        to,
        MAX_OCCURRENCES,
    ) is None
}

/// The candidate starts of an event, or a message: the start and the
/// rdates that are not exception dates for a single event; the dates the
/// rule set gives between the widened window bounds for a recurring one.
/// For a rule the crate refuses, the message is the start of the one
/// given: the crate's own words follow it.
pub open spec fn candidate_starts(m: EventModel, from: i64, to: i64) -> DatesOrMessage {
    match m.rrule {
        None => Ok(seq![m.start_at] + not_excluded(m.rdates, m.exdates)),
        Some(rule) => if zone_unknown(m) {
            Err("unknown zone "@ + m.timezone->0)
        } else {
            match rule_set_dates(rule_text(m), m.rdates, m.exdates, search_from(m, from) as i64, to, MAX_OCCURRENCES) {
                Some(ds) => Ok(ds),
                None => Err("invalid RRULE '"@ + rule + "': "@),
            }
        },
    }
}

/// Whether `e` is the message expanding `m` gives: the candidate starts'
/// message, followed by the crate's words when the crate refused the rule.
pub open spec fn expansion_message(m: EventModel, from: i64, to: i64, e: Seq<char>) -> bool {
    match candidate_starts(m, from, to) {
        Err(p) => if rule_refused(m, from, to) { p.is_prefix_of(e) } else { e == p },
        Ok(_) => false,
    }
}

/// `out` holds one occurrence for each of the first `cap` kept candidate
/// starts, ordered by start, without repeats: every kept start is there,
/// or `cap` occurrences that all start before it are.
pub open spec fn finished_upto(
    out: Seq<Occurrence>,
    starts: Seq<i64>,
    overridden: Seq<i64>,
    dur: int,
    all_day: bool,
    from: int,
    to: int,
    cap: int,
) -> bool {
    &&& out.len() <= cap
    &&& forall|k: int, l: int| 0 <= k < l < out.len() ==> #[trigger] out[k].start_at < #[trigger] out[l].start_at
    &&& forall|k: int|
        0 <= k < out.len() ==> #[trigger] out[k] == occurrence_at(out[k].start_at, dur, all_day) && starts.contains(out[k].start_at)
            && kept(out[k].start_at, overridden, dur, from, to)
    &&& forall|i: int|
        0 <= i < starts.len() && kept(starts[i], overridden, dur, from, to) ==> (exists|k: int|
            0 <= k < out.len() && #[trigger] out[k].start_at == #[trigger] starts[i]) || (out.len() == cap && out[cap - 1].start_at
            < starts[i])
}

/// Whether each instant, and each instant moved by `shift` seconds, lies in
/// the range `chrono` represents.
pub open spec fn all_within(ts: Seq<i64>, shift: int) -> bool {
    forall|i: int| 0 <= i < ts.len() ==> representable(ts[i] as int) && representable(ts[i] + shift)
}

/// What `expand` needs of its inputs so that no instant it computes leaves
/// the range `chrono` represents.
pub open spec fn expandable(m: EventModel, from: i64, to: i64) -> bool {
    &&& representable(m.start_at as int)
    &&& representable(m.end_at as int)
    &&& all_within(m.rdates, span(m))
    &&& all_within(m.exdates, 0)
    &&& representable(from - abs(span(m)))
    &&& representable(to + abs(span(m)))
    &&& representable(from as int)
    &&& representable(to as int)
}

fn rdates_not_excluded(rdates: &Vec<i64>, exdates: &Vec<i64>) -> (r: Vec<i64>)
    ensures
        r@ == not_excluded(rdates@, exdates@),
{
    let mut out: Vec<i64> = Vec::new();
    let mut i: usize = 0;
    assert(rdates@.take(0) =~= Seq::<i64>::empty());
    while i < rdates.len()
        invariant
            i <= rdates.len(),
            out@ == not_excluded(rdates@.take(i as int), exdates@),
        decreases rdates.len() - i,
    {
        assert(rdates@.take(i + 1).drop_last() =~= rdates@.take(i as int));
        assert(rdates@.take(i + 1).last() == rdates@[i as int]);
        let ghost before = out@;
        if !contains_instant(exdates.as_slice(), rdates[i]) {
            out.push(rdates[i]);
        }
        assert(out@ =~= not_excluded(rdates@.take(i + 1), exdates@));
        i = i + 1;
    }
    assert(rdates@.take(rdates.len() as int) =~= rdates@);
    out
}

proof fn lemma_not_excluded_in(rdates: Seq<i64>, exdates: Seq<i64>, k: int)
    requires
        0 <= k < not_excluded(rdates, exdates).len(),
    ensures
        rdates.contains(not_excluded(rdates, exdates)[k]),
    decreases rdates.len(),
{
    if rdates.len() > 0 {
        let d = rdates.drop_last();
        if k < not_excluded(d, exdates).len() {
            lemma_not_excluded_in(d, exdates, k);
            let q = choose|q: int| 0 <= q < d.len() && d[q] == not_excluded(d, exdates)[k];
            assert(rdates[q] == d[q]);
        } else {
            assert(rdates[rdates.len() - 1] == rdates.last());
        }
    }
}

/// The first `n` occurrences, or all when there are fewer.
fn first_occurrences(v: Vec<Occurrence>, n: usize) -> (r: Vec<Occurrence>)
    ensures
        r@ == if v@.len() <= n { v@ } else { v@.take(n as int) },
{
    let mut v = v;
    v.truncate(n);
    v
}

/// Keeping the first `cap` of the finished occurrences gives finished
/// occurrences up to `cap`.
proof fn lemma_first_finished(
    full: Seq<Occurrence>,
    starts: Seq<i64>,
    overridden: Seq<i64>,
    dur: int,
    all_day: bool,
    from: int,
    to: int,
    cap: int,
)
    requires
        finished(full, starts, overridden, dur, all_day, from, to),
        cap > 0,
    ensures
        finished_upto(if full.len() <= cap { full } else { full.take(cap) }, starts, overridden, dur, all_day, from, to, cap),
{
    let out = if full.len() <= cap { full } else { full.take(cap) };
    assert forall|i: int| 0 <= i < starts.len() && kept(starts[i], overridden, dur, from, to) implies (exists|k: int|
        0 <= k < out.len() && #[trigger] out[k].start_at == #[trigger] starts[i]) || (out.len() == cap && out[cap - 1].start_at
        < starts[i]) by {
        let k = choose|k: int| 0 <= k < full.len() && #[trigger] full[k].start_at == #[trigger] starts[i];
        if k < out.len() {
            assert(out[k] == full[k]);
        } else {
            assert(out[cap - 1] == full[cap - 1]);
            assert(full[cap - 1].start_at < full[k].start_at);
        }
    }
    assert forall|k: int, l: int| 0 <= k < l < out.len() implies #[trigger] out[k].start_at < #[trigger] out[l].start_at by {
        assert(out[k] == full[k] && out[l] == full[l]);
    }
    assert forall|k: int| 0 <= k < out.len() implies #[trigger] out[k] == occurrence_at(out[k].start_at, dur, all_day)
        && starts.contains(out[k].start_at) && kept(out[k].start_at, overridden, dur, from, to) by {
        assert(out[k] == full[k]);
    }
}

/// Expand `master` into occurrences inside `[from, to)`, at most
/// `MAX_OCCURRENCES` of them (the earliest). Occurrences whose original
/// start matches an entry of `overridden` (the RECURRENCE-IDs of override
/// events) are omitted, since the overrides supply their own occurrence.
pub fn expand(master: &ParsedEvent, overridden: &[i64], from: i64, to: i64) -> (r: Result<Vec<Occurrence>, String>)
    requires
        expandable(master@, from, to),
    ensures
        r is Err <==> candidate_starts(master@, from, to) is Err,
        r matches Err(e) ==> expansion_message(master@, from, to, e@),
        r matches Ok(out) ==> candidate_starts(master@, from, to) matches Ok(starts) && finished_upto(
            out@,
            starts,
            overridden@,
            span(master@),
            master.all_day,
            from as int,
            to as int,
            MAX_OCCURRENCES as int,
        ),
        r matches Ok(out) ==> out@.len() <= MAX_OCCURRENCES,
{
    let duration = master.end_at - master.start_at;
    let rule = match &master.rrule {
        None => {
            // Non-recurring, but still honour RDATEs if present.
            let mut starts: Vec<i64> = Vec::new();
            starts.push(master.start_at);
            let mut rest = rdates_not_excluded(&master.rdates, &master.exdates);
            let ghost extra = rest@;
            starts.append(&mut rest);
            assert(starts@ =~= seq![master.start_at] + not_excluded(master.rdates@, master.exdates@));
            assert forall|i: int| 0 <= i < starts@.len() implies representable(starts@[i] + duration) && representable(
                starts@[i] as int,
            ) by {
                if i > 0 {
                    lemma_not_excluded_in(master.rdates@, master.exdates@, i - 1);
                    let q = choose|q: int| 0 <= q < master.rdates@.len() && master.rdates@[q] == extra[i - 1];
                }
            }
            let all = finish_occurrences(starts.as_slice(), overridden, duration, master.all_day, from, to);
            let ghost full = all@;
            let out = first_occurrences(all, MAX_OCCURRENCES as usize);
            proof {
                lemma_first_finished(full, starts@, overridden@, duration as int, master.all_day, from as int, to as int, MAX_OCCURRENCES as int);
            }
            return Ok(out);
        },
        Some(rule) => rule,
    };
    // Build the DTSTART line in the zone the event was defined in so that
    // DST transitions keep the local wall time.
    let mut text = match (&master.timezone, master.all_day) {
        (Some(zone), false) => {
            if !is_known_zone(zone.as_str()) {
                let mut msg = String::from_str("unknown zone ");
                msg.append(zone.as_str());
                return Err(msg);
            }
            let local = format_zone_wall(zone.as_str(), master.start_at).unwrap();
            let mut line = String::from_str("DTSTART;TZID=");
            line.append(zone.as_str());
            line.append(":");
            line.append(local.as_str());
            line
        },
        _ => {
            let mut line = String::from_str("DTSTART:");
            let stamp = format_utc_stamp(master.start_at);
            line.append(stamp.as_str());
            line
        },
    };
    text.append("\nRRULE:");
    text.append(rule.as_str());
    let lower = from - if duration < 0 { 0 } else { duration };
    let dates = match rrule_dates(text.as_str(), master.rdates.as_slice(), master.exdates.as_slice(), lower, to, MAX_OCCURRENCES) {
        Ok(ds) => ds,
        Err(e) => {
            let mut msg = String::from_str("invalid RRULE '");
            msg.append(rule.as_str());
            msg.append("': ");
            let ghost p = msg@;
            msg.append(e.as_str());
            assert(msg@.subrange(0, p.len() as int) =~= p);
            return Err(msg);
        },
    };
    assert forall|i: int| 0 <= i < dates@.len() implies representable(dates@[i] + duration) && representable(dates@[i] as int) by {
        assert(lower <= dates@[i] <= to);
    }
    let out = finish_occurrences(dates.as_slice(), overridden, duration, master.all_day, from, to);
    assert(finished_upto(out@, dates@, overridden@, duration as int, master.all_day, from as int, to as int, MAX_OCCURRENCES as int));
    Ok(out)
}

} // verus!
