//! Render shared events as an iCalendar feed that Google Calendar, Apple
//! Calendar, Outlook and friends can subscribe to.

use vstd::prelude::*;
use vstd::string::*;

use crate::ids::{format_uuid, uuid_text};
use crate::models::Rsvp;
use crate::sharing::SharedEvent;
use crate::text::{chars_of, push_char};
use crate::timefmt::{format_utc_date, format_utc_stamp, representable, utc_date_text, utc_stamp_text};

verus! {

broadcast use vstd::string::group_string_axioms;

/// Number of UTF-8 octets of a character (`char::len_utf8`).
pub open spec fn utf8_len(c: char) -> int {
    if (c as u32) < 0x80 {
        1
    } else if (c as u32) < 0x800 {
        2
    } else if (c as u32) < 0x10000 {
        3
    } else {
        4
    }
}

pub fn char_utf8_len(c: char) -> (n: usize)
    ensures
        n == utf8_len(c),
{
    let v = c as u32;
    if v < 0x80 {
        1
    } else if v < 0x800 {
        2
    } else if v < 0x10000 {
        3
    } else {
        4
    }
}

/// RFC 5545 TEXT escaping of one character.
pub open spec fn escape_char(c: char) -> Seq<char> {
    if c == '\\' {
        seq!['\\', '\\']
    } else if c == ';' {
        seq!['\\', ';']
    } else if c == ',' {
        seq!['\\', ',']
    } else if c == '\n' {
        seq!['\\', 'n']
    } else if c == '\r' {
        Seq::empty()
    } else {
        seq![c]
    }
}

/// RFC 5545 TEXT escaping: backslash, semicolon and comma are escaped,
/// newlines become `\n`, carriage returns are dropped.
pub open spec fn escape_seq(s: Seq<char>) -> Seq<char>
    decreases s.len(),
{
    if s.len() == 0 {
        Seq::empty()
    } else {
        escape_seq(s.drop_last()) + escape_char(s.last())
    }
}

/// Escape per RFC 5545 section 3.3.11.
pub fn escape_text(s: &str) -> (r: String)
    ensures
        r@ == escape_seq(s@),
{
    let cs = chars_of(s);
    let mut out = String::new();
    let mut i: usize = 0;
    while i < cs.len()
        invariant
            cs@ == s@,
            i <= cs.len(),
            out@ == escape_seq(cs@.take(i as int)),
        decreases cs.len() - i,
    {
        let c = cs[i];
        proof {
            assert(cs@.take(i + 1).drop_last() =~= cs@.take(i as int));
        }
        if c == '\\' {
            push_char(&mut out, '\\');
            push_char(&mut out, '\\');
        } else if c == ';' {
            push_char(&mut out, '\\');
            push_char(&mut out, ';');
        } else if c == ',' {
            push_char(&mut out, '\\');
            push_char(&mut out, ',');
        } else if c == '\n' {
            push_char(&mut out, '\\');
            push_char(&mut out, 'n');
        } else if c == '\r' {
        } else {
            push_char(&mut out, c);
        }
        proof {
            assert(out@ =~= escape_seq(cs@.take(i as int)) + escape_char(c));
        }
        i = i + 1;
    }
    proof {
        assert(cs@.take(cs.len() as int) =~= s@);
    }
    out
}

/// Folding of the rest `cs` of a content line at 75 octets: `current` octets
/// are already on the physical line, which is the first one when `first`.
/// Continuation lines start with a space, which counts toward their length.
pub open spec fn fold_from(cs: Seq<char>, current: int, first: bool) -> Seq<char>
    decreases cs.len(),
{
    if cs.len() == 0 {
        seq!['\r', '\n']
    } else {
        let c = cs[0];
        let len = utf8_len(c);
        let limit: int = if first { 75 } else { 74 };
        if current + len > limit {
            seq!['\r', '\n', ' ', c] + fold_from(cs.drop_first(), len, false)
        } else {
            seq![c] + fold_from(cs.drop_first(), current + len, first)
        }
    }
}

/// A content line folded at 75 octets and terminated by CRLF.
pub open spec fn folded(content: Seq<char>) -> Seq<char> {
    fold_from(content, 0, true)
}

/// Write a content line, folding at 75 octets as required by RFC 5545.
pub fn line(out: &mut String, content: &str)
    ensures
        final(out)@ == old(out)@ + folded(content@),
{
    let cs = chars_of(content);
    let mut current: usize = 0;
    let mut first = true;
    let mut i: usize = 0;
    assert(cs@.skip(0) =~= cs@);
    while i < cs.len()
        invariant
            cs@ == content@,
            i <= cs.len(),
            current <= 75,
            out@ + fold_from(cs@.skip(i as int), current as int, first) == old(out)@ + folded(content@),
        decreases cs.len() - i,
    {
        let ch = cs[i];
        let len = char_utf8_len(ch);
        let limit: usize = if first { 75 } else { 74 };
        let ghost rest = cs@.skip(i as int);
        proof {
            assert(rest[0] == ch);
            assert(rest.drop_first() =~= cs@.skip(i + 1));
        }
        let ghost before = out@;
        let ghost cur0 = current as int;
        let ghost first0 = first;
        if current + len > limit {
            push_char(out, '\r');
            push_char(out, '\n');
            push_char(out, ' ');
            current = 0;
            first = false;
        }
        push_char(out, ch);
        current = current + len;
        proof {
            assert(out@ + fold_from(cs@.skip(i + 1), current as int, first) =~= before + fold_from(rest, cur0, first0));
        }
        i = i + 1;
    }
    proof {
        assert(cs@.skip(cs.len() as int) =~= Seq::<char>::empty());
    }
    push_char(out, '\r');
    push_char(out, '\n');
    proof {
        assert(final(out)@ =~= old(out)@ + folded(content@));
    }
}

} // verus!

verus! {

/// Whether every physical line of `s` (the text between CRLFs) holds at most
/// 75 octets, the current line already holding `used` octets.
pub open spec fn lines_fit(s: Seq<char>, used: int) -> bool
    decreases s.len(),
{
    if s.len() == 0 {
        true
    } else if s.len() >= 2 && s[0] == '\r' && s[1] == '\n' {
        lines_fit(s.skip(2), 0)
    } else {
        used + utf8_len(s[0]) <= 75 && lines_fit(s.drop_first(), used + utf8_len(s[0]))
    }
}

/// `s` with every fold (CRLF followed by a space) taken out.
pub open spec fn unfold(s: Seq<char>) -> Seq<char>
    decreases s.len(),
{
    if s.len() == 0 {
        s
    } else if s.len() >= 3 && s[0] == '\r' && s[1] == '\n' && s[2] == ' ' {
        unfold(s.skip(3))
    } else {
        seq![s[0]] + unfold(s.drop_first())
    }
}

pub open spec fn no_carriage_return(s: Seq<char>) -> bool {
    forall|i: int| 0 <= i < s.len() ==> s[i] != '\r'
}

proof fn lemma_fold_fits(cs: Seq<char>, cur: int, first: bool)
    requires
        no_carriage_return(cs),
        0 <= cur,
        cur + (if first { 0int } else { 1int }) <= 75,
    ensures
        lines_fit(fold_from(cs, cur, first), cur + (if first { 0int } else { 1int })),
        unfold(fold_from(cs, cur, first)) == cs + seq!['\r', '\n'],
    decreases cs.len(),
{
    let off: int = if first { 0 } else { 1 };
    let out = fold_from(cs, cur, first);
    if cs.len() == 0 {
        assert(out.skip(2) =~= Seq::<char>::empty());
        assert(out.drop_first() =~= seq!['\n']);
        assert(seq!['\n'].drop_first() =~= Seq::<char>::empty());
        assert(unfold(Seq::<char>::empty()) =~= Seq::<char>::empty());
        assert(unfold(seq!['\n']) =~= seq!['\n'] + unfold(Seq::<char>::empty()));
        assert(unfold(seq!['\n']) =~= seq!['\n']);
        assert(lines_fit(Seq::<char>::empty(), 0));
        assert(lines_fit(out, cur + off));
        assert(unfold(out) =~= seq!['\r', '\n']);
        assert(cs + seq!['\r', '\n'] =~= seq!['\r', '\n']);
    } else {
        let c = cs[0];
        let len = utf8_len(c);
        let rest = cs.drop_first();
        assert(no_carriage_return(rest)) by {
            assert forall|i: int| 0 <= i < rest.len() implies rest[i] != '\r' by {
                assert(rest[i] == cs[i + 1]);
            }
        }
        assert(c != '\r');
        let limit: int = if first { 75 } else { 74 };
        if cur + len > limit {
            let f = fold_from(rest, len, false);
            lemma_fold_fits(rest, len, false);
            assert(out == seq!['\r', '\n', ' ', c] + f);
            assert(out.skip(2) =~= seq![' ', c] + f);
            assert((seq![' ', c] + f).drop_first() =~= seq![c] + f);
            assert((seq![c] + f).drop_first() =~= f);
            assert(lines_fit(seq![c] + f, 1));
            assert(lines_fit(seq![' ', c] + f, 0));
            assert(out.skip(3) =~= seq![c] + f);
            assert(unfold(seq![c] + f) =~= seq![c] + unfold(f));
            assert(unfold(out) =~= cs + seq!['\r', '\n']);
        } else {
            let f = fold_from(rest, cur + len, first);
            lemma_fold_fits(rest, cur + len, first);
            assert(out == seq![c] + f);
            assert(out.drop_first() =~= f);
            assert(unfold(out) =~= cs + seq!['\r', '\n']);
        }
    }
}

/// A folded content line consists of physical lines of at most 75 octets,
/// and taking the folds out gives back the content followed by CRLF.
pub proof fn law_folded_lines_fit(content: Seq<char>)
    requires
        no_carriage_return(content),
    ensures
        lines_fit(folded(content), 0),
        unfold(folded(content)) == content + seq!['\r', '\n'],
{
    lemma_fold_fits(content, 0, true);
}

} // verus!

verus! {

/// The product identifier written into every calendar this server renders.
pub open spec fn prodid_line() -> Seq<char> {
    "PRODID:-//OpenTempus//0.1.0//EN"@
}

/// The label of an RSVP state in feeds and descriptions.
pub open spec fn rsvp_label_text(r: Rsvp) -> Seq<char> {
    match r {
        Rsvp::Organizer => "organizer"@,
        Rsvp::Accepted => "accepted"@,
        Rsvp::Tentative => "tentative"@,
        Rsvp::Declined => "declined"@,
        Rsvp::NeedsAction => "needs-action"@,
        Rsvp::Unknown => "unknown"@,
    }
}

pub fn rsvp_label(r: Rsvp) -> (s: &'static str)
    ensures
        s@ == rsvp_label_text(r),
{
    match r {
        Rsvp::Organizer => "organizer",
        Rsvp::Accepted => "accepted",
        Rsvp::Tentative => "tentative",
        Rsvp::Declined => "declined",
        Rsvp::NeedsAction => "needs-action",
        Rsvp::Unknown => "unknown",
    }
}

/// The UID of a mirrored event: `ot-<instance id>@<host>`.
pub open spec fn mirror_uid_text(instance_id: u128, host: Seq<char>) -> Seq<char> {
    "ot-"@ + uuid_text(instance_id) + "@"@ + host
}

pub fn mirror_uid(instance_id: u128, host: &str) -> (s: String)
    ensures
        s@ == mirror_uid_text(instance_id, host@),
{
    let mut s = String::from_str("ot-");
    let id = format_uuid(instance_id);
    s.append(id.as_str());
    s.append("@");
    s.append(host);
    s
}

/// The lines of `parts` joined with newlines.
pub open spec fn join_newline(parts: Seq<Seq<char>>) -> Seq<char>
    decreases parts.len(),
{
    if parts.len() == 0 {
        Seq::empty()
    } else if parts.len() == 1 {
        parts[0]
    } else {
        join_newline(parts.drop_last()) + seq!['\n'] + parts.last()
    }
}

/// The description of a shared event: its own description, then the origin
/// calendar, category and RSVP when they are visible.
pub open spec fn description_parts(ev: SharedEvent) -> Seq<Seq<char>> {
    (match ev.description { Some(d) => seq![d@], None => Seq::empty() })
        + (match ev.origin_calendar { Some(o) => seq!["Calendar: "@ + o@], None => Seq::empty() })
        + (match ev.category { Some(c) => seq!["Category: "@ + c@], None => Seq::empty() })
        + (match ev.rsvp { Some(r) => seq!["RSVP: "@ + rsvp_label_text(r)], None => Seq::empty() })
}

/// The DTSTART and DTEND lines: dates for all-day events, UTC date-times
/// otherwise.
pub open spec fn time_lines(ev: SharedEvent) -> Seq<Seq<char>> {
    if ev.all_day {
        seq!["DTSTART;VALUE=DATE:"@ + utc_date_text(ev.start), "DTEND;VALUE=DATE:"@ + utc_date_text(ev.end)]
    } else {
        seq!["DTSTART:"@ + utc_stamp_text(ev.start), "DTEND:"@ + utc_stamp_text(ev.end)]
    }
}

pub open spec fn transp_line(ev: SharedEvent) -> Seq<char> {
    if ev.busy { "TRANSP:OPAQUE"@ } else { "TRANSP:TRANSPARENT"@ }
}

pub open spec fn status_line(ev: SharedEvent) -> Seq<char> {
    match ev.rsvp {
        Some(Rsvp::Tentative) => "STATUS:TENTATIVE"@,
        Some(Rsvp::NeedsAction) => "STATUS:TENTATIVE"@,
        _ => "STATUS:CONFIRMED"@,
    }
}

/// The summary shown for an event: its title, or a placeholder.
pub open spec fn summary_or(ev: SharedEvent, placeholder: Seq<char>) -> Seq<char> {
    match ev.title {
        Some(t) => t@,
        None => placeholder,
    }
}

pub open spec fn description_lines(ev: SharedEvent) -> Seq<Seq<char>> {
    if description_parts(ev).len() > 0 {
        seq!["DESCRIPTION:"@ + escape_seq(join_newline(description_parts(ev)))]
    } else {
        Seq::empty()
    }
}

pub open spec fn location_lines(ev: SharedEvent) -> Seq<Seq<char>> {
    match ev.location {
        Some(l) => seq!["LOCATION:"@ + escape_seq(l@)],
        None => Seq::empty(),
    }
}

pub open spec fn summary_lines(ev: SharedEvent, placeholder: Seq<char>) -> Seq<Seq<char>> {
    seq!["SUMMARY:"@ + escape_seq(summary_or(ev, placeholder))]
}

pub open spec fn feed_category_lines(ev: SharedEvent) -> Seq<Seq<char>> {
    match ev.category {
        Some(c) => seq!["CATEGORIES:"@ + escape_seq(c@), "X-OPENTEMPUS-CATEGORY:"@ + escape_seq(c@)],
        None => Seq::empty(),
    }
}

pub open spec fn feed_rsvp_lines(ev: SharedEvent) -> Seq<Seq<char>> {
    match ev.rsvp {
        Some(r) => seq!["X-OPENTEMPUS-RSVP:"@ + rsvp_label_text(r)],
        None => Seq::empty(),
    }
}

pub open spec fn feed_event_head(ev: SharedEvent, host: Seq<char>, stamp: Seq<char>) -> Seq<Seq<char>> {
    seq!["BEGIN:VEVENT"@, "UID:"@ + uuid_text(ev.id) + "@"@ + host, "DTSTAMP:"@ + stamp]
}

pub open spec fn event_tail(ev: SharedEvent) -> Seq<Seq<char>> {
    seq![transp_line(ev), status_line(ev), "END:VEVENT"@]
}

pub open spec fn busy_placeholder(ev: SharedEvent) -> Seq<char> {
    if ev.busy { "Busy"@ } else { "Free"@ }
}

/// The content lines of one event of a feed.
pub open spec fn feed_event_lines(ev: SharedEvent, host: Seq<char>, stamp: Seq<char>) -> Seq<Seq<char>> {
    feed_event_head(ev, host, stamp)
        + time_lines(ev)
        + summary_lines(ev, busy_placeholder(ev))
        + feed_category_lines(ev)
        + feed_rsvp_lines(ev)
        + description_lines(ev)
        + location_lines(ev)
        + event_tail(ev)
}

/// The content lines of all events of a feed.
pub open spec fn feed_events_lines(events: Seq<SharedEvent>, host: Seq<char>, stamp: Seq<char>) -> Seq<Seq<char>>
    decreases events.len(),
{
    if events.len() == 0 {
        Seq::empty()
    } else {
        feed_events_lines(events.drop_last(), host, stamp) + feed_event_lines(events.last(), host, stamp)
    }
}

/// The content lines of a feed.
pub open spec fn feed_lines(events: Seq<SharedEvent>, name: Seq<char>, host: Seq<char>, now: i64) -> Seq<Seq<char>> {
    seq![
        "BEGIN:VCALENDAR"@,
        "VERSION:2.0"@,
        prodid_line(),
        "CALSCALE:GREGORIAN"@,
        "METHOD:PUBLISH"@,
        "X-WR-CALNAME:"@ + escape_seq(name),
        "X-PUBLISHED-TTL:PT15M"@,
    ] + feed_events_lines(events, host, utc_stamp_text(now)) + seq!["END:VCALENDAR"@]
}

pub open spec fn mirror_head(ev: SharedEvent, host: Seq<char>) -> Seq<Seq<char>> {
    seq![
        "BEGIN:VCALENDAR"@,
        "VERSION:2.0"@,
        prodid_line(),
        "BEGIN:VEVENT"@,
        "UID:"@ + mirror_uid_text(ev.id, host),
        "DTSTAMP:"@ + utc_stamp_text(ev.start),
        "X-OPENTEMPUS-MIRROR:1"@,
    ]
}

pub open spec fn mirror_category_lines(ev: SharedEvent) -> Seq<Seq<char>> {
    match ev.category {
        Some(c) => seq!["CATEGORIES:"@ + escape_seq(c@)],
        None => Seq::empty(),
    }
}

/// The content lines of a standalone object mirroring one event.
pub open spec fn mirror_lines(ev: SharedEvent, placeholder: Seq<char>, host: Seq<char>) -> Seq<Seq<char>> {
    mirror_head(ev, host)
        + time_lines(ev)
        + summary_lines(ev, placeholder)
        + mirror_category_lines(ev)
        + description_lines(ev)
        + location_lines(ev)
        + event_tail(ev)
        + seq!["END:VCALENDAR"@]
}

/// Content lines folded and concatenated.
pub open spec fn fold_all(lines: Seq<Seq<char>>) -> Seq<char>
    decreases lines.len(),
{
    if lines.len() == 0 {
        Seq::empty()
    } else {
        fold_all(lines.drop_last()) + folded(lines.last())
    }
}

/// Whether the instants an event carries can be rendered.
pub open spec fn renderable(ev: SharedEvent) -> bool {
    representable(ev.start as int) && representable(ev.end as int)
}

} // verus!

verus! {

/// Fold and write one content line, recording it among the lines written.
fn emit(out: &mut String, Ghost(lines): Ghost<Seq<Seq<char>>>, content: &str) -> (written: Ghost<Seq<Seq<char>>>)
    requires
        old(out)@ == fold_all(lines),
    ensures
        written@ == lines.push(content@),
        final(out)@ == fold_all(written@),
{
    line(out, content);
    proof {
        assert(lines.push(content@).drop_last() =~= lines);
    }
    Ghost(lines.push(content@))
}

fn prefixed(prefix: &str, rest: &str) -> (s: String)
    ensures
        s@ == prefix@ + rest@,
{
    let mut s = String::from_str(prefix);
    s.append(rest);
    s
}

/// Append a part to a newline-joined description.
fn add_part(desc: &mut String, Ghost(parts): Ghost<Seq<Seq<char>>>, any: bool, part: &str) -> (now: Ghost<Seq<Seq<char>>>)
    requires
        old(desc)@ == join_newline(parts),
        any == (parts.len() > 0),
    ensures
        now@ == parts.push(part@),
        final(desc)@ == join_newline(now@),
{
    if any {
        push_char(desc, '\n');
    }
    desc.append(part);
    proof {
        let p = parts.push(part@);
        assert(p.drop_last() =~= parts);
        if parts.len() == 0 {
            assert(final(desc)@ =~= part@);
        }
    }
    Ghost(parts.push(part@))
}

/// The newline-joined description of a shared event, and whether it has any part.
fn description_of(ev: &SharedEvent) -> (r: (String, bool))
    ensures
        r.0@ == join_newline(description_parts(*ev)),
        r.1 == (description_parts(*ev).len() > 0),
{
    let mut desc = String::new();
    let mut parts: Ghost<Seq<Seq<char>>> = Ghost(Seq::empty());
    let mut any = false;
    if let Some(d) = &ev.description {
        parts = add_part(&mut desc, parts, any, d.as_str());
        any = true;
    }
    if let Some(o) = &ev.origin_calendar {
        let p = prefixed("Calendar: ", o.as_str());
        parts = add_part(&mut desc, parts, any, p.as_str());
        any = true;
    }
    if let Some(c) = &ev.category {
        let p = prefixed("Category: ", c.as_str());
        parts = add_part(&mut desc, parts, any, p.as_str());
        any = true;
    }
    if let Some(r) = &ev.rsvp {
        let p = prefixed("RSVP: ", rsvp_label(*r));
        parts = add_part(&mut desc, parts, any, p.as_str());
        any = true;
    }
    proof {
        assert(parts@ =~= description_parts(*ev));
    }
    (desc, any)
}

} // verus!

verus! {

fn emit_time_lines(out: &mut String, Ghost(lines): Ghost<Seq<Seq<char>>>, ev: &SharedEvent) -> (written: Ghost<Seq<Seq<char>>>)
    requires
        old(out)@ == fold_all(lines),
        renderable(*ev),
    ensures
        written@ == lines + time_lines(*ev),
        final(out)@ == fold_all(written@),
{
    let mut ls = Ghost(lines);
    if ev.all_day {
        let a = prefixed("DTSTART;VALUE=DATE:", format_utc_date(ev.start).as_str());
        ls = emit(out, ls, a.as_str());
        let b = prefixed("DTEND;VALUE=DATE:", format_utc_date(ev.end).as_str());
        ls = emit(out, ls, b.as_str());
    } else {
        let a = prefixed("DTSTART:", format_utc_stamp(ev.start).as_str());
        ls = emit(out, ls, a.as_str());
        let b = prefixed("DTEND:", format_utc_stamp(ev.end).as_str());
        ls = emit(out, ls, b.as_str());
    }
    proof {
        assert(ls@ =~= lines + time_lines(*ev));
    }
    ls
}

fn emit_description_and_location(out: &mut String, Ghost(lines): Ghost<Seq<Seq<char>>>, ev: &SharedEvent) -> (written: Ghost<Seq<Seq<char>>>)
    requires
        old(out)@ == fold_all(lines),
    ensures
        written@ == lines + description_lines(*ev) + location_lines(*ev),
        final(out)@ == fold_all(written@),
{
    let mut ls = Ghost(lines);
    let (desc, any) = description_of(ev);
    if any {
        let d = prefixed("DESCRIPTION:", escape_text(desc.as_str()).as_str());
        ls = emit(out, ls, d.as_str());
    }
    if let Some(l) = &ev.location {
        let d = prefixed("LOCATION:", escape_text(l.as_str()).as_str());
        ls = emit(out, ls, d.as_str());
    }
    proof {
        assert(ls@ =~= lines + description_lines(*ev) + location_lines(*ev));
    }
    ls
}

fn emit_tail(out: &mut String, Ghost(lines): Ghost<Seq<Seq<char>>>, ev: &SharedEvent) -> (written: Ghost<Seq<Seq<char>>>)
    requires
        old(out)@ == fold_all(lines),
    ensures
        written@ == lines + event_tail(*ev),
        final(out)@ == fold_all(written@),
{
    let mut ls = Ghost(lines);
    ls = emit(out, ls, if ev.busy { "TRANSP:OPAQUE" } else { "TRANSP:TRANSPARENT" });
    let tentative = match ev.rsvp {
        Some(Rsvp::Tentative) | Some(Rsvp::NeedsAction) => true,
        _ => false,
    };
    ls = emit(out, ls, if tentative { "STATUS:TENTATIVE" } else { "STATUS:CONFIRMED" });
    ls = emit(out, ls, "END:VEVENT");
    proof {
        assert(ls@ =~= lines + event_tail(*ev));
    }
    ls
}

fn emit_summary(out: &mut String, Ghost(lines): Ghost<Seq<Seq<char>>>, ev: &SharedEvent, placeholder: &str)
    -> (written: Ghost<Seq<Seq<char>>>)
    requires
        old(out)@ == fold_all(lines),
    ensures
        written@ == lines + summary_lines(*ev, placeholder@),
        final(out)@ == fold_all(written@),
{
    let summary = match &ev.title {
        Some(t) => escape_text(t.as_str()),
        None => escape_text(placeholder),
    };
    let s = prefixed("SUMMARY:", summary.as_str());
    let ls = emit(out, Ghost(lines), s.as_str());
    proof {
        assert(ls@ =~= lines + summary_lines(*ev, placeholder@));
    }
    ls
}

fn emit_feed_head(out: &mut String, Ghost(lines): Ghost<Seq<Seq<char>>>, ev: &SharedEvent, host: &str, stamp: &str)
    -> (written: Ghost<Seq<Seq<char>>>)
    requires
        old(out)@ == fold_all(lines),
    ensures
        written@ == lines + feed_event_head(*ev, host@, stamp@),
        final(out)@ == fold_all(written@),
{
    let mut ls = Ghost(lines);
    ls = emit(out, ls, "BEGIN:VEVENT");
    let mut uid = prefixed("UID:", format_uuid(ev.id).as_str());
    uid.append("@");
    uid.append(host);
    ls = emit(out, ls, uid.as_str());
    let stamp_line = prefixed("DTSTAMP:", stamp);
    ls = emit(out, ls, stamp_line.as_str());
    proof {
        assert(ls@ =~= lines + feed_event_head(*ev, host@, stamp@));
    }
    ls
}

fn emit_feed_category_and_rsvp(out: &mut String, Ghost(lines): Ghost<Seq<Seq<char>>>, ev: &SharedEvent)
    -> (written: Ghost<Seq<Seq<char>>>)
    requires
        old(out)@ == fold_all(lines),
    ensures
        written@ == lines + feed_category_lines(*ev) + feed_rsvp_lines(*ev),
        final(out)@ == fold_all(written@),
{
    let mut ls = Ghost(lines);
    if let Some(c) = &ev.category {
        let e = escape_text(c.as_str());
        let a = prefixed("CATEGORIES:", e.as_str());
        ls = emit(out, ls, a.as_str());
        let b = prefixed("X-OPENTEMPUS-CATEGORY:", e.as_str());
        ls = emit(out, ls, b.as_str());
    }
    let ghost l1 = ls@;
    assert(l1 =~= lines + feed_category_lines(*ev));
    if let Some(r) = &ev.rsvp {
        let a = prefixed("X-OPENTEMPUS-RSVP:", rsvp_label(*r));
        ls = emit(out, ls, a.as_str());
    }
    proof {
        assert(ls@ =~= l1 + feed_rsvp_lines(*ev));
    }
    ls
}

fn emit_feed_event(out: &mut String, Ghost(lines): Ghost<Seq<Seq<char>>>, ev: &SharedEvent, host: &str, stamp: &str)
    -> (written: Ghost<Seq<Seq<char>>>)
    requires
        old(out)@ == fold_all(lines),
        renderable(*ev),
    ensures
        written@ == lines + feed_event_lines(*ev, host@, stamp@),
        final(out)@ == fold_all(written@),
{
    let ghost e = *ev;
    let mut ls = emit_feed_head(out, Ghost(lines), ev, host, stamp);
    let ghost x1 = feed_event_head(e, host@, stamp@);
    ls = emit_time_lines(out, ls, ev);
    let ghost x2 = x1 + time_lines(e);
    assert(ls@ =~= lines + x2);
    ls = emit_summary(out, ls, ev, if ev.busy { "Busy" } else { "Free" });
    let ghost x3 = x2 + summary_lines(e, busy_placeholder(e));
    assert(ls@ =~= lines + x3);
    ls = emit_feed_category_and_rsvp(out, ls, ev);
    let ghost x4 = x3 + feed_category_lines(e) + feed_rsvp_lines(e);
    assert(ls@ =~= lines + x4);
    ls = emit_description_and_location(out, ls, ev);
    let ghost x5 = x4 + description_lines(e) + location_lines(e);
    assert(ls@ =~= lines + x5);
    ls = emit_tail(out, ls, ev);
    let ghost x6 = x5 + event_tail(e);
    assert(ls@ =~= lines + x6);
    assert(x6 == feed_event_lines(e, host@, stamp@));
    ls
}

} // verus!

verus! {

/// What a feed is rendered for: its calendar name, the host used in UIDs and
/// the current instant (used as DTSTAMP).
pub struct FeedOptions<'a> {
    pub calendar_name: &'a str,
    pub host: &'a str,
    pub now: i64,
}

fn emit_prodid(out: &mut String, Ghost(lines): Ghost<Seq<Seq<char>>>) -> (written: Ghost<Seq<Seq<char>>>)
    requires
        old(out)@ == fold_all(lines),
    ensures
        written@ == lines.push(prodid_line()),
        final(out)@ == fold_all(written@),
{
    emit(out, Ghost(lines), "PRODID:-//OpenTempus//0.1.0//EN")
}

/// Render shared events as an iCalendar feed.
pub fn render_feed(events: &[SharedEvent], opts: &FeedOptions<'_>) -> (out: String)
    requires
        representable(opts.now as int),
        forall|i: int| 0 <= i < events@.len() ==> renderable(#[trigger] events@[i]),
    ensures
        out@ == fold_all(feed_lines(events@, opts.calendar_name@, opts.host@, opts.now)),
{
    let mut out = String::new();
    let mut ls: Ghost<Seq<Seq<char>>> = Ghost(Seq::empty());
    ls = emit(&mut out, ls, "BEGIN:VCALENDAR");
    ls = emit(&mut out, ls, "VERSION:2.0");
    ls = emit_prodid(&mut out, ls);
    ls = emit(&mut out, ls, "CALSCALE:GREGORIAN");
    ls = emit(&mut out, ls, "METHOD:PUBLISH");
    let name = prefixed("X-WR-CALNAME:", escape_text(opts.calendar_name).as_str());
    ls = emit(&mut out, ls, name.as_str());
    ls = emit(&mut out, ls, "X-PUBLISHED-TTL:PT15M");
    let ghost header = ls@;
    let dtstamp = format_utc_stamp(opts.now);
    let mut i: usize = 0;
    while i < events.len()
        invariant
            i <= events.len(),
            forall|k: int| 0 <= k < events@.len() ==> renderable(#[trigger] events@[k]),
            ls@ == header + feed_events_lines(events@.take(i as int), opts.host@, dtstamp@),
            out@ == fold_all(ls@),
        decreases events.len() - i,
    {
        proof {
            assert(events@.take(i + 1).drop_last() =~= events@.take(i as int));
            assert(events@.take(i + 1).last() == events@[i as int]);
        }
        ls = emit_feed_event(&mut out, ls, &events[i], opts.host, dtstamp.as_str());
        proof {
            assert(ls@ =~= header + feed_events_lines(events@.take(i + 1), opts.host@, dtstamp@));
        }
        i = i + 1;
    }
    ls = emit(&mut out, ls, "END:VCALENDAR");
    proof {
        assert(events@.take(events.len() as int) =~= events@);
        assert(ls@ =~= feed_lines(events@, opts.calendar_name@, opts.host@, opts.now));
    }
    out
}

/// Render one shared event as a standalone iCalendar object suitable for a
/// CalDAV PUT. The result is deterministic for the same input (no DTSTAMP
/// variation) so callers can hash it to detect changes.
pub fn render_mirror_object(ev: &SharedEvent, placeholder_title: &str, host: &str) -> (out: String)
    requires
        renderable(*ev),
    ensures
        out@ == fold_all(mirror_lines(*ev, placeholder_title@, host@)),
{
    let mut out = String::new();
    let mut ls: Ghost<Seq<Seq<char>>> = Ghost(Seq::empty());
    ls = emit(&mut out, ls, "BEGIN:VCALENDAR");
    ls = emit(&mut out, ls, "VERSION:2.0");
    ls = emit_prodid(&mut out, ls);
    ls = emit(&mut out, ls, "BEGIN:VEVENT");
    let uid = prefixed("UID:", mirror_uid(ev.id, host).as_str());
    ls = emit(&mut out, ls, uid.as_str());
    let stamp = prefixed("DTSTAMP:", format_utc_stamp(ev.start).as_str());
    ls = emit(&mut out, ls, stamp.as_str());
    ls = emit(&mut out, ls, "X-OPENTEMPUS-MIRROR:1");
    let ghost head = ls@;
    assert(head =~= mirror_head(*ev, host@));
    ls = emit_time_lines(&mut out, ls, ev);
    ls = emit_summary(&mut out, ls, ev, placeholder_title);
    let ghost l1 = ls@;
    if let Some(c) = &ev.category {
        let a = prefixed("CATEGORIES:", escape_text(c.as_str()).as_str());
        ls = emit(&mut out, ls, a.as_str());
    }
    assert(ls@ =~= l1 + mirror_category_lines(*ev));
    ls = emit_description_and_location(&mut out, ls, ev);
    ls = emit_tail(&mut out, ls, ev);
    ls = emit(&mut out, ls, "END:VCALENDAR");
    proof {
        assert(ls@ =~= mirror_lines(*ev, placeholder_title@, host@));
    }
    out
}


/// Whether every line is non-empty and does not start with `T`: none of
/// them is a TRANSP line.
pub open spec fn no_transp_lines(s: Seq<Seq<char>>) -> bool {
    forall|i: int| 0 <= i < s.len() ==> (#[trigger] s[i]).len() > 0 && s[i][0] != 'T'
}

proof fn lemma_no_transp_concat(a: Seq<Seq<char>>, b: Seq<Seq<char>>)
    requires
        no_transp_lines(a),
        no_transp_lines(b),
    ensures
        no_transp_lines(a + b),
{
    assert forall|i: int| 0 <= i < (a + b).len() implies (#[trigger] (a + b)[i]).len() > 0 && (a + b)[i][0] != 'T' by {
        if i < a.len() {
            assert((a + b)[i] == a[i]);
        } else {
            assert((a + b)[i] == b[i - a.len()]);
        }
    }
}

proof fn lemma_event_pieces_have_no_transp(ev: SharedEvent, host: Seq<char>, stamp: Seq<char>, placeholder: Seq<char>)
    ensures
        no_transp_lines(feed_event_head(ev, host, stamp)),
        no_transp_lines(time_lines(ev)),
        no_transp_lines(summary_lines(ev, placeholder)),
        no_transp_lines(feed_category_lines(ev)),
        no_transp_lines(feed_rsvp_lines(ev)),
        no_transp_lines(description_lines(ev)),
        no_transp_lines(location_lines(ev)),
        no_transp_lines(mirror_head(ev, host)),
        no_transp_lines(mirror_category_lines(ev)),
{
    reveal_strlit("BEGIN:VEVENT");
    reveal_strlit("UID:");
    reveal_strlit("DTSTAMP:");
    reveal_strlit("DTSTART;VALUE=DATE:");
    reveal_strlit("DTEND;VALUE=DATE:");
    reveal_strlit("DTSTART:");
    reveal_strlit("DTEND:");
    reveal_strlit("SUMMARY:");
    reveal_strlit("CATEGORIES:");
    reveal_strlit("X-OPENTEMPUS-CATEGORY:");
    reveal_strlit("X-OPENTEMPUS-RSVP:");
    reveal_strlit("DESCRIPTION:");
    reveal_strlit("LOCATION:");
    reveal_strlit("BEGIN:VCALENDAR");
    reveal_strlit("VERSION:2.0");
    reveal_strlit("PRODID:-//OpenTempus//0.1.0//EN");
    reveal_strlit("X-OPENTEMPUS-MIRROR:1");
    reveal_strlit("ot-");
    let h = feed_event_head(ev, host, stamp);
    assert(h[1][0] == 'U');
    assert(h[2][0] == 'D');
    let t = time_lines(ev);
    assert(t[0][0] == 'D' && t[1][0] == 'D');
    assert(summary_lines(ev, placeholder)[0][0] == 'S');
    if ev.category is Some {
        assert(feed_category_lines(ev)[0][0] == 'C');
        assert(feed_category_lines(ev)[1][0] == 'X');
        assert(mirror_category_lines(ev)[0][0] == 'C');
    }
    if ev.rsvp is Some {
        assert(feed_rsvp_lines(ev)[0][0] == 'X');
    }
    if description_parts(ev).len() > 0 {
        assert(description_lines(ev)[0][0] == 'D');
    }
    if ev.location is Some {
        assert(location_lines(ev)[0][0] == 'L');
    }
    let m = mirror_head(ev, host);
    assert(m[4][0] == 'U');
    assert(m[5][0] == 'D');
}

proof fn lemma_tail_decides_transp(a: Seq<Seq<char>>, ev: SharedEvent, rest: Seq<Seq<char>>)
    requires
        no_transp_lines(a),
        no_transp_lines(rest),
    ensures
        (a + event_tail(ev) + rest).contains("TRANSP:OPAQUE"@) == ev.busy,
        (a + event_tail(ev) + rest).contains("TRANSP:TRANSPARENT"@) == !ev.busy,
{
    reveal_strlit("TRANSP:OPAQUE");
    reveal_strlit("TRANSP:TRANSPARENT");
    reveal_strlit("STATUS:TENTATIVE");
    reveal_strlit("STATUS:CONFIRMED");
    reveal_strlit("END:VEVENT");
    let lines = a + event_tail(ev) + rest;
    let n: int = a.len() as int;
    assert(lines[n] == transp_line(ev));
    assert(lines[n + 1] == status_line(ev));
    assert(lines[n + 1][0] == 'S');
    assert(lines[n + 2][0] == 'E');
    assert("TRANSP:OPAQUE"@.len() != "TRANSP:TRANSPARENT"@.len());
    assert forall|x: Seq<char>| x.len() > 0 && x[0] == 'T' && #[trigger] lines.contains(x) implies x == transp_line(ev) by {
        let i = choose|i: int| 0 <= i < lines.len() && lines[i] == x;
        if i < n {
            assert(lines[i] == a[i]);
        } else if i >= n + 3 {
            assert(lines[i] == rest[i - n - 3]);
        }
    }
    assert("TRANSP:OPAQUE"@[0] == 'T');
    assert("TRANSP:TRANSPARENT"@[0] == 'T');
}

/// A rendered event says it blocks time exactly when it is busy: its lines
/// hold `TRANSP:OPAQUE` when the shared event is busy and
/// `TRANSP:TRANSPARENT` when it is free, and never the other one; in a
/// feed and in a mirrored object alike.
pub proof fn law_transparency_follows_busy(ev: SharedEvent, host: Seq<char>, stamp: Seq<char>, placeholder: Seq<char>)
    ensures
        feed_event_lines(ev, host, stamp).contains("TRANSP:OPAQUE"@) == ev.busy,
        feed_event_lines(ev, host, stamp).contains("TRANSP:TRANSPARENT"@) == !ev.busy,
        mirror_lines(ev, placeholder, host).contains("TRANSP:OPAQUE"@) == ev.busy,
        mirror_lines(ev, placeholder, host).contains("TRANSP:TRANSPARENT"@) == !ev.busy,
{
    lemma_event_pieces_have_no_transp(ev, host, stamp, busy_placeholder(ev));
    lemma_event_pieces_have_no_transp(ev, host, stamp, placeholder);
    let f1 = feed_event_head(ev, host, stamp) + time_lines(ev);
    lemma_no_transp_concat(feed_event_head(ev, host, stamp), time_lines(ev));
    let f2 = f1 + summary_lines(ev, busy_placeholder(ev));
    lemma_no_transp_concat(f1, summary_lines(ev, busy_placeholder(ev)));
    let f3 = f2 + feed_category_lines(ev);
    lemma_no_transp_concat(f2, feed_category_lines(ev));
    let f4 = f3 + feed_rsvp_lines(ev);
    lemma_no_transp_concat(f3, feed_rsvp_lines(ev));
    let f5 = f4 + description_lines(ev);
    lemma_no_transp_concat(f4, description_lines(ev));
    let f6 = f5 + location_lines(ev);
    lemma_no_transp_concat(f5, location_lines(ev));
    assert(no_transp_lines(Seq::<Seq<char>>::empty()));
    lemma_tail_decides_transp(f6, ev, Seq::empty());
    assert(feed_event_lines(ev, host, stamp) =~= f6 + event_tail(ev) + Seq::<Seq<char>>::empty());
    let m1 = mirror_head(ev, host) + time_lines(ev);
    lemma_no_transp_concat(mirror_head(ev, host), time_lines(ev));
    let m2 = m1 + summary_lines(ev, placeholder);
    lemma_no_transp_concat(m1, summary_lines(ev, placeholder));
    let m3 = m2 + mirror_category_lines(ev);
    lemma_no_transp_concat(m2, mirror_category_lines(ev));
    let m4 = m3 + description_lines(ev);
    lemma_no_transp_concat(m3, description_lines(ev));
    let m5 = m4 + location_lines(ev);
    lemma_no_transp_concat(m4, location_lines(ev));
    reveal_strlit("END:VCALENDAR");
    let end = seq!["END:VCALENDAR"@];
    assert(end[0][0] == 'E');
    lemma_tail_decides_transp(m5, ev, end);
    assert(mirror_lines(ev, placeholder, host) =~= m5 + event_tail(ev) + end);
}


proof fn lemma_event_lines_in_feed(events: Seq<SharedEvent>, host: Seq<char>, stamp: Seq<char>, k: int, x: Seq<char>)
    requires
        0 <= k < events.len(),
        feed_event_lines(events[k], host, stamp).contains(x),
    ensures
        feed_events_lines(events, host, stamp).contains(x),
    decreases events.len(),
{
    let a = feed_events_lines(events.drop_last(), host, stamp);
    let b = feed_event_lines(events.last(), host, stamp);
    assert(feed_events_lines(events, host, stamp) == a + b);
    if k == events.len() - 1 {
        let i = choose|i: int| 0 <= i < b.len() && b[i] == x;
        assert((a + b)[a.len() + i] == x);
    } else {
        assert(events.drop_last()[k] == events[k]);
        lemma_event_lines_in_feed(events.drop_last(), host, stamp, k, x);
        let i = choose|i: int| 0 <= i < a.len() && a[i] == x;
        assert((a + b)[i] == x);
    }
}

/// A feed marks every busy event as blocking time and every free one as
/// not blocking it.
pub proof fn law_feed_marks_busy_events(events: Seq<SharedEvent>, name: Seq<char>, host: Seq<char>, now: i64, k: int)
    requires
        0 <= k < events.len(),
    ensures
        events[k].busy ==> feed_lines(events, name, host, now).contains("TRANSP:OPAQUE"@),
        !events[k].busy ==> feed_lines(events, name, host, now).contains("TRANSP:TRANSPARENT"@),
{
    let stamp = utc_stamp_text(now);
    law_transparency_follows_busy(events[k], host, stamp, Seq::empty());
    let x = if events[k].busy { "TRANSP:OPAQUE"@ } else { "TRANSP:TRANSPARENT"@ };
    lemma_event_lines_in_feed(events, host, stamp, k, x);
    let head = seq![
        "BEGIN:VCALENDAR"@,
        "VERSION:2.0"@,
        prodid_line(),
        "CALSCALE:GREGORIAN"@,
        "METHOD:PUBLISH"@,
        "X-WR-CALNAME:"@ + escape_seq(name),
        "X-PUBLISHED-TTL:PT15M"@,
    ];
    let body = feed_events_lines(events, host, stamp);
    let tail = seq!["END:VCALENDAR"@];
    assert(feed_lines(events, name, host, now) == head + body + tail);
    let i = choose|i: int| 0 <= i < body.len() && body[i] == x;
    assert((head + body + tail)[head.len() + i] == x);
}

} // verus!
