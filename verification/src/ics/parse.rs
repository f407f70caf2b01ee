//! Parse an iCalendar document into normalized events.

use vstd::prelude::*;
use vstd::string::*;

use crate::ics::generate::{char_utf8_len, escape_char, escape_seq, utf8_len};
use crate::models::{EventStatus, Rsvp, Transparency};
use crate::ics::tz::{resolve, resolve_zone};
use crate::text::{
    chars_of, eq_ignore_case, lower_seq, parse_i32, parse_i32_value, push_char, split_char, split_plain, str_eq_ignore_case,
    str_equals, string_of, strip_prefixes, to_ascii_lowercase, to_ascii_uppercase, trim, trim_seq, trim_start_matches, upper_seq,
};
use crate::timefmt::{
    ical_date_value, ical_wall_clock, known_zone, parse_ical_date, parse_ical_wall_clock, representable, utc_zone_name,
    zone_instant, zone_to_instant, InstantOrMessage, EARLIEST_INSTANT, LATEST_INSTANT,
};

verus! {

broadcast use vstd::string::group_string_axioms;

/// One content line of an iCalendar component: its name, its parameters
/// (each with its list of values) and its value.
#[derive(Clone, Debug)]
pub struct Property {
    pub name: String,
    pub params: Option<Vec<(String, Vec<String>)>>,
    pub value: Option<String>,
}

// ---- TEXT values -------------------------------------------------------------

/// RFC 5545 TEXT unescaping: a backslash takes the next character literally,
/// except that `\n` and `\N` stand for a newline; a trailing lone backslash
/// is dropped.
pub open spec fn unescape_raw(s: Seq<char>) -> Seq<char>
    decreases s.len(),
{
    if s.len() == 0 {
        s
    } else if s[0] == '\\' {
        if s.len() >= 2 {
            seq![if s[1] == 'n' || s[1] == 'N' { '\n' } else { s[1] }] + unescape_raw(s.skip(2))
        } else {
            Seq::empty()
        }
    } else {
        seq![s[0]] + unescape_raw(s.drop_first())
    }
}

/// Undo RFC 5545 TEXT escaping, then trim surrounding whitespace.
pub fn unescape_text(s: &str) -> (r: String)
    ensures
        r@ == trim_seq(unescape_raw(s@)),
{
    let cs = chars_of(s);
    let mut out = String::new();
    let mut i: usize = 0;
    assert(cs@.skip(0) =~= cs@);
    while i < cs.len()
        invariant
            cs@ == s@,
            i <= cs.len(),
            out@ + unescape_raw(cs@.skip(i as int)) == unescape_raw(s@),
        decreases cs.len() - i,
    {
        let ghost rest = cs@.skip(i as int);
        let ghost before = out@;
        let c = cs[i];
        assert(rest[0] == c);
        if c == '\\' {
            if i + 1 < cs.len() {
                let n = cs[i + 1];
                assert(rest[1] == n);
                assert(rest.skip(2) =~= cs@.skip(i + 2));
                if n == 'n' || n == 'N' {
                    push_char(&mut out, '\n');
                } else {
                    push_char(&mut out, n);
                }
                i = i + 2;
            } else {
                assert(cs@.skip(i + 1) =~= Seq::<char>::empty());
                i = i + 1;
            }
        } else {
            push_char(&mut out, c);
            assert(rest.drop_first() =~= cs@.skip(i + 1));
            i = i + 1;
        }
        assert(out@ + unescape_raw(cs@.skip(i as int)) =~= before + unescape_raw(rest));
    }
    assert(cs@.skip(cs.len() as int) =~= Seq::<char>::empty());
    assert(out@ =~= unescape_raw(s@));
    trim(out.as_str())
}

/// `s` without carriage returns.
pub open spec fn without_cr(s: Seq<char>) -> Seq<char>
    decreases s.len(),
{
    if s.len() == 0 {
        s
    } else {
        without_cr(s.drop_last()) + if s.last() == '\r' { Seq::empty() } else { seq![s.last()] }
    }
}

proof fn lemma_unescape_escaped(s: Seq<char>, y: Seq<char>)
    ensures
        unescape_raw(escape_seq(s) + y) == without_cr(s) + unescape_raw(y),
    decreases s.len(),
{
    if s.len() == 0 {
        assert(escape_seq(s) + y =~= y);
        assert(without_cr(s) + unescape_raw(y) =~= unescape_raw(y));
    } else {
        let t = s.drop_last();
        let c = s.last();
        let e = escape_char(c);
        assert(escape_seq(s) + y =~= escape_seq(t) + (e + y));
        lemma_unescape_escaped(t, e + y);
        if c == '\\' || c == ';' || c == ',' || c == '\n' {
            assert((e + y).skip(2) =~= y);
        } else if c == '\r' {
            assert(e + y =~= y);
        } else {
            assert((e + y).drop_first() =~= y);
        }
        assert(unescape_raw(e + y) =~= (if c == '\r' { Seq::empty() } else { seq![c] }) + unescape_raw(y));
        assert(without_cr(s) + unescape_raw(y) =~= without_cr(t) + unescape_raw(e + y));
    }
}

/// Unescaping what was escaped gives the text back, without carriage
/// returns and surrounding whitespace.
pub proof fn law_unescape_undoes_escape(s: Seq<char>)
    ensures
        trim_seq(unescape_raw(escape_seq(s))) == trim_seq(without_cr(s)),
{
    lemma_unescape_escaped(s, Seq::empty());
    assert(escape_seq(s) + Seq::<char>::empty() =~= escape_seq(s));
    assert(without_cr(s) + unescape_raw(Seq::<char>::empty()) =~= without_cr(s));
}

/// Splitting `cs` on unescaped `sep`: `done` holds the finished pieces and
/// `cur` the piece being read. A backslash keeps itself and the next
/// character in the piece.
pub open spec fn split_from(cs: Seq<char>, sep: char, done: Seq<Seq<char>>, cur: Seq<char>) -> Seq<Seq<char>>
    decreases cs.len(),
{
    if cs.len() == 0 {
        done.push(cur)
    } else if cs[0] == '\\' {
        if cs.len() >= 2 {
            split_from(cs.skip(2), sep, done, cur + seq![cs[0], cs[1]])
        } else {
            done.push(cur.push('\\'))
        }
    } else if cs[0] == sep {
        split_from(cs.drop_first(), sep, done.push(cur), Seq::empty())
    } else {
        split_from(cs.drop_first(), sep, done, cur.push(cs[0]))
    }
}

/// The pieces of `s` between unescaped separators.
pub open spec fn split_unescaped_seq(s: Seq<char>, sep: char) -> Seq<Seq<char>> {
    split_from(s, sep, Seq::empty(), Seq::empty())
}

/// Split on a separator unless it is escaped with a backslash.
pub fn split_unescaped(s: &str, sep: char) -> (r: Vec<String>)
    ensures
        r.deep_view() == split_unescaped_seq(s@, sep),
{
    let cs = chars_of(s);
    let mut out: Vec<String> = Vec::new();
    let mut cur = String::new();
    let mut i: usize = 0;
    assert(cs@.skip(0) =~= cs@);
    assert(out.deep_view() =~= Seq::<Seq<char>>::empty());
    while i < cs.len()
        invariant
            cs@ == s@,
            i <= cs.len(),
            split_from(cs@.skip(i as int), sep, out.deep_view(), cur@) == split_unescaped_seq(s@, sep),
        decreases cs.len() - i,
    {
        let ghost rest = cs@.skip(i as int);
        let ghost done0 = out.deep_view();
        let ghost cur0 = cur@;
        let c = cs[i];
        assert(rest[0] == c);
        if c == '\\' {
            push_char(&mut cur, c);
            if i + 1 < cs.len() {
                let n = cs[i + 1];
                assert(rest[1] == n);
                assert(rest.skip(2) =~= cs@.skip(i + 2));
                push_char(&mut cur, n);
                assert(cur@ =~= cur0 + seq![c, n]);
                i = i + 2;
            } else {
                assert(cs@.skip(i + 1) =~= Seq::<char>::empty());
                i = i + 1;
            }
        } else if c == sep {
            let piece = cur;
            cur = String::new();
            out.push(piece);
            assert(out.deep_view() =~= done0.push(cur0));
            assert(rest.drop_first() =~= cs@.skip(i + 1));
            i = i + 1;
        } else {
            push_char(&mut cur, c);
            assert(rest.drop_first() =~= cs@.skip(i + 1));
            i = i + 1;
        }
    }
    assert(cs@.skip(cs.len() as int) =~= Seq::<char>::empty());
    let ghost done0 = out.deep_view();
    let ghost cur0 = cur@;
    out.push(cur);
    assert(out.deep_view() =~= done0.push(cur0));
    out
}

} // verus!

verus! {

/// The largest duration `chrono::TimeDelta` holds in whole seconds
/// (`i64::MAX` milliseconds).
pub const MAX_DURATION_SECS: i64 = 9223372036854775;

pub open spec fn is_digit(c: char) -> bool {
    '0' <= c && c <= '9'
}

/// The decimal value of a sequence of digits.
pub open spec fn digits_value(d: Seq<char>) -> int
    decreases d.len(),
{
    if d.len() == 0 {
        0
    } else {
        digits_value(d.drop_last()) * 10 + (d.last() as int - '0' as int)
    }
}

/// Seconds per unit of a duration designator (`M` is minutes only after `T`).
pub open spec fn unit_secs(c: char) -> int {
    if c == 'W' {
        604800
    } else if c == 'D' {
        86400
    } else if c == 'H' {
        3600
    } else if c == 'M' {
        60
    } else {
        1
    }
}

pub open spec fn is_unit(c: char) -> bool {
    c == 'W' || c == 'D' || c == 'H' || c == 'M' || c == 'S'
}

/// The seconds of the part of a duration after `P`: digits accumulate in
/// `num`, `T` starts the time part, and each unit adds `num` of itself.
/// `None` when the text is malformed or leaves the range of a duration.
pub open spec fn duration_body(cs: Seq<char>, num: Seq<char>, in_time: bool, total: int) -> Option<int>
    decreases cs.len(),
{
    if cs.len() == 0 {
        Some(total)
    } else {
        let c = cs[0];
        if is_digit(c) {
            duration_body(cs.drop_first(), num.push(c), in_time, total)
        } else if c == 'T' {
            duration_body(cs.drop_first(), num, true, total)
        } else if is_unit(c) {
            if num.len() == 0 || digits_value(num) > i64::MAX {
                None
            } else if c == 'M' && !in_time {
                None
            } else {
                let part = digits_value(num) * unit_secs(c);
                if part > MAX_DURATION_SECS || total + part > MAX_DURATION_SECS {
                    None
                } else {
                    duration_body(cs.drop_first(), Seq::empty(), in_time, total + part)
                }
            }
        } else {
            None
        }
    }
}

/// The seconds of an RFC 5545 DURATION, such as `P1DT2H30M`, `-PT15M` or `P2W`.
pub open spec fn duration_secs(s: Seq<char>) -> Option<int> {
    let t = trim_seq(s);
    let neg = t.len() > 0 && t[0] == '-';
    let rest = if neg {
        t.drop_first()
    } else if t.len() > 0 && t[0] == '+' {
        t.drop_first()
    } else {
        t
    };
    if rest.len() == 0 || rest[0] != 'P' {
        None
    } else {
        match duration_body(rest.drop_first(), Seq::empty(), false, 0) {
            Some(v) => Some(if neg { -v } else { v }),
            None => None,
        }
    }
}

proof fn lemma_digits_prefix(d: Seq<char>, i: int)
    requires
        0 <= i <= d.len(),
        forall|k: int| 0 <= k < d.len() ==> is_digit(#[trigger] d[k]),
    ensures
        digits_value(d.take(i)) <= digits_value(d),
        0 <= digits_value(d.take(i)),
    decreases d.len() - i,
{
    if i == d.len() {
        assert(d.take(i) =~= d);
        lemma_digits_nonneg(d);
    } else {
        lemma_digits_prefix(d, i + 1);
        assert(d.take(i + 1).drop_last() =~= d.take(i));
        lemma_digits_nonneg(d.take(i));
    }
}

proof fn lemma_digits_nonneg(d: Seq<char>)
    requires
        forall|k: int| 0 <= k < d.len() ==> is_digit(#[trigger] d[k]),
    ensures
        0 <= digits_value(d),
    decreases d.len(),
{
    if d.len() > 0 {
        lemma_digits_nonneg(d.drop_last());
    }
}

/// The value of a digit string as an `i64` (`str::parse::<i64>` on digits).
fn digits_to_i64(d: &Vec<char>) -> (r: Option<i64>)
    requires
        forall|k: int| 0 <= k < d@.len() ==> is_digit(#[trigger] d@[k]),
    ensures
        r == if d@.len() == 0 || digits_value(d@) > i64::MAX { None::<i64> } else { Some(digits_value(d@) as i64) },
{
    if d.len() == 0 {
        return None;
    }
    let mut v: i128 = 0;
    let mut i: usize = 0;
    while i < d.len()
        invariant
            forall|k: int| 0 <= k < d@.len() ==> is_digit(#[trigger] d@[k]),
            i <= d.len(),
            v == digits_value(d@.take(i as int)),
            0 <= v <= i64::MAX,
        decreases d.len() - i,
    {
        proof {
            assert(d@.take(i + 1).drop_last() =~= d@.take(i as int));
        }
        v = v * 10 + ((d[i] as u32) - ('0' as u32)) as i128;
        i = i + 1;
        if v > i64::MAX as i128 {
            proof {
                lemma_digits_prefix(d@, i as int);
            }
            return None;
        }
    }
    assert(d@.take(d.len() as int) =~= d@);
    Some(v as i64)
}

/// The error for a malformed duration.
pub open spec fn bad_duration(t: Seq<char>) -> Seq<char> {
    "bad duration "@ + t
}

/// Parse an RFC 5545 DURATION such as `P1DT2H30M`, `-PT15M` or `P2W` into
/// seconds.
pub fn parse_duration(s: &str) -> (r: Result<i64, String>)
    ensures
        r matches Ok(v) ==> duration_secs(s@) == Some(v as int),
        r matches Ok(v) ==> -MAX_DURATION_SECS <= v <= MAX_DURATION_SECS,
        r matches Err(e) ==> duration_secs(s@) is None && e@ == bad_duration(trim_seq(s@)),
        duration_secs(s@) is Some ==> r is Ok,
{
    let t = trim(s);
    let cs = chars_of(t.as_str());
    let ghost ts = t@;
    let mut msg = String::from_str("bad duration ");
    msg.append(t.as_str());
    let neg = cs.len() > 0 && cs[0] == '-';
    let start: usize = if neg || (cs.len() > 0 && cs[0] == '+') { 1 } else { 0 };
    let ghost rest = if neg { ts.drop_first() } else if ts.len() > 0 && ts[0] == '+' { ts.drop_first() } else { ts };
    assert(rest =~= cs@.skip(start as int));
    if start >= cs.len() || cs[start] != 'P' {
        return Err(msg);
    }
    let mut total: i64 = 0;
    let mut num: Vec<char> = Vec::new();
    let mut in_time = false;
    let mut i: usize = start + 1;
    assert(cs@.skip(i as int) =~= rest.drop_first());
    while i < cs.len()
        invariant
            cs@ == ts,
            ts == trim_seq(s@),
            msg@ == bad_duration(ts),
            rest.len() > 0 && rest[0] == 'P',
            neg == (ts.len() > 0 && ts[0] == '-'),
            rest == (if neg { ts.drop_first() } else if ts.len() > 0 && ts[0] == '+' { ts.drop_first() } else { ts }),
            start + 1 <= i <= cs.len(),
            0 <= total <= MAX_DURATION_SECS,
            forall|k: int| 0 <= k < num@.len() ==> is_digit(#[trigger] num@[k]),
            duration_body(cs@.skip(i as int), num@, in_time, total as int)
                == duration_body(rest.drop_first(), Seq::empty(), false, 0),
        decreases cs.len() - i,
    {
        let c = cs[i];
        let ghost cur = cs@.skip(i as int);
        assert(cur[0] == c);
        assert(cur.drop_first() =~= cs@.skip(i + 1));
        if '0' <= c && c <= '9' {
            num.push(c);
        } else if c == 'T' {
            in_time = true;
        } else if c == 'W' || c == 'D' || c == 'H' || c == 'M' || c == 'S' {
            let n = match digits_to_i64(&num) {
                Some(n) => n,
                None => return Err(msg),
            };
            if c == 'M' && !in_time {
                return Err(msg);
            }
            let unit: i128 = if c == 'W' { 604800 } else if c == 'D' { 86400 } else if c == 'H' { 3600 } else if c == 'M' { 60 } else { 1 };
            proof {
                lemma_digits_nonneg(num@);
            }
            let part: i128 = (n as i128) * unit;
            if part > MAX_DURATION_SECS as i128 || (total as i128) + part > MAX_DURATION_SECS as i128 {
                return Err(msg);
            }
            total = ((total as i128) + part) as i64;
            num = Vec::new();
        } else {
            return Err(msg);
        }
        i = i + 1;
    }
    assert(cs@.skip(cs.len() as int) =~= Seq::<char>::empty());
    Ok(if neg { -total } else { total })
}

} // verus!

verus! {

/// A property as plain text: name, parameters with their values, value.
pub type PropertyModel = (Seq<char>, Option<Seq<(Seq<char>, Seq<Seq<char>>)>>, Option<Seq<char>>);

pub open spec fn property_model(p: Property) -> PropertyModel {
    (p.name@, p.params.deep_view(), p.value.deep_view())
}

pub open spec fn properties_model(ps: Seq<Property>) -> Seq<PropertyModel> {
    Seq::new(ps.len(), |i: int| property_model(ps[i]))
}

/// Whether a property has the given name, ignoring ASCII case.
pub open spec fn named(p: PropertyModel, name: Seq<char>) -> bool {
    eq_ignore_case(p.0, name)
}

pub open spec fn first_named_from(props: Seq<PropertyModel>, name: Seq<char>, i: int) -> Option<int>
    decreases props.len() - i,
{
    if i < 0 || i >= props.len() {
        None
    } else if named(props[i], name) {
        Some(i)
    } else {
        first_named_from(props, name, i + 1)
    }
}

/// The index of the first property with the given name.
pub open spec fn first_named(props: Seq<PropertyModel>, name: Seq<char>) -> Option<int> {
    first_named_from(props, name, 0)
}

/// The value of the first property with the given name.
pub open spec fn prop_value_of(props: Seq<PropertyModel>, name: Seq<char>) -> Option<Seq<char>> {
    match first_named(props, name) {
        Some(i) => props[i].2,
        None => None,
    }
}

pub open spec fn first_param_from(ps: Seq<(Seq<char>, Seq<Seq<char>>)>, name: Seq<char>, i: int) -> Option<int>
    decreases ps.len() - i,
{
    if i < 0 || i >= ps.len() {
        None
    } else if eq_ignore_case(ps[i].0, name) {
        Some(i)
    } else {
        first_param_from(ps, name, i + 1)
    }
}

/// The first value of the first parameter with the given name.
pub open spec fn param_of(p: PropertyModel, name: Seq<char>) -> Option<Seq<char>> {
    match p.1 {
        Some(ps) => match first_param_from(ps, name, 0) {
            Some(i) => if ps[i].1.len() > 0 { Some(ps[i].1[0]) } else { None },
            None => None,
        },
        None => None,
    }
}

/// Index of the first property with the given name.
pub fn find_prop(props: &[Property], name: &str) -> (r: Option<usize>)
    ensures
        r matches Some(i) ==> first_named(properties_model(props@), name@) == Some(i as int),
        r is None ==> first_named(properties_model(props@), name@) is None,
        r matches Some(i) ==> i < props@.len(),
{
    let ghost m = properties_model(props@);
    let mut i: usize = 0;
    while i < props.len()
        invariant
            m == properties_model(props@),
            i <= props.len(),
            first_named_from(m, name@, i as int) == first_named(m, name@),
        decreases props.len() - i,
    {
        assert(m[i as int] == property_model(props@[i as int]));
        if str_eq_ignore_case(props[i].name.as_str(), name) {
            return Some(i);
        }
        i = i + 1;
    }
    None
}

/// The value of the first property with the given name.
pub fn prop_value(props: &[Property], name: &str) -> (r: Option<String>)
    ensures
        r.deep_view() == prop_value_of(properties_model(props@), name@),
{
    let ghost m = properties_model(props@);
    match find_prop(props, name) {
        Some(i) => {
            assert(m[i as int] == property_model(props@[i as int]));
            props[i].value.clone()
        },
        None => None,
    }
}

/// The first value of the first parameter of `p` with the given name.
pub fn param(p: &Property, name: &str) -> (r: Option<String>)
    ensures
        r.deep_view() == param_of(property_model(*p), name@),
{
    match &p.params {
        None => None,
        Some(ps) => {
            let ghost m = ps.deep_view();
            let mut i: usize = 0;
            while i < ps.len()
                invariant
                    p.params == Some(*ps),
                    m == ps.deep_view(),
                    i <= ps.len(),
                    first_param_from(m, name@, i as int) == first_param_from(m, name@, 0),
                decreases ps.len() - i,
            {
                assert(m[i as int] == ps@[i as int].deep_view());
                if str_eq_ignore_case(ps[i].0.as_str(), name) {
                    if ps[i].1.len() > 0 {
                        assert(m[i as int].1[0] == ps@[i as int].1@[0]@);
                        return Some(ps[i].1[0].clone());
                    } else {
                        return None;
                    }
                }
                i = i + 1;
            }
            None
        },
    }
}

} // verus!

verus! {

/// A VEVENT component: its properties in document order.
#[derive(Clone, Debug)]
pub struct EventComponent {
    pub properties: Vec<Property>,
}

/// A VCALENDAR component: its own properties and its events.
#[derive(Clone, Debug)]
pub struct CalendarComponent {
    pub properties: Vec<Property>,
    pub events: Vec<EventComponent>,
}

/// A calendar as plain text: its properties and the properties of each event.
pub type CalendarModel = (Seq<PropertyModel>, Seq<Seq<PropertyModel>>);

/// The calendars read from a document, or a message.
pub type CalendarsOrMessage = Result<Seq<CalendarModel>, Seq<char>>;

pub open spec fn calendar_model(c: CalendarComponent) -> CalendarModel {
    (properties_model(c.properties@), Seq::new(c.events@.len(), |i: int| properties_model(c.events@[i].properties@)))
}

pub open spec fn calendars_model(cs: Seq<CalendarComponent>) -> Seq<CalendarModel> {
    Seq::new(cs.len(), |i: int| calendar_model(cs[i]))
}

/// The VCALENDAR components the `ical` crate reads from a document, up to
/// the first one it cannot read; then that error's message.
pub uninterp spec fn ical_calendars(text: Seq<char>) -> CalendarsOrMessage;

/// Reads the VCALENDAR components of a document with `ical::IcalParser`,
/// stopping at the first error.
#[verifier::external_body]
fn read_calendars(text: &str) -> (r: Result<Vec<CalendarComponent>, String>)
    ensures
        r matches Ok(cs) ==> ical_calendars(text@) == CalendarsOrMessage::Ok(calendars_model(cs@)),
        r matches Err(e) ==> ical_calendars(text@) == CalendarsOrMessage::Err(e@),
{
    let prop = |p: ical::property::Property| Property { name: p.name, params: p.params, value: p.value };
    let event = |e: ical::parser::ical::component::IcalEvent| EventComponent { properties: e.properties.into_iter().map(prop).collect() };
    ical::IcalParser::new(std::io::BufReader::new(text.as_bytes()))
        .map(|c| c.map(|c| CalendarComponent { properties: c.properties.into_iter().map(prop).collect(), events: c.events.into_iter().map(event).collect() }).map_err(|e| e.to_string()))
        .collect()
}

} // verus!

verus! {

/// Options that influence how ambiguous data is interpreted.
#[derive(Clone, Debug)]
pub struct ParseOptions {
    /// Email addresses that identify the calendar owner, lower-cased. Used to
    /// find the owner's PARTSTAT among attendees.
    pub owner_emails: Vec<String>,
    /// IANA name of the zone used for floating (zone-less) date-times.
    pub default_tz: String,
}

impl Default for ParseOptions {
    fn default() -> (o: ParseOptions)
        ensures
            o.owner_emails@.len() == 0,
            o.default_tz@ == "UTC"@,
            known_zone(o.default_tz@),
    {
        ParseOptions { owner_emails: Vec::new(), default_tz: utc_zone_name() }
    }
}

/// The address in a CAL-ADDRESS value, lower-cased: `mailto:` prefixes in
/// either case are removed.
pub open spec fn address_of(value: Seq<char>) -> Seq<char> {
    lower_seq(strip_prefixes(strip_prefixes(trim_seq(value), "mailto:"@), "MAILTO:"@))
}

/// Whether a CAL-ADDRESS value is one of the owner's addresses.
pub open spec fn is_owner_value(value: Seq<char>, emails: Seq<String>) -> bool {
    exists|i: int| 0 <= i < emails.len() && #[trigger] emails[i]@ == address_of(value)
}

pub open spec fn is_owner_prop(p: PropertyModel, emails: Seq<String>) -> bool {
    p.2 matches Some(v) && is_owner_value(v, emails)
}

/// The RSVP a PARTSTAT parameter stands for.
pub open spec fn partstat_rsvp(ps: Option<Seq<char>>) -> Rsvp {
    match ps {
        Some(p) => {
            let u = upper_seq(p);
            if u == "ACCEPTED"@ {
                Rsvp::Accepted
            } else if u == "TENTATIVE"@ {
                Rsvp::Tentative
            } else if u == "DECLINED"@ {
                Rsvp::Declined
            } else if u == "NEEDS-ACTION"@ {
                Rsvp::NeedsAction
            } else {
                Rsvp::Unknown
            }
        },
        None => Rsvp::Unknown,
    }
}

/// Index of the first ATTENDEE that is the owner, from `i` on.
pub open spec fn owner_attendee_from(props: Seq<PropertyModel>, emails: Seq<String>, i: int) -> Option<int>
    decreases props.len() - i,
{
    if i < 0 || i >= props.len() {
        None
    } else if named(props[i], "ATTENDEE"@) && is_owner_prop(props[i], emails) {
        Some(i)
    } else {
        owner_attendee_from(props, emails, i + 1)
    }
}

/// The owner's participation: organizer when the owner organizes it or when
/// there are no attendees, else the PARTSTAT of the owner's attendee entry.
pub open spec fn owner_rsvp_of(props: Seq<PropertyModel>, emails: Seq<String>) -> Rsvp {
    let org = first_named(props, "ORGANIZER"@);
    if org is Some && is_owner_prop(props[org->0], emails) {
        Rsvp::Organizer
    } else if first_named(props, "ATTENDEE"@) is None {
        Rsvp::Organizer
    } else {
        match owner_attendee_from(props, emails, 0) {
            Some(i) => partstat_rsvp(param_of(props[i], "PARTSTAT"@)),
            None => Rsvp::Unknown,
        }
    }
}

fn is_owner(value: &Option<String>, owner_emails: &Vec<String>) -> (r: bool)
    ensures
        r == (value matches Some(v) && is_owner_value(v@, owner_emails@)),
{
    match value {
        None => false,
        Some(v) => {
            proof {
                reveal_strlit("mailto:");
                reveal_strlit("MAILTO:");
            }
            let t = trim(v.as_str());
            let a = trim_start_matches(t.as_str(), "mailto:");
            let b = trim_start_matches(a.as_str(), "MAILTO:");
            let addr = to_ascii_lowercase(b.as_str());
            let mut i: usize = 0;
            while i < owner_emails.len()
                invariant
                    *value == Some(*v),
                    i <= owner_emails.len(),
                    addr@ == address_of(v@),
                    forall|k: int| 0 <= k < i ==> #[trigger] owner_emails@[k]@ != addr@,
                decreases owner_emails.len() - i,
            {
                if str_equals(owner_emails[i].as_str(), addr.as_str()) {
                    assert(owner_emails@[i as int]@ == address_of(v@));
                    assert(is_owner_value(v@, owner_emails@));
                    assert(*value == Some(*v));
                    return true;
                }
                i = i + 1;
            }
            false
        },
    }
}

fn partstat(p: &Property) -> (r: Rsvp)
    ensures
        r == partstat_rsvp(param_of(property_model(*p), "PARTSTAT"@)),
{
    match param(p, "PARTSTAT") {
        None => Rsvp::Unknown,
        Some(s) => {
            let u = to_ascii_uppercase(s.as_str());
            if str_equals(u.as_str(), "ACCEPTED") {
                Rsvp::Accepted
            } else if str_equals(u.as_str(), "TENTATIVE") {
                Rsvp::Tentative
            } else if str_equals(u.as_str(), "DECLINED") {
                Rsvp::Declined
            } else if str_equals(u.as_str(), "NEEDS-ACTION") {
                Rsvp::NeedsAction
            } else {
                Rsvp::Unknown
            }
        },
    }
}

/// The owner's participation status in an event.
pub fn owner_rsvp(props: &[Property], owner_emails: &Vec<String>) -> (r: Rsvp)
    ensures
        r == owner_rsvp_of(properties_model(props@), owner_emails@),
{
    let ghost m = properties_model(props@);
    if let Some(o) = find_prop(props, "ORGANIZER") {
        assert(m[o as int] == property_model(props@[o as int]));
        if is_owner(&props[o].value, owner_emails) {
            return Rsvp::Organizer;
        }
    }
    if find_prop(props, "ATTENDEE").is_none() {
        // An event in my own calendar without an attendee list is mine.
        return Rsvp::Organizer;
    }
    let mut i: usize = 0;
    while i < props.len()
        invariant
            i <= props.len(),
            m == properties_model(props@),
            !(first_named(m, "ORGANIZER"@) is Some && is_owner_prop(m[first_named(m, "ORGANIZER"@)->0], owner_emails@)),
            first_named(m, "ATTENDEE"@) is Some,
            owner_attendee_from(m, owner_emails@, i as int) == owner_attendee_from(m, owner_emails@, 0),
        decreases props.len() - i,
    {
        assert(m[i as int] == property_model(props@[i as int]));
        if str_eq_ignore_case(props[i].name.as_str(), "ATTENDEE") && is_owner(&props[i].value, owner_emails) {
            return partstat(&props[i]);
        }
        i = i + 1;
    }
    Rsvp::Unknown
}

} // verus!

verus! {

/// Number of UTF-8 octets of a text (`str::len`).
pub open spec fn octets(s: Seq<char>) -> int
    decreases s.len(),
{
    if s.len() == 0 {
        0
    } else {
        octets(s.drop_last()) + utf8_len(s.last())
    }
}

proof fn lemma_octets_grow(s: Seq<char>, i: int)
    requires
        0 <= i <= s.len(),
    ensures
        octets(s.take(i)) <= octets(s),
    decreases s.len() - i,
{
    if i < s.len() {
        lemma_octets_grow(s, i + 1);
        assert(s.take(i + 1).drop_last() =~= s.take(i));
    } else {
        assert(s.take(i) =~= s);
    }
}

/// Whether a text has exactly `n` UTF-8 octets.
fn has_octets(s: &str, n: usize) -> (r: bool)
    ensures
        r == (octets(s@) == n),
{
    let cs = chars_of(s);
    let mut total: usize = 0;
    let mut i: usize = 0;
    while i < cs.len()
        invariant
            cs@ == s@,
            i <= cs.len(),
            total == octets(cs@.take(i as int)),
            total <= n,
        decreases cs.len() - i,
    {
        assert(cs@.take(i + 1).drop_last() =~= cs@.take(i as int));
        let l = char_utf8_len(cs[i]);
        if l > n - total {
            proof {
                lemma_octets_grow(cs@, i + 1);
            }
            return false;
        }
        total = total + l;
        i = i + 1;
    }
    assert(cs@.take(cs.len() as int) =~= cs@);
    total == n
}

/// Whether a text has fewer than `n` UTF-8 octets.
pub fn octets_below(s: &str, n: usize) -> (r: bool)
    ensures
        r == (octets(s@) < n),
{
    let cs = chars_of(s);
    if n == 0 {
        proof {
            lemma_octets_grow(s@, 0);
            assert(s@.take(0) =~= Seq::<char>::empty());
        }
        return false;
    }
    let mut total: usize = 0;
    let mut i: usize = 0;
    assert(cs@.take(0) =~= Seq::<char>::empty());
    while i < cs.len()
        invariant
            cs@ == s@,
            i <= cs.len(),
            total == octets(cs@.take(i as int)),
            total < n,
        decreases cs.len() - i,
    {
        assert(cs@.take(i + 1).drop_last() =~= cs@.take(i as int));
        let l = char_utf8_len(cs[i]);
        if l >= n - total {
            proof {
                lemma_octets_grow(cs@, i + 1);
            }
            return false;
        }
        total = total + l;
        i = i + 1;
    }
    assert(cs@.take(cs.len() as int) =~= cs@);
    true
}

/// An instant with the zone used to read it, or a message.
pub type DateTimeOrMessage = Result<(i64, Option<Seq<char>>), Seq<char>>;

/// The instant a DATE or DATE-TIME value stands for, and the zone used to
/// read a local time (none for UTC and date values); or why it is none.
pub open spec fn datetime_value(v: Seq<char>, is_date: bool, zone: Option<Seq<char>>, default_tz: Seq<char>)
    -> DateTimeOrMessage
{
    if is_date || octets(v) == 8 {
        match ical_date_value(v) {
            Ok(t) => Ok((t, None)),
            Err(e) => Err("bad date "@ + v + ": "@ + e),
        }
    } else if v.len() > 0 && v.last() == 'Z' {
        match ical_wall_clock(v.drop_last()) {
            Ok(t) => Ok((t, None)),
            Err(e) => Err("bad date-time "@ + v + ": "@ + e),
        }
    } else {
        match ical_wall_clock(v) {
            Err(e) => Err("bad date-time "@ + v + ": "@ + e),
            Ok(w) => {
                let z = match zone { Some(z) => z, None => default_tz };
                match zone_instant(z, w) {
                    Some(t) => Ok((t, Some(z))),
                    None => Err("nonexistent local time "@ + v + " in "@ + z),
                }
            },
        }
    }
}

fn cat4(a: &str, b: &str, c: &str, d: &str) -> (s: String)
    ensures
        s@ == a@ + b@ + c@ + d@,
{
    let mut s = String::from_str(a);
    s.append(b);
    s.append(c);
    s.append(d);
    s
}

/// Parse an iCalendar DATE or DATE-TIME value. Returns the instant and the
/// zone that was used to interpret a local time (None for UTC/date values).
pub fn parse_datetime_value(value: &str, is_date: bool, zone: &Option<String>, default_tz: &str)
    -> (r: Result<(i64, Option<String>), String>)
    ensures
        r matches Ok(x) ==> datetime_value(value@, is_date, zone.deep_view(), default_tz@) == DateTimeOrMessage::Ok((x.0, x.1.deep_view())),
        r matches Err(e) ==> datetime_value(value@, is_date, zone.deep_view(), default_tz@) == DateTimeOrMessage::Err(e@),
        r matches Ok(x) ==> representable(x.0 as int),
{
    if is_date || has_octets(value, 8) {
        return match parse_ical_date(value) {
            Ok(t) => Ok((t, None)),
            Err(e) => Err(cat4("bad date ", value, ": ", e.as_str())),
        };
    }
    let cs = chars_of(value);
    if cs.len() > 0 && cs[cs.len() - 1] == 'Z' {
        let stripped = string_of(&cs, 0, cs.len() - 1);
        assert(stripped@ =~= value@.drop_last());
        return match parse_ical_wall_clock(stripped.as_str()) {
            Ok(t) => Ok((t, None)),
            Err(e) => Err(cat4("bad date-time ", value, ": ", e.as_str())),
        };
    }
    let wall = match parse_ical_wall_clock(value) {
        Ok(w) => w,
        Err(e) => return Err(cat4("bad date-time ", value, ": ", e.as_str())),
    };
    let z: &str = match zone {
        Some(z) => z.as_str(),
        None => default_tz,
    };
    match zone_to_instant(z, wall) {
        Some(t) => Ok((t, Some(String::from_str(z)))),
        None => Err(cat4("nonexistent local time ", value, " in ", z)),
    }
}

} // verus!

verus! {

/// An instant, whether it is a date, and the zone of a local time; or a
/// message.
pub type PropTimeOrMessage = Result<(i64, bool, Option<Seq<char>>), Seq<char>>;

/// Whether a property carries `VALUE=DATE`.
pub open spec fn date_valued(p: PropertyModel) -> bool {
    match param_of(p, "VALUE"@) {
        Some(v) => eq_ignore_case(v, "DATE"@),
        None => false,
    }
}

/// The zone a property's TZID parameter names, when it resolves.
pub open spec fn tzid_zone(p: PropertyModel) -> Option<Seq<char>> {
    match param_of(p, "TZID"@) {
        Some(t) => resolve_zone(t),
        None => None,
    }
}

/// The instant of a date or date-time property, whether it is a date, and
/// the zone that was used to read a local time (none for dates).
pub open spec fn datetime_prop_of(p: PropertyModel, default_tz: Seq<char>) -> PropTimeOrMessage {
    match p.2 {
        None => Err(p.0 + " has no value"@),
        Some(v) => {
            let is_date = date_valued(p) || octets(v) == 8;
            match datetime_value(trim_seq(v), is_date, tzid_zone(p), default_tz) {
                Ok(x) => Ok((x.0, is_date, if is_date { None } else { x.1 })),
                Err(e) => Err(e),
            }
        },
    }
}

fn value_is_date(p: &Property) -> (r: bool)
    ensures
        r == date_valued(property_model(*p)),
{
    match param(p, "VALUE") {
        Some(v) => str_eq_ignore_case(v.as_str(), "DATE"),
        None => false,
    }
}

fn tzid_of(p: &Property) -> (r: Option<String>)
    ensures
        r.deep_view() == tzid_zone(property_model(*p)),
{
    match param(p, "TZID") {
        Some(t) => resolve(t.as_str()),
        None => None,
    }
}

/// Returns (instant, is_all_day, iana zone name).
pub fn parse_datetime_prop(p: &Property, opts: &ParseOptions) -> (r: Result<(i64, bool, Option<String>), String>)
    ensures
        r matches Ok(x) ==> datetime_prop_of(property_model(*p), opts.default_tz@)
            == PropTimeOrMessage::Ok((x.0, x.1, x.2.deep_view())) && representable(x.0 as int),
        r matches Err(e) ==> datetime_prop_of(property_model(*p), opts.default_tz@) == PropTimeOrMessage::Err(e@),
{
    let value = match &p.value {
        Some(v) => v,
        None => {
            let mut msg = p.name.clone();
            msg.append(" has no value");
            return Err(msg);
        },
    };
    let is_date = value_is_date(p) || has_octets(value.as_str(), 8);
    let zone = tzid_of(p);
    let t = trim(value.as_str());
    match parse_datetime_value(t.as_str(), is_date, &zone, opts.default_tz.as_str()) {
        Ok((at, used)) => Ok((at, is_date, if is_date { None } else { used })),
        Err(e) => Err(e),
    }
}

/// The start of one entry of an RDATE or EXDATE list (a PERIOD keeps its
/// start), trimmed.
pub open spec fn list_entry(raw: Seq<char>) -> Seq<char> {
    trim_seq(split_plain(raw, '/')[0])
}

/// The instants of a list of entries; empty and unreadable entries are
/// left out.
pub open spec fn entry_instants(entries: Seq<Seq<char>>, is_date: bool, zone: Option<Seq<char>>, default_tz: Seq<char>) -> Seq<i64>
    decreases entries.len(),
{
    if entries.len() == 0 {
        Seq::empty()
    } else {
        let e = list_entry(entries.last());
        entry_instants(entries.drop_last(), is_date, zone, default_tz) + if e.len() == 0 {
            Seq::<i64>::empty()
        } else {
            match datetime_value(e, is_date, zone, default_tz) {
                Ok(x) => seq![x.0],
                Err(_) => Seq::<i64>::empty(),
            }
        }
    }
}

/// The instants one RDATE or EXDATE property lists.
pub open spec fn prop_instants(p: PropertyModel, default_tz: Seq<char>) -> Seq<i64> {
    match p.2 {
        Some(v) => entry_instants(split_plain(v, ','), date_valued(p), tzid_zone(p), default_tz),
        None => Seq::empty(),
    }
}

/// The instants all properties of the given name list, in document order.
pub open spec fn date_list_of(props: Seq<PropertyModel>, name: Seq<char>, default_tz: Seq<char>) -> Seq<i64>
    decreases props.len(),
{
    if props.len() == 0 {
        Seq::empty()
    } else {
        date_list_of(props.drop_last(), name, default_tz) + if named(props.last(), name) {
            prop_instants(props.last(), default_tz)
        } else {
            Seq::<i64>::empty()
        }
    }
}

fn push_prop_instants(out: &mut Vec<i64>, p: &Property, default_tz: &str)
    ensures
        final(out)@ == old(out)@ + prop_instants(property_model(*p), default_tz@),
{
    let value = match &p.value {
        Some(v) => v,
        None => {
            assert(old(out)@ + prop_instants(property_model(*p), default_tz@) =~= old(out)@);
            return;
        },
    };
    let is_date = value_is_date(p);
    let zone = tzid_of(p);
    let entries = split_char(value.as_str(), ',');
    let ghost base = out@;
    let ghost es = entries.deep_view();
    let mut i: usize = 0;
    assert(es.take(0) =~= Seq::<Seq<char>>::empty());
    assert(out@ =~= base + entry_instants(es.take(0), is_date, zone.deep_view(), default_tz@));
    while i < entries.len()
        invariant
            i <= entries.len(),
            es == entries.deep_view(),
            es == split_plain(value@, ','),
            is_date == date_valued(property_model(*p)),
            zone.deep_view() == tzid_zone(property_model(*p)),
            p.value == Some(*value),
            out@ == base + entry_instants(es.take(i as int), is_date, zone.deep_view(), default_tz@),
        decreases entries.len() - i,
    {
        assert(es.take(i + 1).drop_last() =~= es.take(i as int));
        assert(es.take(i + 1).last() == entries@[i as int]@);
        let pieces = split_char(entries[i].as_str(), '/');
        let e = trim(pieces[0].as_str());
        let ghost before = out@;
        if !e.as_str().is_empty() {
            match parse_datetime_value(e.as_str(), is_date, &zone, default_tz) {
                Ok((t, _)) => {
                    out.push(t);
                },
                Err(_) => {},
            }
        }
        assert(out@ =~= base + entry_instants(es.take(i + 1), is_date, zone.deep_view(), default_tz@));
        i = i + 1;
    }
    assert(es.take(entries.len() as int) =~= es);
}

fn parse_date_list(props: &[Property], name: &str, opts: &ParseOptions) -> (r: Vec<i64>)
    ensures
        r@ == date_list_of(properties_model(props@), name@, opts.default_tz@),
{
    let ghost m = properties_model(props@);
    let mut out: Vec<i64> = Vec::new();
    let mut i: usize = 0;
    assert(m.take(0) =~= Seq::<PropertyModel>::empty());
    while i < props.len()
        invariant
            m == properties_model(props@),
            i <= props.len(),
            out@ == date_list_of(m.take(i as int), name@, opts.default_tz@),
        decreases props.len() - i,
    {
        assert(m.take(i + 1).drop_last() =~= m.take(i as int));
        assert(m.take(i + 1).last() == property_model(props@[i as int]));
        if str_eq_ignore_case(props[i].name.as_str(), name) {
            push_prop_instants(&mut out, &props[i], opts.default_tz.as_str());
        } else {
            assert(out@ + Seq::<i64>::empty() =~= out@);
        }
        i = i + 1;
    }
    assert(m.take(props.len() as int) =~= m);
    out
}

} // verus!

verus! {

/// The non-empty texts of CATEGORIES pieces, unescaped and trimmed.
pub open spec fn category_texts(pieces: Seq<Seq<char>>) -> Seq<Seq<char>>
    decreases pieces.len(),
{
    if pieces.len() == 0 {
        Seq::empty()
    } else {
        let t = trim_seq(unescape_raw(pieces.last()));
        category_texts(pieces.drop_last()) + if t.len() == 0 { Seq::<Seq<char>>::empty() } else { seq![t] }
    }
}

/// The categories of one property: its comma-separated pieces when it is a
/// CATEGORIES property with a value.
pub open spec fn prop_categories(p: PropertyModel) -> Seq<Seq<char>> {
    if named(p, "CATEGORIES"@) && p.2 is Some {
        category_texts(split_unescaped_seq(p.2->0, ','))
    } else {
        Seq::empty()
    }
}

/// The categories of all CATEGORIES properties, in document order.
pub open spec fn categories_of(props: Seq<PropertyModel>) -> Seq<Seq<char>>
    decreases props.len(),
{
    if props.len() == 0 {
        Seq::empty()
    } else {
        categories_of(props.drop_last()) + prop_categories(props.last())
    }
}

fn push_categories(out: &mut Vec<String>, p: &Property)
    ensures
        final(out).deep_view() == old(out).deep_view() + prop_categories(property_model(*p)),
{
    let value = match &p.value {
        Some(v) => v,
        None => {
            assert(old(out).deep_view() + prop_categories(property_model(*p)) =~= old(out).deep_view());
            return;
        },
    };
    if !str_eq_ignore_case(p.name.as_str(), "CATEGORIES") {
        assert(old(out).deep_view() + prop_categories(property_model(*p)) =~= old(out).deep_view());
        return;
    }
    let pieces = split_unescaped(value.as_str(), ',');
    let ghost ps = pieces.deep_view();
    let ghost base = out.deep_view();
    let mut i: usize = 0;
    assert(ps.take(0) =~= Seq::<Seq<char>>::empty());
    assert(out.deep_view() =~= base + category_texts(ps.take(0)));
    while i < pieces.len()
        invariant
            i <= pieces.len(),
            ps == pieces.deep_view(),
            prop_categories(property_model(*p)) == category_texts(ps),
            out.deep_view() == base + category_texts(ps.take(i as int)),
        decreases pieces.len() - i,
    {
        assert(ps.take(i + 1).drop_last() =~= ps.take(i as int));
        assert(ps.take(i + 1).last() == pieces@[i as int]@);
        let t = unescape_text(pieces[i].as_str());
        let ghost before = out.deep_view();
        if !t.as_str().is_empty() {
            out.push(t);
            assert(out.deep_view() =~= before.push(t@));
        }
        assert(out.deep_view() =~= base + category_texts(ps.take(i + 1)));
        i = i + 1;
    }
    assert(ps.take(pieces.len() as int) =~= ps);
}

fn categories(props: &[Property]) -> (r: Vec<String>)
    ensures
        r.deep_view() == categories_of(properties_model(props@)),
{
    let ghost m = properties_model(props@);
    let mut out: Vec<String> = Vec::new();
    let mut i: usize = 0;
    assert(m.take(0) =~= Seq::<PropertyModel>::empty());
    assert(out.deep_view() =~= Seq::<Seq<char>>::empty());
    while i < props.len()
        invariant
            m == properties_model(props@),
            i <= props.len(),
            out.deep_view() == categories_of(m.take(i as int)),
        decreases props.len() - i,
    {
        assert(m.take(i + 1).drop_last() =~= m.take(i as int));
        assert(m.take(i + 1).last() == property_model(props@[i as int]));
        push_categories(&mut out, &props[i]);
        i = i + 1;
    }
    assert(m.take(props.len() as int) =~= m);
    out
}

/// A TEXT property's value, unescaped and trimmed; none when it is absent
/// or empty.
pub open spec fn text_field(props: Seq<PropertyModel>, name: Seq<char>) -> Option<Seq<char>> {
    match prop_value_of(props, name) {
        Some(v) => {
            let t = trim_seq(unescape_raw(v));
            if t.len() == 0 { None } else { Some(t) }
        },
        None => None,
    }
}

fn text_prop(props: &[Property], name: &str) -> (r: Option<String>)
    ensures
        r.deep_view() == text_field(properties_model(props@), name@),
{
    match prop_value(props, name) {
        Some(v) => {
            let t = unescape_text(v.as_str());
            if t.as_str().is_empty() { None } else { Some(t) }
        },
        None => None,
    }
}

/// A property's value in upper case.
pub open spec fn upper_value(props: Seq<PropertyModel>, name: Seq<char>) -> Option<Seq<char>> {
    match prop_value_of(props, name) {
        Some(v) => Some(upper_seq(v)),
        None => None,
    }
}

fn upper_prop(props: &[Property], name: &str) -> (r: Option<String>)
    ensures
        r.deep_view() == upper_value(properties_model(props@), name@),
{
    match prop_value(props, name) {
        Some(v) => Some(to_ascii_uppercase(v.as_str())),
        None => None,
    }
}

fn is_text(v: &Option<String>, lit: &str) -> (r: bool)
    ensures
        r == (v.deep_view() == Some(lit@)),
{
    match v {
        Some(s) => str_equals(s.as_str(), lit),
        None => false,
    }
}

/// The status an event declares in STATUS.
pub open spec fn declared_status(props: Seq<PropertyModel>) -> EventStatus {
    let s = upper_value(props, "STATUS"@);
    if s == Some("TENTATIVE"@) {
        EventStatus::Tentative
    } else if s == Some("CANCELLED"@) {
        EventStatus::Cancelled
    } else {
        EventStatus::Confirmed
    }
}

/// The event's status: a confirmed event that Outlook marks as tentatively
/// busy is tentative.
pub open spec fn status_of(props: Seq<PropertyModel>) -> EventStatus {
    let st = declared_status(props);
    if upper_value(props, "X-MICROSOFT-CDO-BUSYSTATUS"@) == Some("TENTATIVE"@) && st == EventStatus::Confirmed {
        EventStatus::Tentative
    } else {
        st
    }
}

/// Whether the event blocks time: transparent when TRANSP says so or when
/// Outlook marks it as free.
pub open spec fn transparency_of(props: Seq<PropertyModel>) -> Transparency {
    if upper_value(props, "X-MICROSOFT-CDO-BUSYSTATUS"@) == Some("FREE"@) || upper_value(props, "TRANSP"@) == Some(
        "TRANSPARENT"@,
    ) {
        Transparency::Transparent
    } else {
        Transparency::Opaque
    }
}

fn status_and_transparency(props: &[Property]) -> (r: (EventStatus, Transparency))
    ensures
        r.0 == status_of(properties_model(props@)),
        r.1 == transparency_of(properties_model(props@)),
{
    proof {
        reveal_strlit("TENTATIVE");
        reveal_strlit("CANCELLED");
        reveal_strlit("TRANSPARENT");
        reveal_strlit("FREE");
    }
    let s = upper_prop(props, "STATUS");
    let mut status = if is_text(&s, "TENTATIVE") {
        EventStatus::Tentative
    } else if is_text(&s, "CANCELLED") {
        EventStatus::Cancelled
    } else {
        EventStatus::Confirmed
    };
    let t = upper_prop(props, "TRANSP");
    let mut transparency = if is_text(&t, "TRANSPARENT") { Transparency::Transparent } else { Transparency::Opaque };
    // Outlook expresses free/busy through a vendor property.
    let busy = upper_prop(props, "X-MICROSOFT-CDO-BUSYSTATUS");
    if is_text(&busy, "FREE") {
        assert("FREE"@.len() != "TENTATIVE"@.len());
        transparency = Transparency::Transparent;
    } else if is_text(&busy, "TENTATIVE") && status == EventStatus::Confirmed {
        status = EventStatus::Tentative;
    }
    (status, transparency)
}

/// The recurrence rule, trimmed; none when absent or empty.
pub open spec fn rrule_of(props: Seq<PropertyModel>) -> Option<Seq<char>> {
    match prop_value_of(props, "RRULE"@) {
        Some(r) => if trim_seq(r).len() == 0 { None } else { Some(trim_seq(r)) },
        None => None,
    }
}

fn rrule(props: &[Property]) -> (r: Option<String>)
    ensures
        r.deep_view() == rrule_of(properties_model(props@)),
{
    match prop_value(props, "RRULE") {
        Some(v) => {
            let t = trim(v.as_str());
            if t.as_str().is_empty() { None } else { Some(t) }
        },
        None => None,
    }
}

/// The SEQUENCE number; 0 when absent or not an `i32`.
pub open spec fn sequence_of(props: Seq<PropertyModel>) -> i32 {
    match prop_value_of(props, "SEQUENCE"@) {
        Some(s) => match parse_i32_value(trim_seq(s)) {
            Some(n) => n,
            None => 0,
        },
        None => 0,
    }
}

fn sequence(props: &[Property]) -> (r: i32)
    ensures
        r == sequence_of(properties_model(props@)),
{
    match prop_value(props, "SEQUENCE") {
        Some(v) => {
            let t = trim(v.as_str());
            match parse_i32(t.as_str()) {
                Some(n) => n,
                None => 0,
            }
        },
        None => 0,
    }
}

/// The instant of the first property of the given name, when it reads.
pub open spec fn instant_of(props: Seq<PropertyModel>, name: Seq<char>, default_tz: Seq<char>) -> Option<i64> {
    match first_named(props, name) {
        Some(i) => match datetime_prop_of(props[i], default_tz) {
            Ok(x) => Some(x.0),
            Err(_) => None,
        },
        None => None,
    }
}

fn last_modified(props: &[Property], opts: &ParseOptions) -> (r: Option<i64>)
    ensures
        r == instant_of(properties_model(props@), "LAST-MODIFIED"@, opts.default_tz@),
{
    let ghost m = properties_model(props@);
    match find_prop(props, "LAST-MODIFIED") {
        Some(i) => {
            assert(m[i as int] == property_model(props@[i as int]));
            match parse_datetime_prop(&props[i], opts) {
                Ok(x) => Some(x.0),
                Err(_) => None,
            }
        },
        None => None,
    }
}

/// An optional instant, or a message.
pub type MaybeInstantOrMessage = Result<Option<i64>, Seq<char>>;

/// The RECURRENCE-ID of an override: none when absent, an error when it
/// does not read.
pub open spec fn recurrence_of(props: Seq<PropertyModel>, default_tz: Seq<char>) -> MaybeInstantOrMessage {
    match first_named(props, "RECURRENCE-ID"@) {
        Some(i) => match datetime_prop_of(props[i], default_tz) {
            Ok(x) => Ok(Some(x.0)),
            Err(e) => Err(e),
        },
        None => Ok(None),
    }
}

fn recurrence_id(props: &[Property], opts: &ParseOptions) -> (r: Result<Option<i64>, String>)
    ensures
        r matches Ok(x) ==> recurrence_of(properties_model(props@), opts.default_tz@) == MaybeInstantOrMessage::Ok(x),
        r matches Err(e) ==> recurrence_of(properties_model(props@), opts.default_tz@) == MaybeInstantOrMessage::Err(e@),
{
    let ghost m = properties_model(props@);
    match find_prop(props, "RECURRENCE-ID") {
        Some(i) => {
            assert(m[i as int] == property_model(props@[i as int]));
            match parse_datetime_prop(&props[i], opts) {
                Ok(x) => Ok(Some(x.0)),
                Err(e) => Err(e),
            }
        },
        None => Ok(None),
    }
}

} // verus!

verus! {

/// The name of the property that marks an event this service wrote to a
/// target calendar; the parser drops such events so that a calendar that is
/// both a source and a target never echoes.
pub const MIRROR_PROPERTY: &'static str = "X-OPENTEMPUS-MIRROR";

/// The error for an event whose end lies outside the instants `chrono`
/// represents.
pub open spec fn out_of_range(uid: Seq<char>) -> Seq<char> {
    "event "@ + uid + " ends outside the supported range of instants"@
}

/// The end of an event: DTEND, else start plus DURATION, else the next day
/// for an all-day event, else the start.
pub open spec fn end_of(props: Seq<PropertyModel>, default_tz: Seq<char>, uid: Seq<char>, start: i64, all_day: bool) -> InstantOrMessage {
    match first_named(props, "DTEND"@) {
        Some(i) => match datetime_prop_of(props[i], default_tz) {
            Ok(x) => Ok(x.0),
            Err(e) => Err(e),
        },
        None => match prop_value_of(props, "DURATION"@) {
            Some(d) => match duration_secs(d) {
                Some(secs) => if representable(start + secs) { Ok((start + secs) as i64) } else { Err(out_of_range(uid)) },
                None => Err(bad_duration(trim_seq(d))),
            },
            None => if !all_day {
                Ok(start)
            } else if representable(start + 86400) {
                Ok((start + 86400) as i64)
            } else {
                Err(out_of_range(uid))
            },
        },
    }
}

fn event_end(props: &[Property], opts: &ParseOptions, uid: &String, start: i64, all_day: bool) -> (r: Result<i64, String>)
    requires
        representable(start as int),
    ensures
        r matches Ok(t) ==> end_of(properties_model(props@), opts.default_tz@, uid@, start, all_day) == InstantOrMessage::Ok(t),
        r matches Err(e) ==> end_of(properties_model(props@), opts.default_tz@, uid@, start, all_day) == InstantOrMessage::Err(e@),
{
    let ghost m = properties_model(props@);
    if let Some(i) = find_prop(props, "DTEND") {
        assert(m[i as int] == property_model(props@[i as int]));
        return match parse_datetime_prop(&props[i], opts) {
            Ok(x) => Ok(x.0),
            Err(e) => Err(e),
        };
    }
    let mut msg = String::from_str("event ");
    msg.append(uid.as_str());
    msg.append(" ends outside the supported range of instants");
    let step: i64 = match prop_value(props, "DURATION") {
        Some(d) => match parse_duration(d.as_str()) {
            Ok(secs) => secs,
            Err(e) => return Err(e),
        },
        None => if all_day { 86400 } else { 0 },
    };
    // |step| is at most MAX_DURATION_SECS, so the sum fits in an i64.
    let end = start + step;
    if end < EARLIEST_INSTANT || end > LATEST_INSTANT {
        Err(msg)
    } else {
        Ok(end)
    }
}

/// A VEVENT as the model the contracts speak of.
#[verifier::ext_equal]
pub struct EventModel {
    pub uid: Seq<char>,
    pub recurrence_id: Option<i64>,
    pub summary: Option<Seq<char>>,
    pub description: Option<Seq<char>>,
    pub location: Option<Seq<char>>,
    pub start_at: i64,
    pub end_at: i64,
    pub all_day: bool,
    pub timezone: Option<Seq<char>>,
    pub status: EventStatus,
    pub transparency: Transparency,
    pub rsvp: Rsvp,
    pub categories: Seq<Seq<char>>,
    pub rrule: Option<Seq<char>>,
    pub rdates: Seq<i64>,
    pub exdates: Seq<i64>,
    pub sequence: i32,
    pub last_modified: Option<i64>,
}

/// A VEVENT normalized into the shape we store. Instants are seconds since
/// the Unix epoch (UTC).
#[derive(Clone, Debug, PartialEq)]
pub struct ParsedEvent {
    pub uid: String,
    pub recurrence_id: Option<i64>,
    pub summary: Option<String>,
    pub description: Option<String>,
    pub location: Option<String>,
    pub start_at: i64,
    pub end_at: i64,
    pub all_day: bool,
    /// IANA name of the zone the event was defined in, if any.
    pub timezone: Option<String>,
    pub status: EventStatus,
    pub transparency: Transparency,
    pub rsvp: Rsvp,
    pub categories: Vec<String>,
    pub rrule: Option<String>,
    pub rdates: Vec<i64>,
    pub exdates: Vec<i64>,
    pub sequence: i32,
    pub last_modified: Option<i64>,
}

impl View for ParsedEvent {
    type V = EventModel;

    open spec fn view(&self) -> EventModel {
        EventModel {
            uid: self.uid@,
            recurrence_id: self.recurrence_id,
            summary: self.summary.deep_view(),
            description: self.description.deep_view(),
            location: self.location.deep_view(),
            start_at: self.start_at,
            end_at: self.end_at,
            all_day: self.all_day,
            timezone: self.timezone.deep_view(),
            status: self.status,
            transparency: self.transparency,
            rsvp: self.rsvp,
            categories: self.categories.deep_view(),
            rrule: self.rrule.deep_view(),
            rdates: self.rdates@,
            exdates: self.exdates@,
            sequence: self.sequence,
            last_modified: self.last_modified,
        }
    }
}

/// What reading one VEVENT gives: an event, nothing (the event is skipped),
/// or a message.
pub type EventOutcome = Result<Option<EventModel>, Seq<char>>;

/// The event a VEVENT's properties describe. Events marked as mirrors and
/// events without a UID are skipped; a missing or unreadable start, an
/// unreadable end or RECURRENCE-ID is an error.
pub open spec fn event_of(props: Seq<PropertyModel>, emails: Seq<String>, default_tz: Seq<char>) -> EventOutcome {
    if first_named(props, MIRROR_PROPERTY@) is Some {
        Ok(None)
    } else {
        match prop_value_of(props, "UID"@) {
            None => Ok(None),
            Some(uid) => match first_named(props, "DTSTART"@) {
                None => Err("event "@ + uid + " has no DTSTART"@),
                Some(i) => match datetime_prop_of(props[i], default_tz) {
                    Err(e) => Err(e),
                    Ok(st) => match end_of(props, default_tz, uid, st.0, st.1) {
                        Err(e) => Err(e),
                        Ok(end) => match recurrence_of(props, default_tz) {
                            Err(e) => Err(e),
                            Ok(rid) => Ok(
                                Some(
                                    EventModel {
                                        uid,
                                        recurrence_id: rid,
                                        summary: text_field(props, "SUMMARY"@),
                                        description: text_field(props, "DESCRIPTION"@),
                                        location: text_field(props, "LOCATION"@),
                                        start_at: st.0,
                                        end_at: if end < st.0 { st.0 } else { end },
                                        all_day: st.1,
                                        timezone: st.2,
                                        status: status_of(props),
                                        transparency: transparency_of(props),
                                        rsvp: owner_rsvp_of(props, emails),
                                        categories: categories_of(props),
                                        rrule: rrule_of(props),
                                        rdates: date_list_of(props, "RDATE"@, default_tz),
                                        exdates: date_list_of(props, "EXDATE"@, default_tz),
                                        sequence: sequence_of(props),
                                        last_modified: instant_of(props, "LAST-MODIFIED"@, default_tz),
                                    },
                                ),
                            ),
                        },
                    },
                },
            },
        }
    }
}

/// Read one VEVENT.
pub fn parse_event(ev: &EventComponent, opts: &ParseOptions) -> (r: Result<Option<ParsedEvent>, String>)
    ensures
        r matches Ok(Some(e)) ==> event_of(properties_model(ev.properties@), opts.owner_emails@, opts.default_tz@)
            == EventOutcome::Ok(Some(e@)),
        r matches Ok(None) ==> event_of(properties_model(ev.properties@), opts.owner_emails@, opts.default_tz@)
            == EventOutcome::Ok(None),
        r matches Err(m) ==> event_of(properties_model(ev.properties@), opts.owner_emails@, opts.default_tz@)
            == EventOutcome::Err(m@),
{
    let props = ev.properties.as_slice();
    let ghost m = properties_model(props@);
    if find_prop(props, MIRROR_PROPERTY).is_some() {
        return Ok(None);
    }
    let uid = match prop_value(props, "UID") {
        Some(u) => u,
        None => return Ok(None),
    };
    let start_idx = match find_prop(props, "DTSTART") {
        Some(i) => i,
        None => {
            let mut msg = String::from_str("event ");
            msg.append(uid.as_str());
            msg.append(" has no DTSTART");
            return Err(msg);
        },
    };
    assert(m[start_idx as int] == property_model(props@[start_idx as int]));
    let (start_at, all_day, timezone) = match parse_datetime_prop(&props[start_idx], opts) {
        Ok(x) => x,
        Err(e) => return Err(e),
    };
    let end = match event_end(props, opts, &uid, start_at, all_day) {
        Ok(t) => t,
        Err(e) => return Err(e),
    };
    // Guard against negative spans.
    let end_at = if end < start_at { start_at } else { end };
    let recurrence_id = match recurrence_id(props, opts) {
        Ok(x) => x,
        Err(e) => return Err(e),
    };
    let (status, transparency) = status_and_transparency(props);
    let e = ParsedEvent {
        uid,
        recurrence_id,
        summary: text_prop(props, "SUMMARY"),
        description: text_prop(props, "DESCRIPTION"),
        location: text_prop(props, "LOCATION"),
        start_at,
        end_at,
        all_day,
        timezone,
        status,
        transparency,
        rsvp: owner_rsvp(props, &opts.owner_emails),
        categories: categories(props),
        rrule: rrule(props),
        rdates: parse_date_list(props, "RDATE", opts),
        exdates: parse_date_list(props, "EXDATE", opts),
        sequence: sequence(props),
        last_modified: last_modified(props, opts),
    };
    Ok(Some(e))
}

} // verus!

verus! {

/// `s` with each CRLF pair replaced by LF, left to right.
pub open spec fn crlf_to_lf(s: Seq<char>) -> Seq<char>
    decreases s.len(),
{
    if s.len() == 0 {
        s
    } else if s.len() >= 2 && s[0] == '\r' && s[1] == '\n' {
        seq!['\n'] + crlf_to_lf(s.skip(2))
    } else {
        seq![s[0]] + crlf_to_lf(s.drop_first())
    }
}

/// `s` with each LF replaced by CRLF.
pub open spec fn lf_to_crlf(s: Seq<char>) -> Seq<char>
    decreases s.len(),
{
    if s.len() == 0 {
        s
    } else {
        (if s[0] == '\n' { seq!['\r', '\n'] } else { seq![s[0]] }) + lf_to_crlf(s.drop_first())
    }
}

/// Line endings normalized to CRLF; some producers emit bare LF.
pub open spec fn normalize_newlines(s: Seq<char>) -> Seq<char> {
    lf_to_crlf(crlf_to_lf(s))
}

fn crlf_to_lf_exec(cs: &Vec<char>) -> (r: Vec<char>)
    ensures
        r@ == crlf_to_lf(cs@),
{
    let mut out: Vec<char> = Vec::new();
    let mut i: usize = 0;
    assert(cs@.skip(0) =~= cs@);
    while i < cs.len()
        invariant
            i <= cs.len(),
            out@ + crlf_to_lf(cs@.skip(i as int)) == crlf_to_lf(cs@),
        decreases cs.len() - i,
    {
        let ghost rest = cs@.skip(i as int);
        let ghost before = out@;
        assert(rest[0] == cs@[i as int]);
        if cs[i] == '\r' && i + 1 < cs.len() && cs[i + 1] == '\n' {
            assert(rest[1] == cs@[i + 1]);
            assert(rest.skip(2) =~= cs@.skip(i + 2));
            out.push('\n');
            i = i + 2;
        } else {
            assert(rest.drop_first() =~= cs@.skip(i + 1));
            out.push(cs[i]);
            i = i + 1;
        }
        assert(out@ + crlf_to_lf(cs@.skip(i as int)) =~= before + crlf_to_lf(rest));
    }
    assert(cs@.skip(i as int) =~= Seq::<char>::empty());
    assert(out@ + Seq::<char>::empty() =~= out@);
    out
}

/// Normalize line endings to CRLF.
pub fn normalize_line_endings(input: &str) -> (r: String)
    ensures
        r@ == normalize_newlines(input@),
{
    let cs = chars_of(input);
    let lf = crlf_to_lf_exec(&cs);
    let mut out = String::new();
    let mut i: usize = 0;
    assert(lf@.skip(0) =~= lf@);
    while i < lf.len()
        invariant
            i <= lf.len(),
            lf@ == crlf_to_lf(input@),
            out@ + lf_to_crlf(lf@.skip(i as int)) == lf_to_crlf(lf@),
        decreases lf.len() - i,
    {
        let ghost rest = lf@.skip(i as int);
        let ghost before = out@;
        assert(rest[0] == lf@[i as int]);
        assert(rest.drop_first() =~= lf@.skip(i + 1));
        if lf[i] == '\n' {
            push_char(&mut out, '\r');
            push_char(&mut out, '\n');
        } else {
            push_char(&mut out, lf[i]);
        }
        i = i + 1;
        assert(out@ + lf_to_crlf(lf@.skip(i as int)) =~= before + lf_to_crlf(rest));
    }
    assert(lf@.skip(i as int) =~= Seq::<char>::empty());
    assert(out@ + Seq::<char>::empty() =~= out@);
    out
}

/// The events read from a document, how many were skipped, and why.
#[verifier::ext_equal]
pub struct ReportModel {
    pub events: Seq<EventModel>,
    pub skipped: nat,
    pub warnings: Seq<Seq<char>>,
}

#[derive(Debug)]
pub struct ParseReport {
    pub events: Vec<ParsedEvent>,
    /// Events dropped: skipped or unreadable (saturating at `usize::MAX`).
    pub skipped: usize,
    pub warnings: Vec<String>,
}

impl View for ParseReport {
    type V = ReportModel;

    open spec fn view(&self) -> ReportModel {
        ReportModel {
            events: self.events@.map_values(|e: ParsedEvent| e@),
            skipped: self.skipped as nat,
            warnings: self.warnings.deep_view(),
        }
    }
}

/// One more event seen: kept, or counted as skipped (with its message when
/// it could not be read).
pub open spec fn add_outcome(rep: ReportModel, o: EventOutcome) -> ReportModel {
    let skipped = if rep.skipped < usize::MAX { rep.skipped + 1 } else { rep.skipped };
    match o {
        Ok(Some(e)) => ReportModel { events: rep.events.push(e), ..rep },
        Ok(None) => ReportModel { skipped: skipped as nat, ..rep },
        Err(w) => ReportModel { skipped: skipped as nat, warnings: rep.warnings.push(w), ..rep },
    }
}

/// The report after the given events, read with the given owner addresses
/// and zone for floating times.
pub open spec fn report_events(rep: ReportModel, events: Seq<Seq<PropertyModel>>, emails: Seq<String>, default_tz: Seq<char>) -> ReportModel
    decreases events.len(),
{
    if events.len() == 0 {
        rep
    } else {
        add_outcome(report_events(rep, events.drop_last(), emails, default_tz), event_of(events.last(), emails, default_tz))
    }
}

/// The zone for floating times of a calendar: its X-WR-TIMEZONE when that
/// resolves, else the default.
pub open spec fn calendar_zone(cal_props: Seq<PropertyModel>, default_tz: Seq<char>) -> Seq<char> {
    match prop_value_of(cal_props, "X-WR-TIMEZONE"@) {
        Some(v) => match resolve_zone(v) {
            Some(z) => z,
            None => default_tz,
        },
        None => default_tz,
    }
}

/// The report after all events of the given calendars, in order.
pub open spec fn report_calendars(cals: Seq<CalendarModel>, emails: Seq<String>, default_tz: Seq<char>) -> ReportModel
    decreases cals.len(),
{
    if cals.len() == 0 {
        ReportModel { events: Seq::empty(), skipped: 0, warnings: Seq::empty() }
    } else {
        let c = cals.last();
        report_events(report_calendars(cals.drop_last(), emails, default_tz), c.1, emails, calendar_zone(c.0, default_tz))
    }
}

/// A report, or a message.
pub type ReportOrMessage = Result<ReportModel, Seq<char>>;

/// What parsing a document gives: an error when the `ical` crate cannot
/// read it or it holds no VCALENDAR, else the report over all its events.
pub open spec fn parse_outcome(input: Seq<char>, emails: Seq<String>, default_tz: Seq<char>) -> ReportOrMessage {
    match ical_calendars(normalize_newlines(input)) {
        Err(e) => Err("invalid iCalendar data: "@ + e),
        Ok(cals) => if cals.len() == 0 {
            Err("no VCALENDAR component found"@)
        } else {
            Ok(report_calendars(cals, emails, default_tz))
        },
    }
}

fn add_calendar_events(report: &mut ParseReport, events: &Vec<EventComponent>, opts: &ParseOptions)
    ensures
        final(report)@ == report_events(
            old(report)@,
            Seq::new(events@.len(), |i: int| properties_model(events@[i].properties@)),
            opts.owner_emails@,
            opts.default_tz@,
        ),
{
    let ghost evs = Seq::new(events@.len(), |i: int| properties_model(events@[i].properties@));
    let ghost base = report@;
    let mut i: usize = 0;
    assert(evs.take(0) =~= Seq::<Seq<PropertyModel>>::empty());
    while i < events.len()
        invariant
            i <= events.len(),
            evs == Seq::new(events@.len(), |i: int| properties_model(events@[i].properties@)),
            report@ == report_events(base, evs.take(i as int), opts.owner_emails@, opts.default_tz@),
        decreases events.len() - i,
    {
        assert(evs.take(i + 1).drop_last() =~= evs.take(i as int));
        assert(evs.take(i + 1).last() == properties_model(events@[i as int].properties@));
        let ghost before = report@;
        match parse_event(&events[i], opts) {
            Ok(Some(e)) => {
                report.events.push(e);
                assert(report@.events =~= before.events.push(e@));
            },
            Ok(None) => {
                if report.skipped < usize::MAX {
                    report.skipped = report.skipped + 1;
                }
            },
            Err(w) => {
                if report.skipped < usize::MAX {
                    report.skipped = report.skipped + 1;
                }
                let ghost ws = report.warnings.deep_view();
                report.warnings.push(w);
                assert(report.warnings.deep_view() =~= ws.push(w@));
            },
        }
        assert(report@ =~= report_events(base, evs.take(i + 1), opts.owner_emails@, opts.default_tz@));
        i = i + 1;
    }
    assert(evs.take(events.len() as int) =~= evs);
}

fn clone_strings(v: &Vec<String>) -> (r: Vec<String>)
    ensures
        r@ == v@,
{
    let mut out: Vec<String> = Vec::new();
    let mut i: usize = 0;
    while i < v.len()
        invariant
            i <= v.len(),
            out@ == v@.take(i as int),
        decreases v.len() - i,
    {
        out.push(v[i].clone());
        assert(out@ =~= v@.take(i + 1));
        i = i + 1;
    }
    assert(v@.take(v.len() as int) =~= v@);
    out
}

/// Parse an iCalendar document into normalized events. Events that cannot
/// be read are counted as skipped, with a warning; the document as a whole
/// is an error only when it cannot be read or holds no VCALENDAR.
pub fn parse_ics(input: &str, opts: &ParseOptions) -> (r: Result<ParseReport, String>)
    ensures
        r matches Ok(rep) ==> parse_outcome(input@, opts.owner_emails@, opts.default_tz@) == ReportOrMessage::Ok(rep@),
        r matches Err(e) ==> parse_outcome(input@, opts.owner_emails@, opts.default_tz@) == ReportOrMessage::Err(e@),
{
    // Normalize line endings; some producers emit bare LF.
    let normalized = normalize_line_endings(input);
    let cals = match read_calendars(normalized.as_str()) {
        Ok(c) => c,
        Err(e) => {
            let mut msg = String::from_str("invalid iCalendar data: ");
            msg.append(e.as_str());
            return Err(msg);
        },
    };
    parse_calendars(&cals, opts)
}

/// Normalize the calendars read from a document into events: each
/// calendar's events read in the calendar's zone (`X-WR-TIMEZONE`, else the
/// default). No calendar at all is an error.
pub fn parse_calendars(cals: &Vec<CalendarComponent>, opts: &ParseOptions) -> (r: Result<ParseReport, String>)
    ensures
        r is Ok <==> cals@.len() > 0,
        r matches Ok(rep) ==> rep@ == report_calendars(calendars_model(cals@), opts.owner_emails@, opts.default_tz@),
        r matches Err(e) ==> e@ == "no VCALENDAR component found"@,
{
    if cals.len() == 0 {
        return Err(String::from_str("no VCALENDAR component found"));
    }
    let ghost cm = calendars_model(cals@);
    let mut report = ParseReport { events: Vec::new(), skipped: 0, warnings: Vec::new() };
    assert(cm.take(0) =~= Seq::<CalendarModel>::empty());
    assert(report@.events =~= Seq::<EventModel>::empty());
    assert(report@.warnings =~= Seq::<Seq<char>>::empty());
    assert(report@ =~= report_calendars(cm.take(0), opts.owner_emails@, opts.default_tz@));
    let mut c: usize = 0;
    while c < cals.len()
        invariant
            c <= cals.len(),
            cm == calendars_model(cals@),
            report@ == report_calendars(cm.take(c as int), opts.owner_emails@, opts.default_tz@),
        decreases cals.len() - c,
    {
        assert(cm.take(c + 1).drop_last() =~= cm.take(c as int));
        assert(cm.take(c + 1).last() == calendar_model(cals@[c as int]));
        let cal = &cals[c];
        let zone = match prop_value(cal.properties.as_slice(), "X-WR-TIMEZONE") {
            Some(v) => match resolve(v.as_str()) {
                Some(z) => z,
                None => opts.default_tz.clone(),
            },
            None => opts.default_tz.clone(),
        };
        let copts = ParseOptions { owner_emails: clone_strings(&opts.owner_emails), default_tz: zone };
        add_calendar_events(&mut report, &cal.events, &copts);
        c = c + 1;
    }
    assert(cm.take(cals.len() as int) =~= cm);
    Ok(report)
}

} // verus!

verus! {

/// The events with the given UID, in order.
pub open spec fn with_uid(events: Seq<ParsedEvent>, uid: Seq<char>) -> Seq<ParsedEvent>
    decreases events.len(),
{
    if events.len() == 0 {
        Seq::empty()
    } else {
        with_uid(events.drop_last(), uid) + if events.last().uid@ == uid { seq![events.last()] } else { Seq::<ParsedEvent>::empty() }
    }
}

proof fn lemma_with_uid_none(events: Seq<ParsedEvent>, uid: Seq<char>)
    requires
        forall|i: int| 0 <= i < events.len() ==> #[trigger] events[i].uid@ != uid,
    ensures
        with_uid(events, uid).len() == 0,
    decreases events.len(),
{
    if events.len() > 0 {
        let d = events.drop_last();
        assert forall|i: int| 0 <= i < d.len() implies #[trigger] d[i].uid@ != uid by {
            assert(d[i] == events[i]);
        }
        lemma_with_uid_none(d, uid);
        assert(events.last() == events[events.len() - 1]);
    }
}

/// Groups hold distinct UIDs, each with all events of its UID in order,
/// and every event's UID has a group.
pub open spec fn grouped(groups: Seq<(String, Vec<ParsedEvent>)>, events: Seq<ParsedEvent>) -> bool {
    &&& forall|k: int, l: int| 0 <= k < l < groups.len() ==> #[trigger] groups[k].0@ != #[trigger] groups[l].0@
    &&& forall|k: int| 0 <= k < groups.len() ==> #[trigger] groups[k].1@ == with_uid(events, groups[k].0@)
    &&& forall|k: int| 0 <= k < groups.len() ==> #[trigger] groups[k].1@.len() > 0
    &&& forall|i: int|
        0 <= i < events.len() ==> exists|k: int| 0 <= k < groups.len() && #[trigger] groups[k].0@ == #[trigger] events[i].uid@
}

fn group_index(groups: &Vec<(String, Vec<ParsedEvent>)>, uid: &String) -> (r: Option<usize>)
    ensures
        r matches Some(j) ==> j < groups.len() && groups@[j as int].0@ == uid@,
        r is None ==> forall|k: int| 0 <= k < groups.len() ==> #[trigger] groups@[k].0@ != uid@,
{
    let mut j: usize = 0;
    while j < groups.len()
        invariant
            j <= groups.len(),
            forall|k: int| 0 <= k < j ==> #[trigger] groups@[k].0@ != uid@,
        decreases groups.len() - j,
    {
        if str_equals(groups[j].0.as_str(), uid.as_str()) {
            return Some(j);
        }
        j = j + 1;
    }
    None
}

/// Group events by UID: each UID once, with its master and overrides in
/// the order they came.
pub fn group_by_uid(events: Vec<ParsedEvent>) -> (groups: Vec<(String, Vec<ParsedEvent>)>)
    ensures
        grouped(groups@, events@),
{
    let ghost all = events@;
    assert(all.len() == events.len());
    let mut groups: Vec<(String, Vec<ParsedEvent>)> = Vec::new();
    let mut rest = events;
    let mut rev: Vec<ParsedEvent> = Vec::new();
    while rest.len() > 0
        invariant
            rest@ + rev@.reverse() == all,
            all.len() <= usize::MAX,
        decreases rest.len(),
    {
        let ghost r0 = rest@;
        let ghost v0 = rev@;
        let e = rest.pop().unwrap();
        rev.push(e);
        assert(rev@.reverse() =~= seq![e] + v0.reverse());
        assert(rest@ + rev@.reverse() =~= r0 + v0.reverse());
    }
    assert(rev@.reverse() =~= all);
    let mut n: usize = 0;
    assert(all.take(0) =~= Seq::<ParsedEvent>::empty());
    while rev.len() > 0
        invariant
            all.take(n as int) + rev@.reverse() == all,
            n + rev.len() == all.len(),
            all.len() <= usize::MAX,
            grouped(groups@, all.take(n as int)),
        decreases rev.len(),
    {
        let ghost v0 = rev@;
        let ghost g0 = groups@;
        let ghost p = all.take(n as int);
        let e = rev.pop().unwrap();
        assert(v0.reverse() =~= seq![e] + rev@.reverse());
        assert(all[n as int] == e) by {
            assert((p + v0.reverse())[n as int] == e);
        }
        let ghost q = all.take(n + 1);
        assert(q.drop_last() =~= p);
        assert(q.last() == e);
        match group_index(&groups, &e.uid) {
            Some(j) => {
                let (key, mut list) = groups.remove(j);
                list.push(e);
                groups.insert(j, (key, list));
                assert(groups@ =~= g0.update(j as int, (key, list)));
                assert forall|k: int| 0 <= k < groups@.len() implies #[trigger] groups@[k].1@ == with_uid(q, groups@[k].0@) by {
                    assert(with_uid(q, groups@[k].0@) =~= with_uid(p, groups@[k].0@) + if e.uid@ == groups@[k].0@ { seq![e] } else { Seq::<ParsedEvent>::empty() });
                    if k != j {
                        assert(g0[k].0@ != g0[j as int].0@);
                    }
                }
                assert forall|i: int| 0 <= i < q.len() implies exists|k: int| 0 <= k < groups@.len() && #[trigger] groups@[k].0@ == #[trigger] q[i].uid@ by {
                    if i < n {
                        assert(q[i] == p[i]);
                        let k = choose|k: int| 0 <= k < g0.len() && #[trigger] g0[k].0@ == #[trigger] p[i].uid@;
                        assert(groups@[k].0@ == q[i].uid@);
                    } else {
                        assert(groups@[j as int].0@ == q[i].uid@);
                    }
                }
            },
            None => {
                proof {
                    assert forall|i: int| 0 <= i < p.len() implies #[trigger] p[i].uid@ != e.uid@ by {
                        let k = choose|k: int| 0 <= k < g0.len() && #[trigger] g0[k].0@ == #[trigger] p[i].uid@;
                    }
                    lemma_with_uid_none(p, e.uid@);
                }
                let key = e.uid.clone();
                let mut list: Vec<ParsedEvent> = Vec::new();
                list.push(e);
                groups.push((key, list));
                assert forall|k: int| 0 <= k < groups@.len() implies #[trigger] groups@[k].1@ == with_uid(q, groups@[k].0@) by {
                    assert(with_uid(q, groups@[k].0@) =~= with_uid(p, groups@[k].0@) + if e.uid@ == groups@[k].0@ { seq![e] } else { Seq::<ParsedEvent>::empty() });
                    if k < g0.len() {
                        assert(groups@[k] == g0[k]);
                    } else {
                        assert(list@ =~= Seq::<ParsedEvent>::empty() + seq![e]);
                    }
                }
                assert forall|i: int| 0 <= i < q.len() implies exists|k: int| 0 <= k < groups@.len() && #[trigger] groups@[k].0@ == #[trigger] q[i].uid@ by {
                    if i < n {
                        assert(q[i] == p[i]);
                        let k = choose|k: int| 0 <= k < g0.len() && #[trigger] g0[k].0@ == #[trigger] p[i].uid@;
                        assert(groups@[k] == g0[k]);
                        assert(groups@[k].0@ == q[i].uid@);
                    } else {
                        assert(groups@[g0.len() as int].0@ == q[i].uid@);
                    }
                }
            },
        }
        n = n + 1;
        assert(all.take(n as int) + rev@.reverse() =~= all) by {
            assert(all.take(n as int) =~= p.push(e));
        }
    }
    assert(all.take(n as int) =~= all);
    groups
}

} // verus!

verus! {

/// Events carrying the mirror marker are never imported: a calendar that is
/// both a source and a target does not echo what was written to it.
pub proof fn law_mirrors_are_never_imported(props: Seq<PropertyModel>, emails: Seq<String>, default_tz: Seq<char>)
    requires
        first_named(props, MIRROR_PROPERTY@) is Some,
    ensures
        event_of(props, emails, default_tz) == EventOutcome::Ok(None),
{
}

/// The owner organizes an event when they are its ORGANIZER, whatever the
/// attendee list says, and when it has no attendees at all.
pub proof fn law_organizer_wins(props: Seq<PropertyModel>, emails: Seq<String>)
    requires
        (first_named(props, "ORGANIZER"@) matches Some(i) && is_owner_prop(props[i], emails)) || first_named(
            props,
            "ATTENDEE"@,
        ) is None,
    ensures
        owner_rsvp_of(props, emails) == Rsvp::Organizer,
{
}

/// A parsed event never ends before it starts.
pub proof fn law_parsed_events_end_after_start(props: Seq<PropertyModel>, emails: Seq<String>, default_tz: Seq<char>)
    requires
        event_of(props, emails, default_tz) is Ok,
        event_of(props, emails, default_tz)->Ok_0 is Some,
    ensures
        event_of(props, emails, default_tz)->Ok_0->Some_0.start_at <= event_of(props, emails, default_tz)->Ok_0->Some_0.end_at,
{
}

proof fn lemma_category_texts_nonempty(pieces: Seq<Seq<char>>)
    ensures
        forall|k: int| 0 <= k < category_texts(pieces).len() ==> (#[trigger] category_texts(pieces)[k]).len() > 0,
    decreases pieces.len(),
{
    if pieces.len() > 0 {
        let d = pieces.drop_last();
        lemma_category_texts_nonempty(d);
        let a = category_texts(d);
        let t = trim_seq(unescape_raw(pieces.last()));
        assert forall|k: int| 0 <= k < category_texts(pieces).len() implies (#[trigger] category_texts(pieces)[k]).len() > 0 by {
            if k < a.len() {
                assert(category_texts(pieces)[k] == a[k]);
            } else {
                assert(category_texts(pieces)[k] == t);
            }
        }
    }
}

/// No category of a parsed event is empty.
pub proof fn law_categories_are_nonempty(props: Seq<PropertyModel>)
    ensures
        forall|k: int| 0 <= k < categories_of(props).len() ==> (#[trigger] categories_of(props)[k]).len() > 0,
    decreases props.len(),
{
    if props.len() > 0 {
        law_categories_are_nonempty(props.drop_last());
        let p = props.last();
        if named(p, "CATEGORIES"@) && p.2 is Some {
            lemma_category_texts_nonempty(split_unescaped_seq(p.2->0, ','));
        }
        let a = categories_of(props.drop_last());
        let b = prop_categories(p);
        assert forall|k: int| 0 <= k < categories_of(props).len() implies (#[trigger] categories_of(props)[k]).len() > 0 by {
            if k < a.len() {
                assert(categories_of(props)[k] == a[k]);
            } else {
                assert(categories_of(props)[k] == b[k - a.len()]);
            }
        }
    }
}


/// A PARTSTAT value, in any case, gives the participation it names:
/// ACCEPTED, TENTATIVE, DECLINED and NEEDS-ACTION their own; any other value,
/// or none, is unknown.
pub proof fn law_partstat_names_the_participation(p: Seq<char>)
    ensures
        upper_seq(p) == "ACCEPTED"@ ==> partstat_rsvp(Some(p)) == Rsvp::Accepted,
        upper_seq(p) == "TENTATIVE"@ ==> partstat_rsvp(Some(p)) == Rsvp::Tentative,
        upper_seq(p) == "DECLINED"@ ==> partstat_rsvp(Some(p)) == Rsvp::Declined,
        upper_seq(p) == "NEEDS-ACTION"@ ==> partstat_rsvp(Some(p)) == Rsvp::NeedsAction,
        upper_seq(p) != "ACCEPTED"@ && upper_seq(p) != "TENTATIVE"@ && upper_seq(p) != "DECLINED"@ && upper_seq(p)
            != "NEEDS-ACTION"@ ==> partstat_rsvp(Some(p)) == Rsvp::Unknown,
        partstat_rsvp(None) == Rsvp::Unknown,
{
    reveal_strlit("ACCEPTED");
    reveal_strlit("TENTATIVE");
    reveal_strlit("DECLINED");
    reveal_strlit("NEEDS-ACTION");
    assert("DECLINED"@[0] != "ACCEPTED"@[0]);
    assert("DECLINED"@ != "ACCEPTED"@);
    assert("DECLINED"@.len() != "TENTATIVE"@.len());
    assert("DECLINED"@ != "TENTATIVE"@);
    assert("TENTATIVE"@.len() != "ACCEPTED"@.len());
    assert("TENTATIVE"@ != "ACCEPTED"@);
    assert("NEEDS-ACTION"@.len() != "ACCEPTED"@.len());
    assert("NEEDS-ACTION"@ != "ACCEPTED"@);
    assert("NEEDS-ACTION"@.len() != "TENTATIVE"@.len());
    assert("NEEDS-ACTION"@ != "TENTATIVE"@);
    assert("NEEDS-ACTION"@.len() != "DECLINED"@.len());
    assert("NEEDS-ACTION"@ != "DECLINED"@);
}

proof fn lemma_owner_attendee_found(props: Seq<PropertyModel>, emails: Seq<String>, i: int, k: int)
    requires
        owner_attendee_from(props, emails, i) == Some(k),
    ensures
        i <= k < props.len(),
        named(props[k], "ATTENDEE"@),
        is_owner_prop(props[k], emails),
        forall|j: int| i <= j < k ==> !(named(props[j], "ATTENDEE"@) && is_owner_prop(props[j], emails)),
    decreases props.len() - i,
{
    if !(named(props[i], "ATTENDEE"@) && is_owner_prop(props[i], emails)) {
        lemma_owner_attendee_found(props, emails, i + 1, k);
    }
}

proof fn lemma_first_named_exists(props: Seq<PropertyModel>, name: Seq<char>, i: int, k: int)
    requires
        0 <= i <= k < props.len(),
        named(props[k], name),
    ensures
        first_named_from(props, name, i) is Some,
    decreases k - i,
{
    if !named(props[i], name) {
        lemma_first_named_exists(props, name, i + 1, k);
    }
}

/// When the owner does not organize an event, their participation is what
/// their own attendee entry says: the PARTSTAT of the first ATTENDEE whose
/// address is one of the owner's, so an owner who declined is recorded as
/// declined, one who accepted as accepted, and so on.
pub proof fn law_owner_attendee_partstat_decides(props: Seq<PropertyModel>, emails: Seq<String>, k: int, p: Seq<char>)
    requires
        !(first_named(props, "ORGANIZER"@) matches Some(o) && is_owner_prop(props[o], emails)),
        0 <= k < props.len(),
        named(props[k], "ATTENDEE"@),
        is_owner_prop(props[k], emails),
        forall|j: int| 0 <= j < k ==> !(named(props[j], "ATTENDEE"@) && is_owner_prop(props[j], emails)),
        param_of(props[k], "PARTSTAT"@) == Some(p),
    ensures
        upper_seq(p) == "DECLINED"@ ==> owner_rsvp_of(props, emails) == Rsvp::Declined,
        upper_seq(p) == "ACCEPTED"@ ==> owner_rsvp_of(props, emails) == Rsvp::Accepted,
        upper_seq(p) == "TENTATIVE"@ ==> owner_rsvp_of(props, emails) == Rsvp::Tentative,
        upper_seq(p) == "NEEDS-ACTION"@ ==> owner_rsvp_of(props, emails) == Rsvp::NeedsAction,
{
    lemma_first_named_exists(props, "ATTENDEE"@, 0, k);
    let f = owner_attendee_from(props, emails, 0);
    if f is None {
        lemma_owner_attendee_none(props, emails, 0, k);
    } else {
        lemma_owner_attendee_found(props, emails, 0, f->0);
    }
    assert(f == Some(k));
    law_partstat_names_the_participation(p);
}

proof fn lemma_owner_attendee_none(props: Seq<PropertyModel>, emails: Seq<String>, i: int, k: int)
    requires
        0 <= i <= k < props.len(),
        named(props[k], "ATTENDEE"@),
        is_owner_prop(props[k], emails),
    ensures
        owner_attendee_from(props, emails, i) is Some,
    decreases k - i,
{
    if !(named(props[i], "ATTENDEE"@) && is_owner_prop(props[i], emails)) {
        lemma_owner_attendee_none(props, emails, i + 1, k);
    }
}


/// A parsed event records the owner's participation as their attendee
/// entry or organizer role gives it.
pub proof fn law_parsed_event_carries_owner_participation(props: Seq<PropertyModel>, emails: Seq<String>, default_tz: Seq<char>)
    requires
        event_of(props, emails, default_tz) matches Ok(Some(_)),
    ensures
        event_of(props, emails, default_tz)->Ok_0->Some_0.rsvp == owner_rsvp_of(props, emails),
{
}

} // verus!
