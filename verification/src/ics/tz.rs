//! Time zone resolution. Calendars in the wild use IANA names, Windows names
//! (Outlook) and a handful of odd aliases; this maps them all onto the zones
//! of `chrono-tz`, named by their IANA names.

use vstd::prelude::*;
use vstd::string::*;

use crate::text::{chars_of, str_equals, string_of, trim, trim_seq};
use crate::timefmt::{is_known_zone, known_zone};

verus! {

broadcast use vstd::string::group_string_axioms;

/// A pragmatic subset of the CLDR windowsZones mapping.
pub open spec fn windows_zone(name: Seq<char>) -> Option<Seq<char>> {
    if name == "UTC"@ || name == "Coordinated Universal Time"@ || name == "GMT"@ {
        Some("UTC"@)
    } else if name == "GMT Standard Time"@ || name == "Greenwich Standard Time"@ {
        Some("Europe/London"@)
    } else if name == "W. Europe Standard Time"@ {
        Some("Europe/Berlin"@)
    } else if name == "Romance Standard Time"@ {
        Some("Europe/Paris"@)
    } else if name == "Central Europe Standard Time"@ {
        Some("Europe/Budapest"@)
    } else if name == "Central European Standard Time"@ {
        Some("Europe/Warsaw"@)
    } else if name == "E. Europe Standard Time"@ {
        Some("Europe/Chisinau"@)
    } else if name == "FLE Standard Time"@ {
        Some("Europe/Kiev"@)
    } else if name == "GTB Standard Time"@ {
        Some("Europe/Bucharest"@)
    } else if name == "Russian Standard Time"@ {
        Some("Europe/Moscow"@)
    } else if name == "Turkey Standard Time"@ {
        Some("Europe/Istanbul"@)
    } else if name == "Israel Standard Time"@ {
        Some("Asia/Jerusalem"@)
    } else if name == "Arabian Standard Time"@ {
        Some("Asia/Dubai"@)
    } else if name == "India Standard Time"@ {
        Some("Asia/Kolkata"@)
    } else if name == "SE Asia Standard Time"@ {
        Some("Asia/Bangkok"@)
    } else if name == "Singapore Standard Time"@ {
        Some("Asia/Singapore"@)
    } else if name == "China Standard Time"@ {
        Some("Asia/Shanghai"@)
    } else if name == "Tokyo Standard Time"@ {
        Some("Asia/Tokyo"@)
    } else if name == "Korea Standard Time"@ {
        Some("Asia/Seoul"@)
    } else if name == "AUS Eastern Standard Time"@ {
        Some("Australia/Sydney"@)
    } else if name == "E. Australia Standard Time"@ {
        Some("Australia/Brisbane"@)
    } else if name == "AUS Central Standard Time"@ {
        Some("Australia/Darwin"@)
    } else if name == "W. Australia Standard Time"@ {
        Some("Australia/Perth"@)
    } else if name == "New Zealand Standard Time"@ {
        Some("Pacific/Auckland"@)
    } else if name == "South Africa Standard Time"@ {
        Some("Africa/Johannesburg"@)
    } else if name == "Egypt Standard Time"@ {
        Some("Africa/Cairo"@)
    } else if name == "Eastern Standard Time"@ {
        Some("America/New_York"@)
    } else if name == "Central Standard Time"@ {
        Some("America/Chicago"@)
    } else if name == "Mountain Standard Time"@ {
        Some("America/Denver"@)
    } else if name == "US Mountain Standard Time"@ {
        Some("America/Phoenix"@)
    } else if name == "Pacific Standard Time"@ {
        Some("America/Los_Angeles"@)
    } else if name == "Alaskan Standard Time"@ {
        Some("America/Anchorage"@)
    } else if name == "Hawaiian Standard Time"@ {
        Some("Pacific/Honolulu"@)
    } else if name == "Atlantic Standard Time"@ {
        Some("America/Halifax"@)
    } else if name == "Newfoundland Standard Time"@ {
        Some("America/St_Johns"@)
    } else if name == "SA Pacific Standard Time"@ {
        Some("America/Bogota"@)
    } else if name == "Argentina Standard Time"@ {
        Some("America/Buenos_Aires"@)
    } else if name == "E. South America Standard Time"@ {
        Some("America/Sao_Paulo"@)
    } else if name == "Central America Standard Time"@ {
        Some("America/Guatemala"@)
    } else if name == "Mexico Standard Time"@ || name == "Central Standard Time (Mexico)"@ {
        Some("America/Mexico_City"@)
    } else {
        None
    }
}

/// A pragmatic subset of the CLDR windowsZones mapping.
pub fn windows_to_iana(name: &str) -> (r: Option<&'static str>)
    ensures
        r.deep_view() == windows_zone(name@),
{
    if str_equals(name, "UTC") || str_equals(name, "Coordinated Universal Time") || str_equals(name, "GMT") {
        Some("UTC")
    } else if str_equals(name, "GMT Standard Time") || str_equals(name, "Greenwich Standard Time") {
        Some("Europe/London")
    } else if str_equals(name, "W. Europe Standard Time") {
        Some("Europe/Berlin")
    } else if str_equals(name, "Romance Standard Time") {
        Some("Europe/Paris")
    } else if str_equals(name, "Central Europe Standard Time") {
        Some("Europe/Budapest")
    } else if str_equals(name, "Central European Standard Time") {
        Some("Europe/Warsaw")
    } else if str_equals(name, "E. Europe Standard Time") {
        Some("Europe/Chisinau")
    } else if str_equals(name, "FLE Standard Time") {
        Some("Europe/Kiev")
    } else if str_equals(name, "GTB Standard Time") {
        Some("Europe/Bucharest")
    } else if str_equals(name, "Russian Standard Time") {
        Some("Europe/Moscow")
    } else if str_equals(name, "Turkey Standard Time") {
        Some("Europe/Istanbul")
    } else if str_equals(name, "Israel Standard Time") {
        Some("Asia/Jerusalem")
    } else if str_equals(name, "Arabian Standard Time") {
        Some("Asia/Dubai")
    } else if str_equals(name, "India Standard Time") {
        Some("Asia/Kolkata")
    } else if str_equals(name, "SE Asia Standard Time") {
        Some("Asia/Bangkok")
    } else if str_equals(name, "Singapore Standard Time") {
        Some("Asia/Singapore")
    } else if str_equals(name, "China Standard Time") {
        Some("Asia/Shanghai")
    } else if str_equals(name, "Tokyo Standard Time") {
        Some("Asia/Tokyo")
    } else if str_equals(name, "Korea Standard Time") {
        Some("Asia/Seoul")
    } else if str_equals(name, "AUS Eastern Standard Time") {
        Some("Australia/Sydney")
    } else if str_equals(name, "E. Australia Standard Time") {
        Some("Australia/Brisbane")
    } else if str_equals(name, "AUS Central Standard Time") {
        Some("Australia/Darwin")
    } else if str_equals(name, "W. Australia Standard Time") {
        Some("Australia/Perth")
    } else if str_equals(name, "New Zealand Standard Time") {
        Some("Pacific/Auckland")
    } else if str_equals(name, "South Africa Standard Time") {
        Some("Africa/Johannesburg")
    } else if str_equals(name, "Egypt Standard Time") {
        Some("Africa/Cairo")
    } else if str_equals(name, "Eastern Standard Time") {
        Some("America/New_York")
    } else if str_equals(name, "Central Standard Time") {
        Some("America/Chicago")
    } else if str_equals(name, "Mountain Standard Time") {
        Some("America/Denver")
    } else if str_equals(name, "US Mountain Standard Time") {
        Some("America/Phoenix")
    } else if str_equals(name, "Pacific Standard Time") {
        Some("America/Los_Angeles")
    } else if str_equals(name, "Alaskan Standard Time") {
        Some("America/Anchorage")
    } else if str_equals(name, "Hawaiian Standard Time") {
        Some("Pacific/Honolulu")
    } else if str_equals(name, "Atlantic Standard Time") {
        Some("America/Halifax")
    } else if str_equals(name, "Newfoundland Standard Time") {
        Some("America/St_Johns")
    } else if str_equals(name, "SA Pacific Standard Time") {
        Some("America/Bogota")
    } else if str_equals(name, "Argentina Standard Time") {
        Some("America/Buenos_Aires")
    } else if str_equals(name, "E. South America Standard Time") {
        Some("America/Sao_Paulo")
    } else if str_equals(name, "Central America Standard Time") {
        Some("America/Guatemala")
    } else if str_equals(name, "Mexico Standard Time") || str_equals(name, "Central Standard Time (Mexico)") {
        Some("America/Mexico_City")
    } else {
        None
    }
}

} // verus!

verus! {

/// `s` without leading double quotes.
pub open spec fn strip_leading_quotes(s: Seq<char>) -> Seq<char>
    decreases s.len(),
{
    if s.len() > 0 && s[0] == '"' { strip_leading_quotes(s.drop_first()) } else { s }
}

/// `s` without trailing double quotes.
pub open spec fn strip_trailing_quotes(s: Seq<char>) -> Seq<char>
    decreases s.len(),
{
    if s.len() > 0 && s.last() == '"' { strip_trailing_quotes(s.drop_last()) } else { s }
}

/// `str::trim_matches('"')`.
pub open spec fn trim_quotes(s: Seq<char>) -> Seq<char> {
    strip_trailing_quotes(strip_leading_quotes(s))
}

/// Position of the last `c` in `s`.
pub open spec fn last_index_of(s: Seq<char>, c: char) -> Option<int>
    decreases s.len(),
{
    if s.len() == 0 {
        None
    } else if s.last() == c {
        Some(s.len() - 1)
    } else {
        last_index_of(s.drop_last(), c)
    }
}

/// The last two path segments of a prefixed TZID, such as `Europe/Amsterdam`
/// in `/mozilla.org/20050126_1/Europe/Amsterdam`.
pub open spec fn zone_tail(s: Seq<char>) -> Option<Seq<char>> {
    match last_index_of(s, '/') {
        Some(idx) => {
            let start = match last_index_of(s.take(idx), '/') {
                Some(j) => j + 1,
                None => 0,
            };
            Some(s.skip(start))
        },
        None => None,
    }
}

/// The zone a TZID names: itself, its last two path segments, or the zone
/// of a Windows name, whichever is known first.
pub open spec fn resolve_zone(tzid: Seq<char>) -> Option<Seq<char>> {
    let c = trim_quotes(trim_seq(tzid));
    if known_zone(c) {
        Some(c)
    } else if zone_tail(c) is Some && known_zone(zone_tail(c)->0) {
        zone_tail(c)
    } else {
        match windows_zone(c) {
            Some(n) => if known_zone(n) { Some(n) } else { None },
            None => None,
        }
    }
}

fn last_index(cs: &Vec<char>, end: usize, c: char) -> (r: Option<usize>)
    requires
        end <= cs.len(),
    ensures
        r matches Some(i) ==> last_index_of(cs@.take(end as int), c) == Some(i as int) && i < end,
        r is None ==> last_index_of(cs@.take(end as int), c) is None,
{
    let mut j = end;
    while j > 0
        invariant
            j <= end <= cs.len(),
            last_index_of(cs@.take(end as int), c) == last_index_of(cs@.take(j as int), c),
        decreases j,
    {
        assert(cs@.take(j as int).drop_last() =~= cs@.take(j - 1));
        if cs[j - 1] == c {
            return Some(j - 1);
        }
        j = j - 1;
    }
    None
}

proof fn lemma_strip_leading(s: Seq<char>, i: int)
    requires
        0 <= i <= s.len(),
        forall|k: int| 0 <= k < i ==> #[trigger] s[k] == '"',
        i == s.len() || s[i] != '"',
    ensures
        strip_leading_quotes(s) == s.skip(i),
    decreases i,
{
    if i == 0 {
        assert(s.skip(0) =~= s);
    } else {
        let t = s.drop_first();
        assert forall|k: int| 0 <= k < i - 1 implies #[trigger] t[k] == '"' by {
            assert(t[k] == s[k + 1]);
        }
        lemma_strip_leading(t, i - 1);
        assert(t.skip(i - 1) =~= s.skip(i));
    }
}

proof fn lemma_strip_trailing(s: Seq<char>, j: int)
    requires
        0 <= j <= s.len(),
        forall|k: int| j <= k < s.len() ==> #[trigger] s[k] == '"',
        j == 0 || s[j - 1] != '"',
    ensures
        strip_trailing_quotes(s) == s.take(j),
    decreases s.len() - j,
{
    if j == s.len() {
        assert(s.take(j) =~= s);
    } else {
        let t = s.drop_last();
        lemma_strip_trailing(t, j);
        assert(t.take(j) =~= s.take(j));
    }
}

/// `str::trim_matches('"')` on the characters `cs`.
fn trim_quotes_exec(cs: &Vec<char>) -> (r: (usize, usize))
    ensures
        r.0 <= r.1 <= cs.len(),
        cs@.subrange(r.0 as int, r.1 as int) == trim_quotes(cs@),
{
    let mut i: usize = 0;
    while i < cs.len() && cs[i] == '"'
        invariant
            i <= cs.len(),
            forall|k: int| 0 <= k < i ==> #[trigger] cs@[k] == '"',
        decreases cs.len() - i,
    {
        i = i + 1;
    }
    let mut j: usize = cs.len();
    while j > i && cs[j - 1] == '"'
        invariant
            i <= j <= cs.len(),
            forall|k: int| j <= k < cs.len() ==> #[trigger] cs@[k] == '"',
        decreases j,
    {
        j = j - 1;
    }
    proof {
        lemma_strip_leading(cs@, i as int);
        let t = cs@.skip(i as int);
        assert forall|k: int| j - i <= k < t.len() implies #[trigger] t[k] == '"' by {
            assert(t[k] == cs@[k + i]);
        }
        if j > i {
            assert(t[j - i - 1] == cs@[j - 1]);
        }
        lemma_strip_trailing(t, j - i);
        assert(t.take(j - i) =~= cs@.subrange(i as int, j as int));
    }
    (i, j)
}

/// Resolve a TZID string to the name of a `chrono-tz` zone.
pub fn resolve(tzid: &str) -> (r: Option<String>)
    ensures
        r.deep_view() == resolve_zone(tzid@),
{
    let trimmed = trim(tzid);
    let all = chars_of(trimmed.as_str());
    let (lo, hi) = trim_quotes_exec(&all);
    let cleaned = string_of(&all, lo, hi);
    let ghost c = trim_quotes(trim_seq(tzid@));
    if is_known_zone(cleaned.as_str()) {
        return Some(cleaned);
    }
    // Some producers prefix with a path such as "/mozilla.org/20050126_1/Europe/Amsterdam"
    let cs = chars_of(cleaned.as_str());
    assert(cs@ == c);
    assert(cs@.take(cs.len() as int) =~= cs@);
    if let Some(idx) = last_index(&cs, cs.len(), '/') {
        assert(cs@.take(idx as int) =~= cs@.take(idx as int).take(idx as int));
        let start = match last_index(&cs, idx, '/') {
            Some(j) => j + 1,
            None => 0,
        };
        let tail = string_of(&cs, start, cs.len());
        assert(tail@ =~= cs@.skip(start as int));
        if is_known_zone(tail.as_str()) {
            return Some(tail);
        }
    }
    match windows_to_iana(cleaned.as_str()) {
        Some(name) => if is_known_zone(name) { Some(String::from_str(name)) } else { None },
        None => None,
    }
}

} // verus!



verus! {

proof fn lemma_windows_entry_0()
    ensures
        windows_zone("UTC"@) == Some("UTC"@),
{
    reveal_strlit("UTC");

}

proof fn lemma_windows_entry_1()
    ensures
        windows_zone("Coordinated Universal Time"@) == Some("UTC"@),
{
    reveal_strlit("Coordinated Universal Time");
    reveal_strlit("UTC");

}

proof fn lemma_windows_entry_2()
    ensures
        windows_zone("GMT"@) == Some("UTC"@),
{
    reveal_strlit("GMT");
    reveal_strlit("UTC");
    reveal_strlit("Coordinated Universal Time");
    assert("GMT"@.len() != "Coordinated Universal Time"@.len());
    assert("GMT"@ != "Coordinated Universal Time"@);
}

proof fn lemma_windows_entry_3()
    ensures
        windows_zone("GMT Standard Time"@) == Some("Europe/London"@),
{
    reveal_strlit("GMT Standard Time");
    reveal_strlit("Europe/London");
    reveal_strlit("UTC");
    reveal_strlit("Coordinated Universal Time");
    reveal_strlit("GMT");
    assert("GMT Standard Time"@.len() != "UTC"@.len());
    assert("GMT Standard Time"@ != "UTC"@);
    assert("GMT Standard Time"@.len() != "Coordinated Universal Time"@.len());
    assert("GMT Standard Time"@ != "Coordinated Universal Time"@);
    assert("GMT Standard Time"@.len() != "GMT"@.len());
    assert("GMT Standard Time"@ != "GMT"@);
}

proof fn lemma_windows_entry_4()
    ensures
        windows_zone("Greenwich Standard Time"@) == Some("Europe/London"@),
{
    reveal_strlit("Greenwich Standard Time");
    reveal_strlit("Europe/London");
    reveal_strlit("UTC");
    reveal_strlit("Coordinated Universal Time");
    reveal_strlit("GMT");
    reveal_strlit("GMT Standard Time");
    assert("Greenwich Standard Time"@.len() != "UTC"@.len());
    assert("Greenwich Standard Time"@ != "UTC"@);
    assert("Greenwich Standard Time"@.len() != "Coordinated Universal Time"@.len());
    assert("Greenwich Standard Time"@ != "Coordinated Universal Time"@);
    assert("Greenwich Standard Time"@.len() != "GMT"@.len());
    assert("Greenwich Standard Time"@ != "GMT"@);
    assert("Greenwich Standard Time"@.len() != "GMT Standard Time"@.len());
    assert("Greenwich Standard Time"@ != "GMT Standard Time"@);
}

proof fn lemma_windows_entry_5()
    ensures
        windows_zone("W. Europe Standard Time"@) == Some("Europe/Berlin"@),
{
    reveal_strlit("W. Europe Standard Time");
    reveal_strlit("Europe/Berlin");
    reveal_strlit("UTC");
    reveal_strlit("Coordinated Universal Time");
    reveal_strlit("GMT");
    reveal_strlit("GMT Standard Time");
    reveal_strlit("Greenwich Standard Time");
    assert("W. Europe Standard Time"@.len() != "UTC"@.len());
    assert("W. Europe Standard Time"@ != "UTC"@);
    assert("W. Europe Standard Time"@.len() != "Coordinated Universal Time"@.len());
    assert("W. Europe Standard Time"@ != "Coordinated Universal Time"@);
    assert("W. Europe Standard Time"@.len() != "GMT"@.len());
    assert("W. Europe Standard Time"@ != "GMT"@);
    assert("W. Europe Standard Time"@.len() != "GMT Standard Time"@.len());
    assert("W. Europe Standard Time"@ != "GMT Standard Time"@);
    assert("W. Europe Standard Time"@[0] != "Greenwich Standard Time"@[0]);
    assert("W. Europe Standard Time"@ != "Greenwich Standard Time"@);
}

proof fn lemma_windows_entry_6()
    ensures
        windows_zone("Romance Standard Time"@) == Some("Europe/Paris"@),
{
    reveal_strlit("Romance Standard Time");
    reveal_strlit("Europe/Paris");
    reveal_strlit("UTC");
    reveal_strlit("Coordinated Universal Time");
    reveal_strlit("GMT");
    reveal_strlit("GMT Standard Time");
    reveal_strlit("Greenwich Standard Time");
    reveal_strlit("W. Europe Standard Time");
    assert("Romance Standard Time"@.len() != "UTC"@.len());
    assert("Romance Standard Time"@ != "UTC"@);
    assert("Romance Standard Time"@.len() != "Coordinated Universal Time"@.len());
    assert("Romance Standard Time"@ != "Coordinated Universal Time"@);
    assert("Romance Standard Time"@.len() != "GMT"@.len());
    assert("Romance Standard Time"@ != "GMT"@);
    assert("Romance Standard Time"@.len() != "GMT Standard Time"@.len());
    assert("Romance Standard Time"@ != "GMT Standard Time"@);
    assert("Romance Standard Time"@.len() != "Greenwich Standard Time"@.len());
    assert("Romance Standard Time"@ != "Greenwich Standard Time"@);
    assert("Romance Standard Time"@.len() != "W. Europe Standard Time"@.len());
    assert("Romance Standard Time"@ != "W. Europe Standard Time"@);
}

proof fn lemma_windows_entry_7()
    ensures
        windows_zone("Central Europe Standard Time"@) == Some("Europe/Budapest"@),
{
    reveal_strlit("Central Europe Standard Time");
    reveal_strlit("Europe/Budapest");
    reveal_strlit("UTC");
    reveal_strlit("Coordinated Universal Time");
    reveal_strlit("GMT");
    reveal_strlit("GMT Standard Time");
    reveal_strlit("Greenwich Standard Time");
    reveal_strlit("W. Europe Standard Time");
    reveal_strlit("Romance Standard Time");
    assert("Central Europe Standard Time"@.len() != "UTC"@.len());
    assert("Central Europe Standard Time"@ != "UTC"@);
    assert("Central Europe Standard Time"@.len() != "Coordinated Universal Time"@.len());
    assert("Central Europe Standard Time"@ != "Coordinated Universal Time"@);
    assert("Central Europe Standard Time"@.len() != "GMT"@.len());
    assert("Central Europe Standard Time"@ != "GMT"@);
    assert("Central Europe Standard Time"@.len() != "GMT Standard Time"@.len());
    assert("Central Europe Standard Time"@ != "GMT Standard Time"@);
    assert("Central Europe Standard Time"@.len() != "Greenwich Standard Time"@.len());
    assert("Central Europe Standard Time"@ != "Greenwich Standard Time"@);
    assert("Central Europe Standard Time"@.len() != "W. Europe Standard Time"@.len());
    assert("Central Europe Standard Time"@ != "W. Europe Standard Time"@);
    assert("Central Europe Standard Time"@.len() != "Romance Standard Time"@.len());
    assert("Central Europe Standard Time"@ != "Romance Standard Time"@);
}

proof fn lemma_windows_entry_8()
    ensures
        windows_zone("Central European Standard Time"@) == Some("Europe/Warsaw"@),
{
    reveal_strlit("Central European Standard Time");
    reveal_strlit("Europe/Warsaw");
    reveal_strlit("UTC");
    reveal_strlit("Coordinated Universal Time");
    reveal_strlit("GMT");
    reveal_strlit("GMT Standard Time");
    reveal_strlit("Greenwich Standard Time");
    reveal_strlit("W. Europe Standard Time");
    reveal_strlit("Romance Standard Time");
    reveal_strlit("Central Europe Standard Time");
    assert("Central European Standard Time"@.len() != "UTC"@.len());
    assert("Central European Standard Time"@ != "UTC"@);
    assert("Central European Standard Time"@.len() != "Coordinated Universal Time"@.len());
    assert("Central European Standard Time"@ != "Coordinated Universal Time"@);
    assert("Central European Standard Time"@.len() != "GMT"@.len());
    assert("Central European Standard Time"@ != "GMT"@);
    assert("Central European Standard Time"@.len() != "GMT Standard Time"@.len());
    assert("Central European Standard Time"@ != "GMT Standard Time"@);
    assert("Central European Standard Time"@.len() != "Greenwich Standard Time"@.len());
    assert("Central European Standard Time"@ != "Greenwich Standard Time"@);
    assert("Central European Standard Time"@.len() != "W. Europe Standard Time"@.len());
    assert("Central European Standard Time"@ != "W. Europe Standard Time"@);
    assert("Central European Standard Time"@.len() != "Romance Standard Time"@.len());
    assert("Central European Standard Time"@ != "Romance Standard Time"@);
    assert("Central European Standard Time"@.len() != "Central Europe Standard Time"@.len());
    assert("Central European Standard Time"@ != "Central Europe Standard Time"@);
}

proof fn lemma_windows_entry_9()
    ensures
        windows_zone("E. Europe Standard Time"@) == Some("Europe/Chisinau"@),
{
    reveal_strlit("E. Europe Standard Time");
    reveal_strlit("Europe/Chisinau");
    reveal_strlit("UTC");
    reveal_strlit("Coordinated Universal Time");
    reveal_strlit("GMT");
    reveal_strlit("GMT Standard Time");
    reveal_strlit("Greenwich Standard Time");
    reveal_strlit("W. Europe Standard Time");
    reveal_strlit("Romance Standard Time");
    reveal_strlit("Central Europe Standard Time");
    reveal_strlit("Central European Standard Time");
    assert("E. Europe Standard Time"@.len() != "UTC"@.len());
    assert("E. Europe Standard Time"@ != "UTC"@);
    assert("E. Europe Standard Time"@.len() != "Coordinated Universal Time"@.len());
    assert("E. Europe Standard Time"@ != "Coordinated Universal Time"@);
    assert("E. Europe Standard Time"@.len() != "GMT"@.len());
    assert("E. Europe Standard Time"@ != "GMT"@);
    assert("E. Europe Standard Time"@.len() != "GMT Standard Time"@.len());
    assert("E. Europe Standard Time"@ != "GMT Standard Time"@);
    assert("E. Europe Standard Time"@[0] != "Greenwich Standard Time"@[0]);
    assert("E. Europe Standard Time"@ != "Greenwich Standard Time"@);
    assert("E. Europe Standard Time"@[0] != "W. Europe Standard Time"@[0]);
    assert("E. Europe Standard Time"@ != "W. Europe Standard Time"@);
    assert("E. Europe Standard Time"@.len() != "Romance Standard Time"@.len());
    assert("E. Europe Standard Time"@ != "Romance Standard Time"@);
    assert("E. Europe Standard Time"@.len() != "Central Europe Standard Time"@.len());
    assert("E. Europe Standard Time"@ != "Central Europe Standard Time"@);
    assert("E. Europe Standard Time"@.len() != "Central European Standard Time"@.len());
    assert("E. Europe Standard Time"@ != "Central European Standard Time"@);
}

proof fn lemma_windows_entry_10()
    ensures
        windows_zone("FLE Standard Time"@) == Some("Europe/Kiev"@),
{
    reveal_strlit("FLE Standard Time");
    reveal_strlit("Europe/Kiev");
    reveal_strlit("UTC");
    reveal_strlit("Coordinated Universal Time");
    reveal_strlit("GMT");
    reveal_strlit("GMT Standard Time");
    reveal_strlit("Greenwich Standard Time");
    reveal_strlit("W. Europe Standard Time");
    reveal_strlit("Romance Standard Time");
    reveal_strlit("Central Europe Standard Time");
    reveal_strlit("Central European Standard Time");
    reveal_strlit("E. Europe Standard Time");
    assert("FLE Standard Time"@.len() != "UTC"@.len());
    assert("FLE Standard Time"@ != "UTC"@);
    assert("FLE Standard Time"@.len() != "Coordinated Universal Time"@.len());
    assert("FLE Standard Time"@ != "Coordinated Universal Time"@);
    assert("FLE Standard Time"@.len() != "GMT"@.len());
    assert("FLE Standard Time"@ != "GMT"@);
    assert("FLE Standard Time"@[0] != "GMT Standard Time"@[0]);
    assert("FLE Standard Time"@ != "GMT Standard Time"@);
    assert("FLE Standard Time"@.len() != "Greenwich Standard Time"@.len());
    assert("FLE Standard Time"@ != "Greenwich Standard Time"@);
    assert("FLE Standard Time"@.len() != "W. Europe Standard Time"@.len());
    assert("FLE Standard Time"@ != "W. Europe Standard Time"@);
    assert("FLE Standard Time"@.len() != "Romance Standard Time"@.len());
    assert("FLE Standard Time"@ != "Romance Standard Time"@);
    assert("FLE Standard Time"@.len() != "Central Europe Standard Time"@.len());
    assert("FLE Standard Time"@ != "Central Europe Standard Time"@);
    assert("FLE Standard Time"@.len() != "Central European Standard Time"@.len());
    assert("FLE Standard Time"@ != "Central European Standard Time"@);
    assert("FLE Standard Time"@.len() != "E. Europe Standard Time"@.len());
    assert("FLE Standard Time"@ != "E. Europe Standard Time"@);
}

proof fn lemma_windows_entry_11()
    ensures
        windows_zone("GTB Standard Time"@) == Some("Europe/Bucharest"@),
{
    reveal_strlit("GTB Standard Time");
    reveal_strlit("Europe/Bucharest");
    reveal_strlit("UTC");
    reveal_strlit("Coordinated Universal Time");
    reveal_strlit("GMT");
    reveal_strlit("GMT Standard Time");
    reveal_strlit("Greenwich Standard Time");
    reveal_strlit("W. Europe Standard Time");
    reveal_strlit("Romance Standard Time");
    reveal_strlit("Central Europe Standard Time");
    reveal_strlit("Central European Standard Time");
    reveal_strlit("E. Europe Standard Time");
    reveal_strlit("FLE Standard Time");
    assert("GTB Standard Time"@.len() != "UTC"@.len());
    assert("GTB Standard Time"@ != "UTC"@);
    assert("GTB Standard Time"@.len() != "Coordinated Universal Time"@.len());
    assert("GTB Standard Time"@ != "Coordinated Universal Time"@);
    assert("GTB Standard Time"@.len() != "GMT"@.len());
    assert("GTB Standard Time"@ != "GMT"@);
    assert("GTB Standard Time"@[1] != "GMT Standard Time"@[1]);
    assert("GTB Standard Time"@ != "GMT Standard Time"@);
    assert("GTB Standard Time"@.len() != "Greenwich Standard Time"@.len());
    assert("GTB Standard Time"@ != "Greenwich Standard Time"@);
    assert("GTB Standard Time"@.len() != "W. Europe Standard Time"@.len());
    assert("GTB Standard Time"@ != "W. Europe Standard Time"@);
    assert("GTB Standard Time"@.len() != "Romance Standard Time"@.len());
    assert("GTB Standard Time"@ != "Romance Standard Time"@);
    assert("GTB Standard Time"@.len() != "Central Europe Standard Time"@.len());
    assert("GTB Standard Time"@ != "Central Europe Standard Time"@);
    assert("GTB Standard Time"@.len() != "Central European Standard Time"@.len());
    assert("GTB Standard Time"@ != "Central European Standard Time"@);
    assert("GTB Standard Time"@.len() != "E. Europe Standard Time"@.len());
    assert("GTB Standard Time"@ != "E. Europe Standard Time"@);
    assert("GTB Standard Time"@[0] != "FLE Standard Time"@[0]);
    assert("GTB Standard Time"@ != "FLE Standard Time"@);
}

proof fn lemma_windows_entry_12()
    ensures
        windows_zone("Russian Standard Time"@) == Some("Europe/Moscow"@),
{
    reveal_strlit("Russian Standard Time");
    reveal_strlit("Europe/Moscow");
    reveal_strlit("UTC");
    reveal_strlit("Coordinated Universal Time");
    reveal_strlit("GMT");
    reveal_strlit("GMT Standard Time");
    reveal_strlit("Greenwich Standard Time");
    reveal_strlit("W. Europe Standard Time");
    reveal_strlit("Romance Standard Time");
    reveal_strlit("Central Europe Standard Time");
    reveal_strlit("Central European Standard Time");
    reveal_strlit("E. Europe Standard Time");
    reveal_strlit("FLE Standard Time");
    reveal_strlit("GTB Standard Time");
    assert("Russian Standard Time"@.len() != "UTC"@.len());
    assert("Russian Standard Time"@ != "UTC"@);
    assert("Russian Standard Time"@.len() != "Coordinated Universal Time"@.len());
    assert("Russian Standard Time"@ != "Coordinated Universal Time"@);
    assert("Russian Standard Time"@.len() != "GMT"@.len());
    assert("Russian Standard Time"@ != "GMT"@);
    assert("Russian Standard Time"@.len() != "GMT Standard Time"@.len());
    assert("Russian Standard Time"@ != "GMT Standard Time"@);
    assert("Russian Standard Time"@.len() != "Greenwich Standard Time"@.len());
    assert("Russian Standard Time"@ != "Greenwich Standard Time"@);
    assert("Russian Standard Time"@.len() != "W. Europe Standard Time"@.len());
    assert("Russian Standard Time"@ != "W. Europe Standard Time"@);
    assert("Russian Standard Time"@[1] != "Romance Standard Time"@[1]);
    assert("Russian Standard Time"@ != "Romance Standard Time"@);
    assert("Russian Standard Time"@.len() != "Central Europe Standard Time"@.len());
    assert("Russian Standard Time"@ != "Central Europe Standard Time"@);
    assert("Russian Standard Time"@.len() != "Central European Standard Time"@.len());
    assert("Russian Standard Time"@ != "Central European Standard Time"@);
    assert("Russian Standard Time"@.len() != "E. Europe Standard Time"@.len());
    assert("Russian Standard Time"@ != "E. Europe Standard Time"@);
    assert("Russian Standard Time"@.len() != "FLE Standard Time"@.len());
    assert("Russian Standard Time"@ != "FLE Standard Time"@);
    assert("Russian Standard Time"@.len() != "GTB Standard Time"@.len());
    assert("Russian Standard Time"@ != "GTB Standard Time"@);
}

proof fn lemma_windows_entry_13()
    ensures
        windows_zone("Turkey Standard Time"@) == Some("Europe/Istanbul"@),
{
    reveal_strlit("Turkey Standard Time");
    reveal_strlit("Europe/Istanbul");
    reveal_strlit("UTC");
    reveal_strlit("Coordinated Universal Time");
    reveal_strlit("GMT");
    reveal_strlit("GMT Standard Time");
    reveal_strlit("Greenwich Standard Time");
    reveal_strlit("W. Europe Standard Time");
    reveal_strlit("Romance Standard Time");
    reveal_strlit("Central Europe Standard Time");
    reveal_strlit("Central European Standard Time");
    reveal_strlit("E. Europe Standard Time");
    reveal_strlit("FLE Standard Time");
    reveal_strlit("GTB Standard Time");
    reveal_strlit("Russian Standard Time");
    assert("Turkey Standard Time"@.len() != "UTC"@.len());
    assert("Turkey Standard Time"@ != "UTC"@);
    assert("Turkey Standard Time"@.len() != "Coordinated Universal Time"@.len());
    assert("Turkey Standard Time"@ != "Coordinated Universal Time"@);
    assert("Turkey Standard Time"@.len() != "GMT"@.len());
    assert("Turkey Standard Time"@ != "GMT"@);
    assert("Turkey Standard Time"@.len() != "GMT Standard Time"@.len());
    assert("Turkey Standard Time"@ != "GMT Standard Time"@);
    assert("Turkey Standard Time"@.len() != "Greenwich Standard Time"@.len());
    assert("Turkey Standard Time"@ != "Greenwich Standard Time"@);
    assert("Turkey Standard Time"@.len() != "W. Europe Standard Time"@.len());
    assert("Turkey Standard Time"@ != "W. Europe Standard Time"@);
    assert("Turkey Standard Time"@.len() != "Romance Standard Time"@.len());
    assert("Turkey Standard Time"@ != "Romance Standard Time"@);
    assert("Turkey Standard Time"@.len() != "Central Europe Standard Time"@.len());
    assert("Turkey Standard Time"@ != "Central Europe Standard Time"@);
    assert("Turkey Standard Time"@.len() != "Central European Standard Time"@.len());
    assert("Turkey Standard Time"@ != "Central European Standard Time"@);
    assert("Turkey Standard Time"@.len() != "E. Europe Standard Time"@.len());
    assert("Turkey Standard Time"@ != "E. Europe Standard Time"@);
    assert("Turkey Standard Time"@.len() != "FLE Standard Time"@.len());
    assert("Turkey Standard Time"@ != "FLE Standard Time"@);
    assert("Turkey Standard Time"@.len() != "GTB Standard Time"@.len());
    assert("Turkey Standard Time"@ != "GTB Standard Time"@);
    assert("Turkey Standard Time"@.len() != "Russian Standard Time"@.len());
    assert("Turkey Standard Time"@ != "Russian Standard Time"@);
}

proof fn lemma_windows_entry_14()
    ensures
        windows_zone("Israel Standard Time"@) == Some("Asia/Jerusalem"@),
{
    reveal_strlit("Israel Standard Time");
    reveal_strlit("Asia/Jerusalem");
    reveal_strlit("UTC");
    reveal_strlit("Coordinated Universal Time");
    reveal_strlit("GMT");
    reveal_strlit("GMT Standard Time");
    reveal_strlit("Greenwich Standard Time");
    reveal_strlit("W. Europe Standard Time");
    reveal_strlit("Romance Standard Time");
    reveal_strlit("Central Europe Standard Time");
    reveal_strlit("Central European Standard Time");
    reveal_strlit("E. Europe Standard Time");
    reveal_strlit("FLE Standard Time");
    reveal_strlit("GTB Standard Time");
    reveal_strlit("Russian Standard Time");
    reveal_strlit("Turkey Standard Time");
    assert("Israel Standard Time"@.len() != "UTC"@.len());
    assert("Israel Standard Time"@ != "UTC"@);
    assert("Israel Standard Time"@.len() != "Coordinated Universal Time"@.len());
    assert("Israel Standard Time"@ != "Coordinated Universal Time"@);
    assert("Israel Standard Time"@.len() != "GMT"@.len());
    assert("Israel Standard Time"@ != "GMT"@);
    assert("Israel Standard Time"@.len() != "GMT Standard Time"@.len());
    assert("Israel Standard Time"@ != "GMT Standard Time"@);
    assert("Israel Standard Time"@.len() != "Greenwich Standard Time"@.len());
    assert("Israel Standard Time"@ != "Greenwich Standard Time"@);
    assert("Israel Standard Time"@.len() != "W. Europe Standard Time"@.len());
    assert("Israel Standard Time"@ != "W. Europe Standard Time"@);
    assert("Israel Standard Time"@.len() != "Romance Standard Time"@.len());
    assert("Israel Standard Time"@ != "Romance Standard Time"@);
    assert("Israel Standard Time"@.len() != "Central Europe Standard Time"@.len());
    assert("Israel Standard Time"@ != "Central Europe Standard Time"@);
    assert("Israel Standard Time"@.len() != "Central European Standard Time"@.len());
    assert("Israel Standard Time"@ != "Central European Standard Time"@);
    assert("Israel Standard Time"@.len() != "E. Europe Standard Time"@.len());
    assert("Israel Standard Time"@ != "E. Europe Standard Time"@);
    assert("Israel Standard Time"@.len() != "FLE Standard Time"@.len());
    assert("Israel Standard Time"@ != "FLE Standard Time"@);
    assert("Israel Standard Time"@.len() != "GTB Standard Time"@.len());
    assert("Israel Standard Time"@ != "GTB Standard Time"@);
    assert("Israel Standard Time"@.len() != "Russian Standard Time"@.len());
    assert("Israel Standard Time"@ != "Russian Standard Time"@);
    assert("Israel Standard Time"@[0] != "Turkey Standard Time"@[0]);
    assert("Israel Standard Time"@ != "Turkey Standard Time"@);
}

proof fn lemma_windows_entry_15()
    ensures
        windows_zone("Arabian Standard Time"@) == Some("Asia/Dubai"@),
{
    reveal_strlit("Arabian Standard Time");
    reveal_strlit("Asia/Dubai");
    reveal_strlit("UTC");
    reveal_strlit("Coordinated Universal Time");
    reveal_strlit("GMT");
    reveal_strlit("GMT Standard Time");
    reveal_strlit("Greenwich Standard Time");
    reveal_strlit("W. Europe Standard Time");
    reveal_strlit("Romance Standard Time");
    reveal_strlit("Central Europe Standard Time");
    reveal_strlit("Central European Standard Time");
    reveal_strlit("E. Europe Standard Time");
    reveal_strlit("FLE Standard Time");
    reveal_strlit("GTB Standard Time");
    reveal_strlit("Russian Standard Time");
    reveal_strlit("Turkey Standard Time");
    reveal_strlit("Israel Standard Time");
    assert("Arabian Standard Time"@.len() != "UTC"@.len());
    assert("Arabian Standard Time"@ != "UTC"@);
    assert("Arabian Standard Time"@.len() != "Coordinated Universal Time"@.len());
    assert("Arabian Standard Time"@ != "Coordinated Universal Time"@);
    assert("Arabian Standard Time"@.len() != "GMT"@.len());
    assert("Arabian Standard Time"@ != "GMT"@);
    assert("Arabian Standard Time"@.len() != "GMT Standard Time"@.len());
    assert("Arabian Standard Time"@ != "GMT Standard Time"@);
    assert("Arabian Standard Time"@.len() != "Greenwich Standard Time"@.len());
    assert("Arabian Standard Time"@ != "Greenwich Standard Time"@);
    assert("Arabian Standard Time"@.len() != "W. Europe Standard Time"@.len());
    assert("Arabian Standard Time"@ != "W. Europe Standard Time"@);
    assert("Arabian Standard Time"@[0] != "Romance Standard Time"@[0]);
    assert("Arabian Standard Time"@ != "Romance Standard Time"@);
    assert("Arabian Standard Time"@.len() != "Central Europe Standard Time"@.len());
    assert("Arabian Standard Time"@ != "Central Europe Standard Time"@);
    assert("Arabian Standard Time"@.len() != "Central European Standard Time"@.len());
    assert("Arabian Standard Time"@ != "Central European Standard Time"@);
    assert("Arabian Standard Time"@.len() != "E. Europe Standard Time"@.len());
    assert("Arabian Standard Time"@ != "E. Europe Standard Time"@);
    assert("Arabian Standard Time"@.len() != "FLE Standard Time"@.len());
    assert("Arabian Standard Time"@ != "FLE Standard Time"@);
    assert("Arabian Standard Time"@.len() != "GTB Standard Time"@.len());
    assert("Arabian Standard Time"@ != "GTB Standard Time"@);
    assert("Arabian Standard Time"@[0] != "Russian Standard Time"@[0]);
    assert("Arabian Standard Time"@ != "Russian Standard Time"@);
    assert("Arabian Standard Time"@.len() != "Turkey Standard Time"@.len());
    assert("Arabian Standard Time"@ != "Turkey Standard Time"@);
    assert("Arabian Standard Time"@.len() != "Israel Standard Time"@.len());
    assert("Arabian Standard Time"@ != "Israel Standard Time"@);
}

proof fn lemma_windows_entry_16()
    ensures
        windows_zone("India Standard Time"@) == Some("Asia/Kolkata"@),
{
    reveal_strlit("India Standard Time");
    reveal_strlit("Asia/Kolkata");
    reveal_strlit("UTC");
    reveal_strlit("Coordinated Universal Time");
    reveal_strlit("GMT");
    reveal_strlit("GMT Standard Time");
    reveal_strlit("Greenwich Standard Time");
    reveal_strlit("W. Europe Standard Time");
    reveal_strlit("Romance Standard Time");
    reveal_strlit("Central Europe Standard Time");
    reveal_strlit("Central European Standard Time");
    reveal_strlit("E. Europe Standard Time");
    reveal_strlit("FLE Standard Time");
    reveal_strlit("GTB Standard Time");
    reveal_strlit("Russian Standard Time");
    reveal_strlit("Turkey Standard Time");
    reveal_strlit("Israel Standard Time");
    reveal_strlit("Arabian Standard Time");
    assert("India Standard Time"@.len() != "UTC"@.len());
    assert("India Standard Time"@ != "UTC"@);
    assert("India Standard Time"@.len() != "Coordinated Universal Time"@.len());
    assert("India Standard Time"@ != "Coordinated Universal Time"@);
    assert("India Standard Time"@.len() != "GMT"@.len());
    assert("India Standard Time"@ != "GMT"@);
    assert("India Standard Time"@.len() != "GMT Standard Time"@.len());
    assert("India Standard Time"@ != "GMT Standard Time"@);
    assert("India Standard Time"@.len() != "Greenwich Standard Time"@.len());
    assert("India Standard Time"@ != "Greenwich Standard Time"@);
    assert("India Standard Time"@.len() != "W. Europe Standard Time"@.len());
    assert("India Standard Time"@ != "W. Europe Standard Time"@);
    assert("India Standard Time"@.len() != "Romance Standard Time"@.len());
    assert("India Standard Time"@ != "Romance Standard Time"@);
    assert("India Standard Time"@.len() != "Central Europe Standard Time"@.len());
    assert("India Standard Time"@ != "Central Europe Standard Time"@);
    assert("India Standard Time"@.len() != "Central European Standard Time"@.len());
    assert("India Standard Time"@ != "Central European Standard Time"@);
    assert("India Standard Time"@.len() != "E. Europe Standard Time"@.len());
    assert("India Standard Time"@ != "E. Europe Standard Time"@);
    assert("India Standard Time"@.len() != "FLE Standard Time"@.len());
    assert("India Standard Time"@ != "FLE Standard Time"@);
    assert("India Standard Time"@.len() != "GTB Standard Time"@.len());
    assert("India Standard Time"@ != "GTB Standard Time"@);
    assert("India Standard Time"@.len() != "Russian Standard Time"@.len());
    assert("India Standard Time"@ != "Russian Standard Time"@);
    assert("India Standard Time"@.len() != "Turkey Standard Time"@.len());
    assert("India Standard Time"@ != "Turkey Standard Time"@);
    assert("India Standard Time"@.len() != "Israel Standard Time"@.len());
    assert("India Standard Time"@ != "Israel Standard Time"@);
    assert("India Standard Time"@.len() != "Arabian Standard Time"@.len());
    assert("India Standard Time"@ != "Arabian Standard Time"@);
}

proof fn lemma_windows_entry_17()
    ensures
        windows_zone("SE Asia Standard Time"@) == Some("Asia/Bangkok"@),
{
    reveal_strlit("SE Asia Standard Time");
    reveal_strlit("Asia/Bangkok");
    reveal_strlit("UTC");
    reveal_strlit("Coordinated Universal Time");
    reveal_strlit("GMT");
    reveal_strlit("GMT Standard Time");
    reveal_strlit("Greenwich Standard Time");
    reveal_strlit("W. Europe Standard Time");
    reveal_strlit("Romance Standard Time");
    reveal_strlit("Central Europe Standard Time");
    reveal_strlit("Central European Standard Time");
    reveal_strlit("E. Europe Standard Time");
    reveal_strlit("FLE Standard Time");
    reveal_strlit("GTB Standard Time");
    reveal_strlit("Russian Standard Time");
    reveal_strlit("Turkey Standard Time");
    reveal_strlit("Israel Standard Time");
    reveal_strlit("Arabian Standard Time");
    reveal_strlit("India Standard Time");
    assert("SE Asia Standard Time"@.len() != "UTC"@.len());
    assert("SE Asia Standard Time"@ != "UTC"@);
    assert("SE Asia Standard Time"@.len() != "Coordinated Universal Time"@.len());
    assert("SE Asia Standard Time"@ != "Coordinated Universal Time"@);
    assert("SE Asia Standard Time"@.len() != "GMT"@.len());
    assert("SE Asia Standard Time"@ != "GMT"@);
    assert("SE Asia Standard Time"@.len() != "GMT Standard Time"@.len());
    assert("SE Asia Standard Time"@ != "GMT Standard Time"@);
    assert("SE Asia Standard Time"@.len() != "Greenwich Standard Time"@.len());
    assert("SE Asia Standard Time"@ != "Greenwich Standard Time"@);
    assert("SE Asia Standard Time"@.len() != "W. Europe Standard Time"@.len());
    assert("SE Asia Standard Time"@ != "W. Europe Standard Time"@);
    assert("SE Asia Standard Time"@[0] != "Romance Standard Time"@[0]);
    assert("SE Asia Standard Time"@ != "Romance Standard Time"@);
    assert("SE Asia Standard Time"@.len() != "Central Europe Standard Time"@.len());
    assert("SE Asia Standard Time"@ != "Central Europe Standard Time"@);
    assert("SE Asia Standard Time"@.len() != "Central European Standard Time"@.len());
    assert("SE Asia Standard Time"@ != "Central European Standard Time"@);
    assert("SE Asia Standard Time"@.len() != "E. Europe Standard Time"@.len());
    assert("SE Asia Standard Time"@ != "E. Europe Standard Time"@);
    assert("SE Asia Standard Time"@.len() != "FLE Standard Time"@.len());
    assert("SE Asia Standard Time"@ != "FLE Standard Time"@);
    assert("SE Asia Standard Time"@.len() != "GTB Standard Time"@.len());
    assert("SE Asia Standard Time"@ != "GTB Standard Time"@);
    assert("SE Asia Standard Time"@[0] != "Russian Standard Time"@[0]);
    assert("SE Asia Standard Time"@ != "Russian Standard Time"@);
    assert("SE Asia Standard Time"@.len() != "Turkey Standard Time"@.len());
    assert("SE Asia Standard Time"@ != "Turkey Standard Time"@);
    assert("SE Asia Standard Time"@.len() != "Israel Standard Time"@.len());
    assert("SE Asia Standard Time"@ != "Israel Standard Time"@);
    assert("SE Asia Standard Time"@[0] != "Arabian Standard Time"@[0]);
    assert("SE Asia Standard Time"@ != "Arabian Standard Time"@);
    assert("SE Asia Standard Time"@.len() != "India Standard Time"@.len());
    assert("SE Asia Standard Time"@ != "India Standard Time"@);
}

proof fn lemma_windows_entry_18()
    ensures
        windows_zone("Singapore Standard Time"@) == Some("Asia/Singapore"@),
{
    reveal_strlit("Singapore Standard Time");
    reveal_strlit("Asia/Singapore");
    reveal_strlit("UTC");
    reveal_strlit("Coordinated Universal Time");
    reveal_strlit("GMT");
    reveal_strlit("GMT Standard Time");
    reveal_strlit("Greenwich Standard Time");
    reveal_strlit("W. Europe Standard Time");
    reveal_strlit("Romance Standard Time");
    reveal_strlit("Central Europe Standard Time");
    reveal_strlit("Central European Standard Time");
    reveal_strlit("E. Europe Standard Time");
    reveal_strlit("FLE Standard Time");
    reveal_strlit("GTB Standard Time");
    reveal_strlit("Russian Standard Time");
    reveal_strlit("Turkey Standard Time");
    reveal_strlit("Israel Standard Time");
    reveal_strlit("Arabian Standard Time");
    reveal_strlit("India Standard Time");
    reveal_strlit("SE Asia Standard Time");
    assert("Singapore Standard Time"@.len() != "UTC"@.len());
    assert("Singapore Standard Time"@ != "UTC"@);
    assert("Singapore Standard Time"@.len() != "Coordinated Universal Time"@.len());
    assert("Singapore Standard Time"@ != "Coordinated Universal Time"@);
    assert("Singapore Standard Time"@.len() != "GMT"@.len());
    assert("Singapore Standard Time"@ != "GMT"@);
    assert("Singapore Standard Time"@.len() != "GMT Standard Time"@.len());
    assert("Singapore Standard Time"@ != "GMT Standard Time"@);
    assert("Singapore Standard Time"@[0] != "Greenwich Standard Time"@[0]);
    assert("Singapore Standard Time"@ != "Greenwich Standard Time"@);
    assert("Singapore Standard Time"@[0] != "W. Europe Standard Time"@[0]);
    assert("Singapore Standard Time"@ != "W. Europe Standard Time"@);
    assert("Singapore Standard Time"@.len() != "Romance Standard Time"@.len());
    assert("Singapore Standard Time"@ != "Romance Standard Time"@);
    assert("Singapore Standard Time"@.len() != "Central Europe Standard Time"@.len());
    assert("Singapore Standard Time"@ != "Central Europe Standard Time"@);
    assert("Singapore Standard Time"@.len() != "Central European Standard Time"@.len());
    assert("Singapore Standard Time"@ != "Central European Standard Time"@);
    assert("Singapore Standard Time"@[0] != "E. Europe Standard Time"@[0]);
    assert("Singapore Standard Time"@ != "E. Europe Standard Time"@);
    assert("Singapore Standard Time"@.len() != "FLE Standard Time"@.len());
    assert("Singapore Standard Time"@ != "FLE Standard Time"@);
    assert("Singapore Standard Time"@.len() != "GTB Standard Time"@.len());
    assert("Singapore Standard Time"@ != "GTB Standard Time"@);
    assert("Singapore Standard Time"@.len() != "Russian Standard Time"@.len());
    assert("Singapore Standard Time"@ != "Russian Standard Time"@);
    assert("Singapore Standard Time"@.len() != "Turkey Standard Time"@.len());
    assert("Singapore Standard Time"@ != "Turkey Standard Time"@);
    assert("Singapore Standard Time"@.len() != "Israel Standard Time"@.len());
    assert("Singapore Standard Time"@ != "Israel Standard Time"@);
    assert("Singapore Standard Time"@.len() != "Arabian Standard Time"@.len());
    assert("Singapore Standard Time"@ != "Arabian Standard Time"@);
    assert("Singapore Standard Time"@.len() != "India Standard Time"@.len());
    assert("Singapore Standard Time"@ != "India Standard Time"@);
    assert("Singapore Standard Time"@.len() != "SE Asia Standard Time"@.len());
    assert("Singapore Standard Time"@ != "SE Asia Standard Time"@);
}

proof fn lemma_windows_entry_19()
    ensures
        windows_zone("China Standard Time"@) == Some("Asia/Shanghai"@),
{
    reveal_strlit("China Standard Time");
    reveal_strlit("Asia/Shanghai");
    reveal_strlit("UTC");
    reveal_strlit("Coordinated Universal Time");
    reveal_strlit("GMT");
    reveal_strlit("GMT Standard Time");
    reveal_strlit("Greenwich Standard Time");
    reveal_strlit("W. Europe Standard Time");
    reveal_strlit("Romance Standard Time");
    reveal_strlit("Central Europe Standard Time");
    reveal_strlit("Central European Standard Time");
    reveal_strlit("E. Europe Standard Time");
    reveal_strlit("FLE Standard Time");
    reveal_strlit("GTB Standard Time");
    reveal_strlit("Russian Standard Time");
    reveal_strlit("Turkey Standard Time");
    reveal_strlit("Israel Standard Time");
    reveal_strlit("Arabian Standard Time");
    reveal_strlit("India Standard Time");
    reveal_strlit("SE Asia Standard Time");
    reveal_strlit("Singapore Standard Time");
    assert("China Standard Time"@.len() != "UTC"@.len());
    assert("China Standard Time"@ != "UTC"@);
    assert("China Standard Time"@.len() != "Coordinated Universal Time"@.len());
    assert("China Standard Time"@ != "Coordinated Universal Time"@);
    assert("China Standard Time"@.len() != "GMT"@.len());
    assert("China Standard Time"@ != "GMT"@);
    assert("China Standard Time"@.len() != "GMT Standard Time"@.len());
    assert("China Standard Time"@ != "GMT Standard Time"@);
    assert("China Standard Time"@.len() != "Greenwich Standard Time"@.len());
    assert("China Standard Time"@ != "Greenwich Standard Time"@);
    assert("China Standard Time"@.len() != "W. Europe Standard Time"@.len());
    assert("China Standard Time"@ != "W. Europe Standard Time"@);
    assert("China Standard Time"@.len() != "Romance Standard Time"@.len());
    assert("China Standard Time"@ != "Romance Standard Time"@);
    assert("China Standard Time"@.len() != "Central Europe Standard Time"@.len());
    assert("China Standard Time"@ != "Central Europe Standard Time"@);
    assert("China Standard Time"@.len() != "Central European Standard Time"@.len());
    assert("China Standard Time"@ != "Central European Standard Time"@);
    assert("China Standard Time"@.len() != "E. Europe Standard Time"@.len());
    assert("China Standard Time"@ != "E. Europe Standard Time"@);
    assert("China Standard Time"@.len() != "FLE Standard Time"@.len());
    assert("China Standard Time"@ != "FLE Standard Time"@);
    assert("China Standard Time"@.len() != "GTB Standard Time"@.len());
    assert("China Standard Time"@ != "GTB Standard Time"@);
    assert("China Standard Time"@.len() != "Russian Standard Time"@.len());
    assert("China Standard Time"@ != "Russian Standard Time"@);
    assert("China Standard Time"@.len() != "Turkey Standard Time"@.len());
    assert("China Standard Time"@ != "Turkey Standard Time"@);
    assert("China Standard Time"@.len() != "Israel Standard Time"@.len());
    assert("China Standard Time"@ != "Israel Standard Time"@);
    assert("China Standard Time"@.len() != "Arabian Standard Time"@.len());
    assert("China Standard Time"@ != "Arabian Standard Time"@);
    assert("China Standard Time"@[0] != "India Standard Time"@[0]);
    assert("China Standard Time"@ != "India Standard Time"@);
    assert("China Standard Time"@.len() != "SE Asia Standard Time"@.len());
    assert("China Standard Time"@ != "SE Asia Standard Time"@);
    assert("China Standard Time"@.len() != "Singapore Standard Time"@.len());
    assert("China Standard Time"@ != "Singapore Standard Time"@);
}

proof fn lemma_windows_entry_20()
    ensures
        windows_zone("Tokyo Standard Time"@) == Some("Asia/Tokyo"@),
{
    reveal_strlit("Tokyo Standard Time");
    reveal_strlit("Asia/Tokyo");
    reveal_strlit("UTC");
    reveal_strlit("Coordinated Universal Time");
    reveal_strlit("GMT");
    reveal_strlit("GMT Standard Time");
    reveal_strlit("Greenwich Standard Time");
    reveal_strlit("W. Europe Standard Time");
    reveal_strlit("Romance Standard Time");
    reveal_strlit("Central Europe Standard Time");
    reveal_strlit("Central European Standard Time");
    reveal_strlit("E. Europe Standard Time");
    reveal_strlit("FLE Standard Time");
    reveal_strlit("GTB Standard Time");
    reveal_strlit("Russian Standard Time");
    reveal_strlit("Turkey Standard Time");
    reveal_strlit("Israel Standard Time");
    reveal_strlit("Arabian Standard Time");
    reveal_strlit("India Standard Time");
    reveal_strlit("SE Asia Standard Time");
    reveal_strlit("Singapore Standard Time");
    reveal_strlit("China Standard Time");
    assert("Tokyo Standard Time"@.len() != "UTC"@.len());
    assert("Tokyo Standard Time"@ != "UTC"@);
    assert("Tokyo Standard Time"@.len() != "Coordinated Universal Time"@.len());
    assert("Tokyo Standard Time"@ != "Coordinated Universal Time"@);
    assert("Tokyo Standard Time"@.len() != "GMT"@.len());
    assert("Tokyo Standard Time"@ != "GMT"@);
    assert("Tokyo Standard Time"@.len() != "GMT Standard Time"@.len());
    assert("Tokyo Standard Time"@ != "GMT Standard Time"@);
    assert("Tokyo Standard Time"@.len() != "Greenwich Standard Time"@.len());
    assert("Tokyo Standard Time"@ != "Greenwich Standard Time"@);
    assert("Tokyo Standard Time"@.len() != "W. Europe Standard Time"@.len());
    assert("Tokyo Standard Time"@ != "W. Europe Standard Time"@);
    assert("Tokyo Standard Time"@.len() != "Romance Standard Time"@.len());
    assert("Tokyo Standard Time"@ != "Romance Standard Time"@);
    assert("Tokyo Standard Time"@.len() != "Central Europe Standard Time"@.len());
    assert("Tokyo Standard Time"@ != "Central Europe Standard Time"@);
    assert("Tokyo Standard Time"@.len() != "Central European Standard Time"@.len());
    assert("Tokyo Standard Time"@ != "Central European Standard Time"@);
    assert("Tokyo Standard Time"@.len() != "E. Europe Standard Time"@.len());
    assert("Tokyo Standard Time"@ != "E. Europe Standard Time"@);
    assert("Tokyo Standard Time"@.len() != "FLE Standard Time"@.len());
    assert("Tokyo Standard Time"@ != "FLE Standard Time"@);
    assert("Tokyo Standard Time"@.len() != "GTB Standard Time"@.len());
    assert("Tokyo Standard Time"@ != "GTB Standard Time"@);
    assert("Tokyo Standard Time"@.len() != "Russian Standard Time"@.len());
    assert("Tokyo Standard Time"@ != "Russian Standard Time"@);
    assert("Tokyo Standard Time"@.len() != "Turkey Standard Time"@.len());
    assert("Tokyo Standard Time"@ != "Turkey Standard Time"@);
    assert("Tokyo Standard Time"@.len() != "Israel Standard Time"@.len());
    assert("Tokyo Standard Time"@ != "Israel Standard Time"@);
    assert("Tokyo Standard Time"@.len() != "Arabian Standard Time"@.len());
    assert("Tokyo Standard Time"@ != "Arabian Standard Time"@);
    assert("Tokyo Standard Time"@[0] != "India Standard Time"@[0]);
    assert("Tokyo Standard Time"@ != "India Standard Time"@);
    assert("Tokyo Standard Time"@.len() != "SE Asia Standard Time"@.len());
    assert("Tokyo Standard Time"@ != "SE Asia Standard Time"@);
    assert("Tokyo Standard Time"@.len() != "Singapore Standard Time"@.len());
    assert("Tokyo Standard Time"@ != "Singapore Standard Time"@);
    assert("Tokyo Standard Time"@[0] != "China Standard Time"@[0]);
    assert("Tokyo Standard Time"@ != "China Standard Time"@);
}

proof fn lemma_windows_entry_21()
    ensures
        windows_zone("Korea Standard Time"@) == Some("Asia/Seoul"@),
{
    reveal_strlit("Korea Standard Time");
    reveal_strlit("Asia/Seoul");
    reveal_strlit("UTC");
    reveal_strlit("Coordinated Universal Time");
    reveal_strlit("GMT");
    reveal_strlit("GMT Standard Time");
    reveal_strlit("Greenwich Standard Time");
    reveal_strlit("W. Europe Standard Time");
    reveal_strlit("Romance Standard Time");
    reveal_strlit("Central Europe Standard Time");
    reveal_strlit("Central European Standard Time");
    reveal_strlit("E. Europe Standard Time");
    reveal_strlit("FLE Standard Time");
    reveal_strlit("GTB Standard Time");
    reveal_strlit("Russian Standard Time");
    reveal_strlit("Turkey Standard Time");
    reveal_strlit("Israel Standard Time");
    reveal_strlit("Arabian Standard Time");
    reveal_strlit("India Standard Time");
    reveal_strlit("SE Asia Standard Time");
    reveal_strlit("Singapore Standard Time");
    reveal_strlit("China Standard Time");
    reveal_strlit("Tokyo Standard Time");
    assert("Korea Standard Time"@.len() != "UTC"@.len());
    assert("Korea Standard Time"@ != "UTC"@);
    assert("Korea Standard Time"@.len() != "Coordinated Universal Time"@.len());
    assert("Korea Standard Time"@ != "Coordinated Universal Time"@);
    assert("Korea Standard Time"@.len() != "GMT"@.len());
    assert("Korea Standard Time"@ != "GMT"@);
    assert("Korea Standard Time"@.len() != "GMT Standard Time"@.len());
    assert("Korea Standard Time"@ != "GMT Standard Time"@);
    assert("Korea Standard Time"@.len() != "Greenwich Standard Time"@.len());
    assert("Korea Standard Time"@ != "Greenwich Standard Time"@);
    assert("Korea Standard Time"@.len() != "W. Europe Standard Time"@.len());
    assert("Korea Standard Time"@ != "W. Europe Standard Time"@);
    assert("Korea Standard Time"@.len() != "Romance Standard Time"@.len());
    assert("Korea Standard Time"@ != "Romance Standard Time"@);
    assert("Korea Standard Time"@.len() != "Central Europe Standard Time"@.len());
    assert("Korea Standard Time"@ != "Central Europe Standard Time"@);
    assert("Korea Standard Time"@.len() != "Central European Standard Time"@.len());
    assert("Korea Standard Time"@ != "Central European Standard Time"@);
    assert("Korea Standard Time"@.len() != "E. Europe Standard Time"@.len());
    assert("Korea Standard Time"@ != "E. Europe Standard Time"@);
    assert("Korea Standard Time"@.len() != "FLE Standard Time"@.len());
    assert("Korea Standard Time"@ != "FLE Standard Time"@);
    assert("Korea Standard Time"@.len() != "GTB Standard Time"@.len());
    assert("Korea Standard Time"@ != "GTB Standard Time"@);
    assert("Korea Standard Time"@.len() != "Russian Standard Time"@.len());
    assert("Korea Standard Time"@ != "Russian Standard Time"@);
    assert("Korea Standard Time"@.len() != "Turkey Standard Time"@.len());
    assert("Korea Standard Time"@ != "Turkey Standard Time"@);
    assert("Korea Standard Time"@.len() != "Israel Standard Time"@.len());
    assert("Korea Standard Time"@ != "Israel Standard Time"@);
    assert("Korea Standard Time"@.len() != "Arabian Standard Time"@.len());
    assert("Korea Standard Time"@ != "Arabian Standard Time"@);
    assert("Korea Standard Time"@[0] != "India Standard Time"@[0]);
    assert("Korea Standard Time"@ != "India Standard Time"@);
    assert("Korea Standard Time"@.len() != "SE Asia Standard Time"@.len());
    assert("Korea Standard Time"@ != "SE Asia Standard Time"@);
    assert("Korea Standard Time"@.len() != "Singapore Standard Time"@.len());
    assert("Korea Standard Time"@ != "Singapore Standard Time"@);
    assert("Korea Standard Time"@[0] != "China Standard Time"@[0]);
    assert("Korea Standard Time"@ != "China Standard Time"@);
    assert("Korea Standard Time"@[0] != "Tokyo Standard Time"@[0]);
    assert("Korea Standard Time"@ != "Tokyo Standard Time"@);
}

proof fn lemma_windows_entry_22()
    ensures
        windows_zone("AUS Eastern Standard Time"@) == Some("Australia/Sydney"@),
{
    reveal_strlit("AUS Eastern Standard Time");
    reveal_strlit("Australia/Sydney");
    reveal_strlit("UTC");
    reveal_strlit("Coordinated Universal Time");
    reveal_strlit("GMT");
    reveal_strlit("GMT Standard Time");
    reveal_strlit("Greenwich Standard Time");
    reveal_strlit("W. Europe Standard Time");
    reveal_strlit("Romance Standard Time");
    reveal_strlit("Central Europe Standard Time");
    reveal_strlit("Central European Standard Time");
    reveal_strlit("E. Europe Standard Time");
    reveal_strlit("FLE Standard Time");
    reveal_strlit("GTB Standard Time");
    reveal_strlit("Russian Standard Time");
    reveal_strlit("Turkey Standard Time");
    reveal_strlit("Israel Standard Time");
    reveal_strlit("Arabian Standard Time");
    reveal_strlit("India Standard Time");
    reveal_strlit("SE Asia Standard Time");
    reveal_strlit("Singapore Standard Time");
    reveal_strlit("China Standard Time");
    reveal_strlit("Tokyo Standard Time");
    reveal_strlit("Korea Standard Time");
    assert("AUS Eastern Standard Time"@.len() != "UTC"@.len());
    assert("AUS Eastern Standard Time"@ != "UTC"@);
    assert("AUS Eastern Standard Time"@.len() != "Coordinated Universal Time"@.len());
    assert("AUS Eastern Standard Time"@ != "Coordinated Universal Time"@);
    assert("AUS Eastern Standard Time"@.len() != "GMT"@.len());
    assert("AUS Eastern Standard Time"@ != "GMT"@);
    assert("AUS Eastern Standard Time"@.len() != "GMT Standard Time"@.len());
    assert("AUS Eastern Standard Time"@ != "GMT Standard Time"@);
    assert("AUS Eastern Standard Time"@.len() != "Greenwich Standard Time"@.len());
    assert("AUS Eastern Standard Time"@ != "Greenwich Standard Time"@);
    assert("AUS Eastern Standard Time"@.len() != "W. Europe Standard Time"@.len());
    assert("AUS Eastern Standard Time"@ != "W. Europe Standard Time"@);
    assert("AUS Eastern Standard Time"@.len() != "Romance Standard Time"@.len());
    assert("AUS Eastern Standard Time"@ != "Romance Standard Time"@);
    assert("AUS Eastern Standard Time"@.len() != "Central Europe Standard Time"@.len());
    assert("AUS Eastern Standard Time"@ != "Central Europe Standard Time"@);
    assert("AUS Eastern Standard Time"@.len() != "Central European Standard Time"@.len());
    assert("AUS Eastern Standard Time"@ != "Central European Standard Time"@);
    assert("AUS Eastern Standard Time"@.len() != "E. Europe Standard Time"@.len());
    assert("AUS Eastern Standard Time"@ != "E. Europe Standard Time"@);
    assert("AUS Eastern Standard Time"@.len() != "FLE Standard Time"@.len());
    assert("AUS Eastern Standard Time"@ != "FLE Standard Time"@);
    assert("AUS Eastern Standard Time"@.len() != "GTB Standard Time"@.len());
    assert("AUS Eastern Standard Time"@ != "GTB Standard Time"@);
    assert("AUS Eastern Standard Time"@.len() != "Russian Standard Time"@.len());
    assert("AUS Eastern Standard Time"@ != "Russian Standard Time"@);
    assert("AUS Eastern Standard Time"@.len() != "Turkey Standard Time"@.len());
    assert("AUS Eastern Standard Time"@ != "Turkey Standard Time"@);
    assert("AUS Eastern Standard Time"@.len() != "Israel Standard Time"@.len());
    assert("AUS Eastern Standard Time"@ != "Israel Standard Time"@);
    assert("AUS Eastern Standard Time"@.len() != "Arabian Standard Time"@.len());
    assert("AUS Eastern Standard Time"@ != "Arabian Standard Time"@);
    assert("AUS Eastern Standard Time"@.len() != "India Standard Time"@.len());
    assert("AUS Eastern Standard Time"@ != "India Standard Time"@);
    assert("AUS Eastern Standard Time"@.len() != "SE Asia Standard Time"@.len());
    assert("AUS Eastern Standard Time"@ != "SE Asia Standard Time"@);
    assert("AUS Eastern Standard Time"@.len() != "Singapore Standard Time"@.len());
    assert("AUS Eastern Standard Time"@ != "Singapore Standard Time"@);
    assert("AUS Eastern Standard Time"@.len() != "China Standard Time"@.len());
    assert("AUS Eastern Standard Time"@ != "China Standard Time"@);
    assert("AUS Eastern Standard Time"@.len() != "Tokyo Standard Time"@.len());
    assert("AUS Eastern Standard Time"@ != "Tokyo Standard Time"@);
    assert("AUS Eastern Standard Time"@.len() != "Korea Standard Time"@.len());
    assert("AUS Eastern Standard Time"@ != "Korea Standard Time"@);
}

proof fn lemma_windows_entry_23()
    ensures
        windows_zone("E. Australia Standard Time"@) == Some("Australia/Brisbane"@),
{
    reveal_strlit("E. Australia Standard Time");
    reveal_strlit("Australia/Brisbane");
    reveal_strlit("UTC");
    reveal_strlit("Coordinated Universal Time");
    reveal_strlit("GMT");
    reveal_strlit("GMT Standard Time");
    reveal_strlit("Greenwich Standard Time");
    reveal_strlit("W. Europe Standard Time");
    reveal_strlit("Romance Standard Time");
    reveal_strlit("Central Europe Standard Time");
    reveal_strlit("Central European Standard Time");
    reveal_strlit("E. Europe Standard Time");
    reveal_strlit("FLE Standard Time");
    reveal_strlit("GTB Standard Time");
    reveal_strlit("Russian Standard Time");
    reveal_strlit("Turkey Standard Time");
    reveal_strlit("Israel Standard Time");
    reveal_strlit("Arabian Standard Time");
    reveal_strlit("India Standard Time");
    reveal_strlit("SE Asia Standard Time");
    reveal_strlit("Singapore Standard Time");
    reveal_strlit("China Standard Time");
    reveal_strlit("Tokyo Standard Time");
    reveal_strlit("Korea Standard Time");
    reveal_strlit("AUS Eastern Standard Time");
    assert("E. Australia Standard Time"@.len() != "UTC"@.len());
    assert("E. Australia Standard Time"@ != "UTC"@);
    assert("E. Australia Standard Time"@[0] != "Coordinated Universal Time"@[0]);
    assert("E. Australia Standard Time"@ != "Coordinated Universal Time"@);
    assert("E. Australia Standard Time"@.len() != "GMT"@.len());
    assert("E. Australia Standard Time"@ != "GMT"@);
    assert("E. Australia Standard Time"@.len() != "GMT Standard Time"@.len());
    assert("E. Australia Standard Time"@ != "GMT Standard Time"@);
    assert("E. Australia Standard Time"@.len() != "Greenwich Standard Time"@.len());
    assert("E. Australia Standard Time"@ != "Greenwich Standard Time"@);
    assert("E. Australia Standard Time"@.len() != "W. Europe Standard Time"@.len());
    assert("E. Australia Standard Time"@ != "W. Europe Standard Time"@);
    assert("E. Australia Standard Time"@.len() != "Romance Standard Time"@.len());
    assert("E. Australia Standard Time"@ != "Romance Standard Time"@);
    assert("E. Australia Standard Time"@.len() != "Central Europe Standard Time"@.len());
    assert("E. Australia Standard Time"@ != "Central Europe Standard Time"@);
    assert("E. Australia Standard Time"@.len() != "Central European Standard Time"@.len());
    assert("E. Australia Standard Time"@ != "Central European Standard Time"@);
    assert("E. Australia Standard Time"@.len() != "E. Europe Standard Time"@.len());
    assert("E. Australia Standard Time"@ != "E. Europe Standard Time"@);
    assert("E. Australia Standard Time"@.len() != "FLE Standard Time"@.len());
    assert("E. Australia Standard Time"@ != "FLE Standard Time"@);
    assert("E. Australia Standard Time"@.len() != "GTB Standard Time"@.len());
    assert("E. Australia Standard Time"@ != "GTB Standard Time"@);
    assert("E. Australia Standard Time"@.len() != "Russian Standard Time"@.len());
    assert("E. Australia Standard Time"@ != "Russian Standard Time"@);
    assert("E. Australia Standard Time"@.len() != "Turkey Standard Time"@.len());
    assert("E. Australia Standard Time"@ != "Turkey Standard Time"@);
    assert("E. Australia Standard Time"@.len() != "Israel Standard Time"@.len());
    assert("E. Australia Standard Time"@ != "Israel Standard Time"@);
    assert("E. Australia Standard Time"@.len() != "Arabian Standard Time"@.len());
    assert("E. Australia Standard Time"@ != "Arabian Standard Time"@);
    assert("E. Australia Standard Time"@.len() != "India Standard Time"@.len());
    assert("E. Australia Standard Time"@ != "India Standard Time"@);
    assert("E. Australia Standard Time"@.len() != "SE Asia Standard Time"@.len());
    assert("E. Australia Standard Time"@ != "SE Asia Standard Time"@);
    assert("E. Australia Standard Time"@.len() != "Singapore Standard Time"@.len());
    assert("E. Australia Standard Time"@ != "Singapore Standard Time"@);
    assert("E. Australia Standard Time"@.len() != "China Standard Time"@.len());
    assert("E. Australia Standard Time"@ != "China Standard Time"@);
    assert("E. Australia Standard Time"@.len() != "Tokyo Standard Time"@.len());
    assert("E. Australia Standard Time"@ != "Tokyo Standard Time"@);
    assert("E. Australia Standard Time"@.len() != "Korea Standard Time"@.len());
    assert("E. Australia Standard Time"@ != "Korea Standard Time"@);
    assert("E. Australia Standard Time"@.len() != "AUS Eastern Standard Time"@.len());
    assert("E. Australia Standard Time"@ != "AUS Eastern Standard Time"@);
}

proof fn lemma_windows_entry_24()
    ensures
        windows_zone("AUS Central Standard Time"@) == Some("Australia/Darwin"@),
{
    reveal_strlit("AUS Central Standard Time");
    reveal_strlit("Australia/Darwin");
    reveal_strlit("UTC");
    reveal_strlit("Coordinated Universal Time");
    reveal_strlit("GMT");
    reveal_strlit("GMT Standard Time");
    reveal_strlit("Greenwich Standard Time");
    reveal_strlit("W. Europe Standard Time");
    reveal_strlit("Romance Standard Time");
    reveal_strlit("Central Europe Standard Time");
    reveal_strlit("Central European Standard Time");
    reveal_strlit("E. Europe Standard Time");
    reveal_strlit("FLE Standard Time");
    reveal_strlit("GTB Standard Time");
    reveal_strlit("Russian Standard Time");
    reveal_strlit("Turkey Standard Time");
    reveal_strlit("Israel Standard Time");
    reveal_strlit("Arabian Standard Time");
    reveal_strlit("India Standard Time");
    reveal_strlit("SE Asia Standard Time");
    reveal_strlit("Singapore Standard Time");
    reveal_strlit("China Standard Time");
    reveal_strlit("Tokyo Standard Time");
    reveal_strlit("Korea Standard Time");
    reveal_strlit("AUS Eastern Standard Time");
    reveal_strlit("E. Australia Standard Time");
    assert("AUS Central Standard Time"@.len() != "UTC"@.len());
    assert("AUS Central Standard Time"@ != "UTC"@);
    assert("AUS Central Standard Time"@.len() != "Coordinated Universal Time"@.len());
    assert("AUS Central Standard Time"@ != "Coordinated Universal Time"@);
    assert("AUS Central Standard Time"@.len() != "GMT"@.len());
    assert("AUS Central Standard Time"@ != "GMT"@);
    assert("AUS Central Standard Time"@.len() != "GMT Standard Time"@.len());
    assert("AUS Central Standard Time"@ != "GMT Standard Time"@);
    assert("AUS Central Standard Time"@.len() != "Greenwich Standard Time"@.len());
    assert("AUS Central Standard Time"@ != "Greenwich Standard Time"@);
    assert("AUS Central Standard Time"@.len() != "W. Europe Standard Time"@.len());
    assert("AUS Central Standard Time"@ != "W. Europe Standard Time"@);
    assert("AUS Central Standard Time"@.len() != "Romance Standard Time"@.len());
    assert("AUS Central Standard Time"@ != "Romance Standard Time"@);
    assert("AUS Central Standard Time"@.len() != "Central Europe Standard Time"@.len());
    assert("AUS Central Standard Time"@ != "Central Europe Standard Time"@);
    assert("AUS Central Standard Time"@.len() != "Central European Standard Time"@.len());
    assert("AUS Central Standard Time"@ != "Central European Standard Time"@);
    assert("AUS Central Standard Time"@.len() != "E. Europe Standard Time"@.len());
    assert("AUS Central Standard Time"@ != "E. Europe Standard Time"@);
    assert("AUS Central Standard Time"@.len() != "FLE Standard Time"@.len());
    assert("AUS Central Standard Time"@ != "FLE Standard Time"@);
    assert("AUS Central Standard Time"@.len() != "GTB Standard Time"@.len());
    assert("AUS Central Standard Time"@ != "GTB Standard Time"@);
    assert("AUS Central Standard Time"@.len() != "Russian Standard Time"@.len());
    assert("AUS Central Standard Time"@ != "Russian Standard Time"@);
    assert("AUS Central Standard Time"@.len() != "Turkey Standard Time"@.len());
    assert("AUS Central Standard Time"@ != "Turkey Standard Time"@);
    assert("AUS Central Standard Time"@.len() != "Israel Standard Time"@.len());
    assert("AUS Central Standard Time"@ != "Israel Standard Time"@);
    assert("AUS Central Standard Time"@.len() != "Arabian Standard Time"@.len());
    assert("AUS Central Standard Time"@ != "Arabian Standard Time"@);
    assert("AUS Central Standard Time"@.len() != "India Standard Time"@.len());
    assert("AUS Central Standard Time"@ != "India Standard Time"@);
    assert("AUS Central Standard Time"@.len() != "SE Asia Standard Time"@.len());
    assert("AUS Central Standard Time"@ != "SE Asia Standard Time"@);
    assert("AUS Central Standard Time"@.len() != "Singapore Standard Time"@.len());
    assert("AUS Central Standard Time"@ != "Singapore Standard Time"@);
    assert("AUS Central Standard Time"@.len() != "China Standard Time"@.len());
    assert("AUS Central Standard Time"@ != "China Standard Time"@);
    assert("AUS Central Standard Time"@.len() != "Tokyo Standard Time"@.len());
    assert("AUS Central Standard Time"@ != "Tokyo Standard Time"@);
    assert("AUS Central Standard Time"@.len() != "Korea Standard Time"@.len());
    assert("AUS Central Standard Time"@ != "Korea Standard Time"@);
    assert("AUS Central Standard Time"@[4] != "AUS Eastern Standard Time"@[4]);
    assert("AUS Central Standard Time"@ != "AUS Eastern Standard Time"@);
    assert("AUS Central Standard Time"@.len() != "E. Australia Standard Time"@.len());
    assert("AUS Central Standard Time"@ != "E. Australia Standard Time"@);
}

proof fn lemma_windows_entry_25()
    ensures
        windows_zone("W. Australia Standard Time"@) == Some("Australia/Perth"@),
{
    reveal_strlit("W. Australia Standard Time");
    reveal_strlit("Australia/Perth");
    reveal_strlit("UTC");
    reveal_strlit("Coordinated Universal Time");
    reveal_strlit("GMT");
    reveal_strlit("GMT Standard Time");
    reveal_strlit("Greenwich Standard Time");
    reveal_strlit("W. Europe Standard Time");
    reveal_strlit("Romance Standard Time");
    reveal_strlit("Central Europe Standard Time");
    reveal_strlit("Central European Standard Time");
    reveal_strlit("E. Europe Standard Time");
    reveal_strlit("FLE Standard Time");
    reveal_strlit("GTB Standard Time");
    reveal_strlit("Russian Standard Time");
    reveal_strlit("Turkey Standard Time");
    reveal_strlit("Israel Standard Time");
    reveal_strlit("Arabian Standard Time");
    reveal_strlit("India Standard Time");
    reveal_strlit("SE Asia Standard Time");
    reveal_strlit("Singapore Standard Time");
    reveal_strlit("China Standard Time");
    reveal_strlit("Tokyo Standard Time");
    reveal_strlit("Korea Standard Time");
    reveal_strlit("AUS Eastern Standard Time");
    reveal_strlit("E. Australia Standard Time");
    reveal_strlit("AUS Central Standard Time");
    assert("W. Australia Standard Time"@.len() != "UTC"@.len());
    assert("W. Australia Standard Time"@ != "UTC"@);
    assert("W. Australia Standard Time"@[0] != "Coordinated Universal Time"@[0]);
    assert("W. Australia Standard Time"@ != "Coordinated Universal Time"@);
    assert("W. Australia Standard Time"@.len() != "GMT"@.len());
    assert("W. Australia Standard Time"@ != "GMT"@);
    assert("W. Australia Standard Time"@.len() != "GMT Standard Time"@.len());
    assert("W. Australia Standard Time"@ != "GMT Standard Time"@);
    assert("W. Australia Standard Time"@.len() != "Greenwich Standard Time"@.len());
    assert("W. Australia Standard Time"@ != "Greenwich Standard Time"@);
    assert("W. Australia Standard Time"@.len() != "W. Europe Standard Time"@.len());
    assert("W. Australia Standard Time"@ != "W. Europe Standard Time"@);
    assert("W. Australia Standard Time"@.len() != "Romance Standard Time"@.len());
    assert("W. Australia Standard Time"@ != "Romance Standard Time"@);
    assert("W. Australia Standard Time"@.len() != "Central Europe Standard Time"@.len());
    assert("W. Australia Standard Time"@ != "Central Europe Standard Time"@);
    assert("W. Australia Standard Time"@.len() != "Central European Standard Time"@.len());
    assert("W. Australia Standard Time"@ != "Central European Standard Time"@);
    assert("W. Australia Standard Time"@.len() != "E. Europe Standard Time"@.len());
    assert("W. Australia Standard Time"@ != "E. Europe Standard Time"@);
    assert("W. Australia Standard Time"@.len() != "FLE Standard Time"@.len());
    assert("W. Australia Standard Time"@ != "FLE Standard Time"@);
    assert("W. Australia Standard Time"@.len() != "GTB Standard Time"@.len());
    assert("W. Australia Standard Time"@ != "GTB Standard Time"@);
    assert("W. Australia Standard Time"@.len() != "Russian Standard Time"@.len());
    assert("W. Australia Standard Time"@ != "Russian Standard Time"@);
    assert("W. Australia Standard Time"@.len() != "Turkey Standard Time"@.len());
    assert("W. Australia Standard Time"@ != "Turkey Standard Time"@);
    assert("W. Australia Standard Time"@.len() != "Israel Standard Time"@.len());
    assert("W. Australia Standard Time"@ != "Israel Standard Time"@);
    assert("W. Australia Standard Time"@.len() != "Arabian Standard Time"@.len());
    assert("W. Australia Standard Time"@ != "Arabian Standard Time"@);
    assert("W. Australia Standard Time"@.len() != "India Standard Time"@.len());
    assert("W. Australia Standard Time"@ != "India Standard Time"@);
    assert("W. Australia Standard Time"@.len() != "SE Asia Standard Time"@.len());
    assert("W. Australia Standard Time"@ != "SE Asia Standard Time"@);
    assert("W. Australia Standard Time"@.len() != "Singapore Standard Time"@.len());
    assert("W. Australia Standard Time"@ != "Singapore Standard Time"@);
    assert("W. Australia Standard Time"@.len() != "China Standard Time"@.len());
    assert("W. Australia Standard Time"@ != "China Standard Time"@);
    assert("W. Australia Standard Time"@.len() != "Tokyo Standard Time"@.len());
    assert("W. Australia Standard Time"@ != "Tokyo Standard Time"@);
    assert("W. Australia Standard Time"@.len() != "Korea Standard Time"@.len());
    assert("W. Australia Standard Time"@ != "Korea Standard Time"@);
    assert("W. Australia Standard Time"@.len() != "AUS Eastern Standard Time"@.len());
    assert("W. Australia Standard Time"@ != "AUS Eastern Standard Time"@);
    assert("W. Australia Standard Time"@[0] != "E. Australia Standard Time"@[0]);
    assert("W. Australia Standard Time"@ != "E. Australia Standard Time"@);
    assert("W. Australia Standard Time"@.len() != "AUS Central Standard Time"@.len());
    assert("W. Australia Standard Time"@ != "AUS Central Standard Time"@);
}

proof fn lemma_windows_entry_26()
    ensures
        windows_zone("New Zealand Standard Time"@) == Some("Pacific/Auckland"@),
{
    reveal_strlit("New Zealand Standard Time");
    reveal_strlit("Pacific/Auckland");
    reveal_strlit("UTC");
    reveal_strlit("Coordinated Universal Time");
    reveal_strlit("GMT");
    reveal_strlit("GMT Standard Time");
    reveal_strlit("Greenwich Standard Time");
    reveal_strlit("W. Europe Standard Time");
    reveal_strlit("Romance Standard Time");
    reveal_strlit("Central Europe Standard Time");
    reveal_strlit("Central European Standard Time");
    reveal_strlit("E. Europe Standard Time");
    reveal_strlit("FLE Standard Time");
    reveal_strlit("GTB Standard Time");
    reveal_strlit("Russian Standard Time");
    reveal_strlit("Turkey Standard Time");
    reveal_strlit("Israel Standard Time");
    reveal_strlit("Arabian Standard Time");
    reveal_strlit("India Standard Time");
    reveal_strlit("SE Asia Standard Time");
    reveal_strlit("Singapore Standard Time");
    reveal_strlit("China Standard Time");
    reveal_strlit("Tokyo Standard Time");
    reveal_strlit("Korea Standard Time");
    reveal_strlit("AUS Eastern Standard Time");
    reveal_strlit("E. Australia Standard Time");
    reveal_strlit("AUS Central Standard Time");
    reveal_strlit("W. Australia Standard Time");
    assert("New Zealand Standard Time"@.len() != "UTC"@.len());
    assert("New Zealand Standard Time"@ != "UTC"@);
    assert("New Zealand Standard Time"@.len() != "Coordinated Universal Time"@.len());
    assert("New Zealand Standard Time"@ != "Coordinated Universal Time"@);
    assert("New Zealand Standard Time"@.len() != "GMT"@.len());
    assert("New Zealand Standard Time"@ != "GMT"@);
    assert("New Zealand Standard Time"@.len() != "GMT Standard Time"@.len());
    assert("New Zealand Standard Time"@ != "GMT Standard Time"@);
    assert("New Zealand Standard Time"@.len() != "Greenwich Standard Time"@.len());
    assert("New Zealand Standard Time"@ != "Greenwich Standard Time"@);
    assert("New Zealand Standard Time"@.len() != "W. Europe Standard Time"@.len());
    assert("New Zealand Standard Time"@ != "W. Europe Standard Time"@);
    assert("New Zealand Standard Time"@.len() != "Romance Standard Time"@.len());
    assert("New Zealand Standard Time"@ != "Romance Standard Time"@);
    assert("New Zealand Standard Time"@.len() != "Central Europe Standard Time"@.len());
    assert("New Zealand Standard Time"@ != "Central Europe Standard Time"@);
    assert("New Zealand Standard Time"@.len() != "Central European Standard Time"@.len());
    assert("New Zealand Standard Time"@ != "Central European Standard Time"@);
    assert("New Zealand Standard Time"@.len() != "E. Europe Standard Time"@.len());
    assert("New Zealand Standard Time"@ != "E. Europe Standard Time"@);
    assert("New Zealand Standard Time"@.len() != "FLE Standard Time"@.len());
    assert("New Zealand Standard Time"@ != "FLE Standard Time"@);
    assert("New Zealand Standard Time"@.len() != "GTB Standard Time"@.len());
    assert("New Zealand Standard Time"@ != "GTB Standard Time"@);
    assert("New Zealand Standard Time"@.len() != "Russian Standard Time"@.len());
    assert("New Zealand Standard Time"@ != "Russian Standard Time"@);
    assert("New Zealand Standard Time"@.len() != "Turkey Standard Time"@.len());
    assert("New Zealand Standard Time"@ != "Turkey Standard Time"@);
    assert("New Zealand Standard Time"@.len() != "Israel Standard Time"@.len());
    assert("New Zealand Standard Time"@ != "Israel Standard Time"@);
    assert("New Zealand Standard Time"@.len() != "Arabian Standard Time"@.len());
    assert("New Zealand Standard Time"@ != "Arabian Standard Time"@);
    assert("New Zealand Standard Time"@.len() != "India Standard Time"@.len());
    assert("New Zealand Standard Time"@ != "India Standard Time"@);
    assert("New Zealand Standard Time"@.len() != "SE Asia Standard Time"@.len());
    assert("New Zealand Standard Time"@ != "SE Asia Standard Time"@);
    assert("New Zealand Standard Time"@.len() != "Singapore Standard Time"@.len());
    assert("New Zealand Standard Time"@ != "Singapore Standard Time"@);
    assert("New Zealand Standard Time"@.len() != "China Standard Time"@.len());
    assert("New Zealand Standard Time"@ != "China Standard Time"@);
    assert("New Zealand Standard Time"@.len() != "Tokyo Standard Time"@.len());
    assert("New Zealand Standard Time"@ != "Tokyo Standard Time"@);
    assert("New Zealand Standard Time"@.len() != "Korea Standard Time"@.len());
    assert("New Zealand Standard Time"@ != "Korea Standard Time"@);
    assert("New Zealand Standard Time"@[0] != "AUS Eastern Standard Time"@[0]);
    assert("New Zealand Standard Time"@ != "AUS Eastern Standard Time"@);
    assert("New Zealand Standard Time"@.len() != "E. Australia Standard Time"@.len());
    assert("New Zealand Standard Time"@ != "E. Australia Standard Time"@);
    assert("New Zealand Standard Time"@[0] != "AUS Central Standard Time"@[0]);
    assert("New Zealand Standard Time"@ != "AUS Central Standard Time"@);
    assert("New Zealand Standard Time"@.len() != "W. Australia Standard Time"@.len());
    assert("New Zealand Standard Time"@ != "W. Australia Standard Time"@);
}

proof fn lemma_windows_entry_27()
    ensures
        windows_zone("South Africa Standard Time"@) == Some("Africa/Johannesburg"@),
{
    reveal_strlit("South Africa Standard Time");
    reveal_strlit("Africa/Johannesburg");
    reveal_strlit("UTC");
    reveal_strlit("Coordinated Universal Time");
    reveal_strlit("GMT");
    reveal_strlit("GMT Standard Time");
    reveal_strlit("Greenwich Standard Time");
    reveal_strlit("W. Europe Standard Time");
    reveal_strlit("Romance Standard Time");
    reveal_strlit("Central Europe Standard Time");
    reveal_strlit("Central European Standard Time");
    reveal_strlit("E. Europe Standard Time");
    reveal_strlit("FLE Standard Time");
    reveal_strlit("GTB Standard Time");
    reveal_strlit("Russian Standard Time");
    reveal_strlit("Turkey Standard Time");
    reveal_strlit("Israel Standard Time");
    reveal_strlit("Arabian Standard Time");
    reveal_strlit("India Standard Time");
    reveal_strlit("SE Asia Standard Time");
    reveal_strlit("Singapore Standard Time");
    reveal_strlit("China Standard Time");
    reveal_strlit("Tokyo Standard Time");
    reveal_strlit("Korea Standard Time");
    reveal_strlit("AUS Eastern Standard Time");
    reveal_strlit("E. Australia Standard Time");
    reveal_strlit("AUS Central Standard Time");
    reveal_strlit("W. Australia Standard Time");
    reveal_strlit("New Zealand Standard Time");
    assert("South Africa Standard Time"@.len() != "UTC"@.len());
    assert("South Africa Standard Time"@ != "UTC"@);
    assert("South Africa Standard Time"@[0] != "Coordinated Universal Time"@[0]);
    assert("South Africa Standard Time"@ != "Coordinated Universal Time"@);
    assert("South Africa Standard Time"@.len() != "GMT"@.len());
    assert("South Africa Standard Time"@ != "GMT"@);
    assert("South Africa Standard Time"@.len() != "GMT Standard Time"@.len());
    assert("South Africa Standard Time"@ != "GMT Standard Time"@);
    assert("South Africa Standard Time"@.len() != "Greenwich Standard Time"@.len());
    assert("South Africa Standard Time"@ != "Greenwich Standard Time"@);
    assert("South Africa Standard Time"@.len() != "W. Europe Standard Time"@.len());
    assert("South Africa Standard Time"@ != "W. Europe Standard Time"@);
    assert("South Africa Standard Time"@.len() != "Romance Standard Time"@.len());
    assert("South Africa Standard Time"@ != "Romance Standard Time"@);
    assert("South Africa Standard Time"@.len() != "Central Europe Standard Time"@.len());
    assert("South Africa Standard Time"@ != "Central Europe Standard Time"@);
    assert("South Africa Standard Time"@.len() != "Central European Standard Time"@.len());
    assert("South Africa Standard Time"@ != "Central European Standard Time"@);
    assert("South Africa Standard Time"@.len() != "E. Europe Standard Time"@.len());
    assert("South Africa Standard Time"@ != "E. Europe Standard Time"@);
    assert("South Africa Standard Time"@.len() != "FLE Standard Time"@.len());
    assert("South Africa Standard Time"@ != "FLE Standard Time"@);
    assert("South Africa Standard Time"@.len() != "GTB Standard Time"@.len());
    assert("South Africa Standard Time"@ != "GTB Standard Time"@);
    assert("South Africa Standard Time"@.len() != "Russian Standard Time"@.len());
    assert("South Africa Standard Time"@ != "Russian Standard Time"@);
    assert("South Africa Standard Time"@.len() != "Turkey Standard Time"@.len());
    assert("South Africa Standard Time"@ != "Turkey Standard Time"@);
    assert("South Africa Standard Time"@.len() != "Israel Standard Time"@.len());
    assert("South Africa Standard Time"@ != "Israel Standard Time"@);
    assert("South Africa Standard Time"@.len() != "Arabian Standard Time"@.len());
    assert("South Africa Standard Time"@ != "Arabian Standard Time"@);
    assert("South Africa Standard Time"@.len() != "India Standard Time"@.len());
    assert("South Africa Standard Time"@ != "India Standard Time"@);
    assert("South Africa Standard Time"@.len() != "SE Asia Standard Time"@.len());
    assert("South Africa Standard Time"@ != "SE Asia Standard Time"@);
    assert("South Africa Standard Time"@.len() != "Singapore Standard Time"@.len());
    assert("South Africa Standard Time"@ != "Singapore Standard Time"@);
    assert("South Africa Standard Time"@.len() != "China Standard Time"@.len());
    assert("South Africa Standard Time"@ != "China Standard Time"@);
    assert("South Africa Standard Time"@.len() != "Tokyo Standard Time"@.len());
    assert("South Africa Standard Time"@ != "Tokyo Standard Time"@);
    assert("South Africa Standard Time"@.len() != "Korea Standard Time"@.len());
    assert("South Africa Standard Time"@ != "Korea Standard Time"@);
    assert("South Africa Standard Time"@.len() != "AUS Eastern Standard Time"@.len());
    assert("South Africa Standard Time"@ != "AUS Eastern Standard Time"@);
    assert("South Africa Standard Time"@[0] != "E. Australia Standard Time"@[0]);
    assert("South Africa Standard Time"@ != "E. Australia Standard Time"@);
    assert("South Africa Standard Time"@.len() != "AUS Central Standard Time"@.len());
    assert("South Africa Standard Time"@ != "AUS Central Standard Time"@);
    assert("South Africa Standard Time"@[0] != "W. Australia Standard Time"@[0]);
    assert("South Africa Standard Time"@ != "W. Australia Standard Time"@);
    assert("South Africa Standard Time"@.len() != "New Zealand Standard Time"@.len());
    assert("South Africa Standard Time"@ != "New Zealand Standard Time"@);
}

proof fn lemma_windows_entry_28()
    ensures
        windows_zone("Egypt Standard Time"@) == Some("Africa/Cairo"@),
{
    reveal_strlit("Egypt Standard Time");
    reveal_strlit("Africa/Cairo");
    reveal_strlit("UTC");
    reveal_strlit("Coordinated Universal Time");
    reveal_strlit("GMT");
    reveal_strlit("GMT Standard Time");
    reveal_strlit("Greenwich Standard Time");
    reveal_strlit("W. Europe Standard Time");
    reveal_strlit("Romance Standard Time");
    reveal_strlit("Central Europe Standard Time");
    reveal_strlit("Central European Standard Time");
    reveal_strlit("E. Europe Standard Time");
    reveal_strlit("FLE Standard Time");
    reveal_strlit("GTB Standard Time");
    reveal_strlit("Russian Standard Time");
    reveal_strlit("Turkey Standard Time");
    reveal_strlit("Israel Standard Time");
    reveal_strlit("Arabian Standard Time");
    reveal_strlit("India Standard Time");
    reveal_strlit("SE Asia Standard Time");
    reveal_strlit("Singapore Standard Time");
    reveal_strlit("China Standard Time");
    reveal_strlit("Tokyo Standard Time");
    reveal_strlit("Korea Standard Time");
    reveal_strlit("AUS Eastern Standard Time");
    reveal_strlit("E. Australia Standard Time");
    reveal_strlit("AUS Central Standard Time");
    reveal_strlit("W. Australia Standard Time");
    reveal_strlit("New Zealand Standard Time");
    reveal_strlit("South Africa Standard Time");
    assert("Egypt Standard Time"@.len() != "UTC"@.len());
    assert("Egypt Standard Time"@ != "UTC"@);
    assert("Egypt Standard Time"@.len() != "Coordinated Universal Time"@.len());
    assert("Egypt Standard Time"@ != "Coordinated Universal Time"@);
    assert("Egypt Standard Time"@.len() != "GMT"@.len());
    assert("Egypt Standard Time"@ != "GMT"@);
    assert("Egypt Standard Time"@.len() != "GMT Standard Time"@.len());
    assert("Egypt Standard Time"@ != "GMT Standard Time"@);
    assert("Egypt Standard Time"@.len() != "Greenwich Standard Time"@.len());
    assert("Egypt Standard Time"@ != "Greenwich Standard Time"@);
    assert("Egypt Standard Time"@.len() != "W. Europe Standard Time"@.len());
    assert("Egypt Standard Time"@ != "W. Europe Standard Time"@);
    assert("Egypt Standard Time"@.len() != "Romance Standard Time"@.len());
    assert("Egypt Standard Time"@ != "Romance Standard Time"@);
    assert("Egypt Standard Time"@.len() != "Central Europe Standard Time"@.len());
    assert("Egypt Standard Time"@ != "Central Europe Standard Time"@);
    assert("Egypt Standard Time"@.len() != "Central European Standard Time"@.len());
    assert("Egypt Standard Time"@ != "Central European Standard Time"@);
    assert("Egypt Standard Time"@.len() != "E. Europe Standard Time"@.len());
    assert("Egypt Standard Time"@ != "E. Europe Standard Time"@);
    assert("Egypt Standard Time"@.len() != "FLE Standard Time"@.len());
    assert("Egypt Standard Time"@ != "FLE Standard Time"@);
    assert("Egypt Standard Time"@.len() != "GTB Standard Time"@.len());
    assert("Egypt Standard Time"@ != "GTB Standard Time"@);
    assert("Egypt Standard Time"@.len() != "Russian Standard Time"@.len());
    assert("Egypt Standard Time"@ != "Russian Standard Time"@);
    assert("Egypt Standard Time"@.len() != "Turkey Standard Time"@.len());
    assert("Egypt Standard Time"@ != "Turkey Standard Time"@);
    assert("Egypt Standard Time"@.len() != "Israel Standard Time"@.len());
    assert("Egypt Standard Time"@ != "Israel Standard Time"@);
    assert("Egypt Standard Time"@.len() != "Arabian Standard Time"@.len());
    assert("Egypt Standard Time"@ != "Arabian Standard Time"@);
    assert("Egypt Standard Time"@[0] != "India Standard Time"@[0]);
    assert("Egypt Standard Time"@ != "India Standard Time"@);
    assert("Egypt Standard Time"@.len() != "SE Asia Standard Time"@.len());
    assert("Egypt Standard Time"@ != "SE Asia Standard Time"@);
    assert("Egypt Standard Time"@.len() != "Singapore Standard Time"@.len());
    assert("Egypt Standard Time"@ != "Singapore Standard Time"@);
    assert("Egypt Standard Time"@[0] != "China Standard Time"@[0]);
    assert("Egypt Standard Time"@ != "China Standard Time"@);
    assert("Egypt Standard Time"@[0] != "Tokyo Standard Time"@[0]);
    assert("Egypt Standard Time"@ != "Tokyo Standard Time"@);
    assert("Egypt Standard Time"@[0] != "Korea Standard Time"@[0]);
    assert("Egypt Standard Time"@ != "Korea Standard Time"@);
    assert("Egypt Standard Time"@.len() != "AUS Eastern Standard Time"@.len());
    assert("Egypt Standard Time"@ != "AUS Eastern Standard Time"@);
    assert("Egypt Standard Time"@.len() != "E. Australia Standard Time"@.len());
    assert("Egypt Standard Time"@ != "E. Australia Standard Time"@);
    assert("Egypt Standard Time"@.len() != "AUS Central Standard Time"@.len());
    assert("Egypt Standard Time"@ != "AUS Central Standard Time"@);
    assert("Egypt Standard Time"@.len() != "W. Australia Standard Time"@.len());
    assert("Egypt Standard Time"@ != "W. Australia Standard Time"@);
    assert("Egypt Standard Time"@.len() != "New Zealand Standard Time"@.len());
    assert("Egypt Standard Time"@ != "New Zealand Standard Time"@);
    assert("Egypt Standard Time"@.len() != "South Africa Standard Time"@.len());
    assert("Egypt Standard Time"@ != "South Africa Standard Time"@);
}

proof fn lemma_windows_entry_29()
    ensures
        windows_zone("Eastern Standard Time"@) == Some("America/New_York"@),
{
    reveal_strlit("Eastern Standard Time");
    reveal_strlit("America/New_York");
    reveal_strlit("UTC");
    reveal_strlit("Coordinated Universal Time");
    reveal_strlit("GMT");
    reveal_strlit("GMT Standard Time");
    reveal_strlit("Greenwich Standard Time");
    reveal_strlit("W. Europe Standard Time");
    reveal_strlit("Romance Standard Time");
    reveal_strlit("Central Europe Standard Time");
    reveal_strlit("Central European Standard Time");
    reveal_strlit("E. Europe Standard Time");
    reveal_strlit("FLE Standard Time");
    reveal_strlit("GTB Standard Time");
    reveal_strlit("Russian Standard Time");
    reveal_strlit("Turkey Standard Time");
    reveal_strlit("Israel Standard Time");
    reveal_strlit("Arabian Standard Time");
    reveal_strlit("India Standard Time");
    reveal_strlit("SE Asia Standard Time");
    reveal_strlit("Singapore Standard Time");
    reveal_strlit("China Standard Time");
    reveal_strlit("Tokyo Standard Time");
    reveal_strlit("Korea Standard Time");
    reveal_strlit("AUS Eastern Standard Time");
    reveal_strlit("E. Australia Standard Time");
    reveal_strlit("AUS Central Standard Time");
    reveal_strlit("W. Australia Standard Time");
    reveal_strlit("New Zealand Standard Time");
    reveal_strlit("South Africa Standard Time");
    reveal_strlit("Egypt Standard Time");
    assert("Eastern Standard Time"@.len() != "UTC"@.len());
    assert("Eastern Standard Time"@ != "UTC"@);
    assert("Eastern Standard Time"@.len() != "Coordinated Universal Time"@.len());
    assert("Eastern Standard Time"@ != "Coordinated Universal Time"@);
    assert("Eastern Standard Time"@.len() != "GMT"@.len());
    assert("Eastern Standard Time"@ != "GMT"@);
    assert("Eastern Standard Time"@.len() != "GMT Standard Time"@.len());
    assert("Eastern Standard Time"@ != "GMT Standard Time"@);
    assert("Eastern Standard Time"@.len() != "Greenwich Standard Time"@.len());
    assert("Eastern Standard Time"@ != "Greenwich Standard Time"@);
    assert("Eastern Standard Time"@.len() != "W. Europe Standard Time"@.len());
    assert("Eastern Standard Time"@ != "W. Europe Standard Time"@);
    assert("Eastern Standard Time"@[0] != "Romance Standard Time"@[0]);
    assert("Eastern Standard Time"@ != "Romance Standard Time"@);
    assert("Eastern Standard Time"@.len() != "Central Europe Standard Time"@.len());
    assert("Eastern Standard Time"@ != "Central Europe Standard Time"@);
    assert("Eastern Standard Time"@.len() != "Central European Standard Time"@.len());
    assert("Eastern Standard Time"@ != "Central European Standard Time"@);
    assert("Eastern Standard Time"@.len() != "E. Europe Standard Time"@.len());
    assert("Eastern Standard Time"@ != "E. Europe Standard Time"@);
    assert("Eastern Standard Time"@.len() != "FLE Standard Time"@.len());
    assert("Eastern Standard Time"@ != "FLE Standard Time"@);
    assert("Eastern Standard Time"@.len() != "GTB Standard Time"@.len());
    assert("Eastern Standard Time"@ != "GTB Standard Time"@);
    assert("Eastern Standard Time"@[0] != "Russian Standard Time"@[0]);
    assert("Eastern Standard Time"@ != "Russian Standard Time"@);
    assert("Eastern Standard Time"@.len() != "Turkey Standard Time"@.len());
    assert("Eastern Standard Time"@ != "Turkey Standard Time"@);
    assert("Eastern Standard Time"@.len() != "Israel Standard Time"@.len());
    assert("Eastern Standard Time"@ != "Israel Standard Time"@);
    assert("Eastern Standard Time"@[0] != "Arabian Standard Time"@[0]);
    assert("Eastern Standard Time"@ != "Arabian Standard Time"@);
    assert("Eastern Standard Time"@.len() != "India Standard Time"@.len());
    assert("Eastern Standard Time"@ != "India Standard Time"@);
    assert("Eastern Standard Time"@[0] != "SE Asia Standard Time"@[0]);
    assert("Eastern Standard Time"@ != "SE Asia Standard Time"@);
    assert("Eastern Standard Time"@.len() != "Singapore Standard Time"@.len());
    assert("Eastern Standard Time"@ != "Singapore Standard Time"@);
    assert("Eastern Standard Time"@.len() != "China Standard Time"@.len());
    assert("Eastern Standard Time"@ != "China Standard Time"@);
    assert("Eastern Standard Time"@.len() != "Tokyo Standard Time"@.len());
    assert("Eastern Standard Time"@ != "Tokyo Standard Time"@);
    assert("Eastern Standard Time"@.len() != "Korea Standard Time"@.len());
    assert("Eastern Standard Time"@ != "Korea Standard Time"@);
    assert("Eastern Standard Time"@.len() != "AUS Eastern Standard Time"@.len());
    assert("Eastern Standard Time"@ != "AUS Eastern Standard Time"@);
    assert("Eastern Standard Time"@.len() != "E. Australia Standard Time"@.len());
    assert("Eastern Standard Time"@ != "E. Australia Standard Time"@);
    assert("Eastern Standard Time"@.len() != "AUS Central Standard Time"@.len());
    assert("Eastern Standard Time"@ != "AUS Central Standard Time"@);
    assert("Eastern Standard Time"@.len() != "W. Australia Standard Time"@.len());
    assert("Eastern Standard Time"@ != "W. Australia Standard Time"@);
    assert("Eastern Standard Time"@.len() != "New Zealand Standard Time"@.len());
    assert("Eastern Standard Time"@ != "New Zealand Standard Time"@);
    assert("Eastern Standard Time"@.len() != "South Africa Standard Time"@.len());
    assert("Eastern Standard Time"@ != "South Africa Standard Time"@);
    assert("Eastern Standard Time"@.len() != "Egypt Standard Time"@.len());
    assert("Eastern Standard Time"@ != "Egypt Standard Time"@);
}

proof fn lemma_windows_entry_30()
    ensures
        windows_zone("Central Standard Time"@) == Some("America/Chicago"@),
{
    reveal_strlit("Central Standard Time");
    reveal_strlit("America/Chicago");
    reveal_strlit("UTC");
    reveal_strlit("Coordinated Universal Time");
    reveal_strlit("GMT");
    reveal_strlit("GMT Standard Time");
    reveal_strlit("Greenwich Standard Time");
    reveal_strlit("W. Europe Standard Time");
    reveal_strlit("Romance Standard Time");
    reveal_strlit("Central Europe Standard Time");
    reveal_strlit("Central European Standard Time");
    reveal_strlit("E. Europe Standard Time");
    reveal_strlit("FLE Standard Time");
    reveal_strlit("GTB Standard Time");
    reveal_strlit("Russian Standard Time");
    reveal_strlit("Turkey Standard Time");
    reveal_strlit("Israel Standard Time");
    reveal_strlit("Arabian Standard Time");
    reveal_strlit("India Standard Time");
    reveal_strlit("SE Asia Standard Time");
    reveal_strlit("Singapore Standard Time");
    reveal_strlit("China Standard Time");
    reveal_strlit("Tokyo Standard Time");
    reveal_strlit("Korea Standard Time");
    reveal_strlit("AUS Eastern Standard Time");
    reveal_strlit("E. Australia Standard Time");
    reveal_strlit("AUS Central Standard Time");
    reveal_strlit("W. Australia Standard Time");
    reveal_strlit("New Zealand Standard Time");
    reveal_strlit("South Africa Standard Time");
    reveal_strlit("Egypt Standard Time");
    reveal_strlit("Eastern Standard Time");
    assert("Central Standard Time"@.len() != "UTC"@.len());
    assert("Central Standard Time"@ != "UTC"@);
    assert("Central Standard Time"@.len() != "Coordinated Universal Time"@.len());
    assert("Central Standard Time"@ != "Coordinated Universal Time"@);
    assert("Central Standard Time"@.len() != "GMT"@.len());
    assert("Central Standard Time"@ != "GMT"@);
    assert("Central Standard Time"@.len() != "GMT Standard Time"@.len());
    assert("Central Standard Time"@ != "GMT Standard Time"@);
    assert("Central Standard Time"@.len() != "Greenwich Standard Time"@.len());
    assert("Central Standard Time"@ != "Greenwich Standard Time"@);
    assert("Central Standard Time"@.len() != "W. Europe Standard Time"@.len());
    assert("Central Standard Time"@ != "W. Europe Standard Time"@);
    assert("Central Standard Time"@[0] != "Romance Standard Time"@[0]);
    assert("Central Standard Time"@ != "Romance Standard Time"@);
    assert("Central Standard Time"@.len() != "Central Europe Standard Time"@.len());
    assert("Central Standard Time"@ != "Central Europe Standard Time"@);
    assert("Central Standard Time"@.len() != "Central European Standard Time"@.len());
    assert("Central Standard Time"@ != "Central European Standard Time"@);
    assert("Central Standard Time"@.len() != "E. Europe Standard Time"@.len());
    assert("Central Standard Time"@ != "E. Europe Standard Time"@);
    assert("Central Standard Time"@.len() != "FLE Standard Time"@.len());
    assert("Central Standard Time"@ != "FLE Standard Time"@);
    assert("Central Standard Time"@.len() != "GTB Standard Time"@.len());
    assert("Central Standard Time"@ != "GTB Standard Time"@);
    assert("Central Standard Time"@[0] != "Russian Standard Time"@[0]);
    assert("Central Standard Time"@ != "Russian Standard Time"@);
    assert("Central Standard Time"@.len() != "Turkey Standard Time"@.len());
    assert("Central Standard Time"@ != "Turkey Standard Time"@);
    assert("Central Standard Time"@.len() != "Israel Standard Time"@.len());
    assert("Central Standard Time"@ != "Israel Standard Time"@);
    assert("Central Standard Time"@[0] != "Arabian Standard Time"@[0]);
    assert("Central Standard Time"@ != "Arabian Standard Time"@);
    assert("Central Standard Time"@.len() != "India Standard Time"@.len());
    assert("Central Standard Time"@ != "India Standard Time"@);
    assert("Central Standard Time"@[0] != "SE Asia Standard Time"@[0]);
    assert("Central Standard Time"@ != "SE Asia Standard Time"@);
    assert("Central Standard Time"@.len() != "Singapore Standard Time"@.len());
    assert("Central Standard Time"@ != "Singapore Standard Time"@);
    assert("Central Standard Time"@.len() != "China Standard Time"@.len());
    assert("Central Standard Time"@ != "China Standard Time"@);
    assert("Central Standard Time"@.len() != "Tokyo Standard Time"@.len());
    assert("Central Standard Time"@ != "Tokyo Standard Time"@);
    assert("Central Standard Time"@.len() != "Korea Standard Time"@.len());
    assert("Central Standard Time"@ != "Korea Standard Time"@);
    assert("Central Standard Time"@.len() != "AUS Eastern Standard Time"@.len());
    assert("Central Standard Time"@ != "AUS Eastern Standard Time"@);
    assert("Central Standard Time"@.len() != "E. Australia Standard Time"@.len());
    assert("Central Standard Time"@ != "E. Australia Standard Time"@);
    assert("Central Standard Time"@.len() != "AUS Central Standard Time"@.len());
    assert("Central Standard Time"@ != "AUS Central Standard Time"@);
    assert("Central Standard Time"@.len() != "W. Australia Standard Time"@.len());
    assert("Central Standard Time"@ != "W. Australia Standard Time"@);
    assert("Central Standard Time"@.len() != "New Zealand Standard Time"@.len());
    assert("Central Standard Time"@ != "New Zealand Standard Time"@);
    assert("Central Standard Time"@.len() != "South Africa Standard Time"@.len());
    assert("Central Standard Time"@ != "South Africa Standard Time"@);
    assert("Central Standard Time"@.len() != "Egypt Standard Time"@.len());
    assert("Central Standard Time"@ != "Egypt Standard Time"@);
    assert("Central Standard Time"@[0] != "Eastern Standard Time"@[0]);
    assert("Central Standard Time"@ != "Eastern Standard Time"@);
}

proof fn lemma_windows_entry_31()
    ensures
        windows_zone("Mountain Standard Time"@) == Some("America/Denver"@),
{
    reveal_strlit("Mountain Standard Time");
    reveal_strlit("America/Denver");
    reveal_strlit("UTC");
    reveal_strlit("Coordinated Universal Time");
    reveal_strlit("GMT");
    reveal_strlit("GMT Standard Time");
    reveal_strlit("Greenwich Standard Time");
    reveal_strlit("W. Europe Standard Time");
    reveal_strlit("Romance Standard Time");
    reveal_strlit("Central Europe Standard Time");
    reveal_strlit("Central European Standard Time");
    reveal_strlit("E. Europe Standard Time");
    reveal_strlit("FLE Standard Time");
    reveal_strlit("GTB Standard Time");
    reveal_strlit("Russian Standard Time");
    reveal_strlit("Turkey Standard Time");
    reveal_strlit("Israel Standard Time");
    reveal_strlit("Arabian Standard Time");
    reveal_strlit("India Standard Time");
    reveal_strlit("SE Asia Standard Time");
    reveal_strlit("Singapore Standard Time");
    reveal_strlit("China Standard Time");
    reveal_strlit("Tokyo Standard Time");
    reveal_strlit("Korea Standard Time");
    reveal_strlit("AUS Eastern Standard Time");
    reveal_strlit("E. Australia Standard Time");
    reveal_strlit("AUS Central Standard Time");
    reveal_strlit("W. Australia Standard Time");
    reveal_strlit("New Zealand Standard Time");
    reveal_strlit("South Africa Standard Time");
    reveal_strlit("Egypt Standard Time");
    reveal_strlit("Eastern Standard Time");
    reveal_strlit("Central Standard Time");
    assert("Mountain Standard Time"@.len() != "UTC"@.len());
    assert("Mountain Standard Time"@ != "UTC"@);
    assert("Mountain Standard Time"@.len() != "Coordinated Universal Time"@.len());
    assert("Mountain Standard Time"@ != "Coordinated Universal Time"@);
    assert("Mountain Standard Time"@.len() != "GMT"@.len());
    assert("Mountain Standard Time"@ != "GMT"@);
    assert("Mountain Standard Time"@.len() != "GMT Standard Time"@.len());
    assert("Mountain Standard Time"@ != "GMT Standard Time"@);
    assert("Mountain Standard Time"@.len() != "Greenwich Standard Time"@.len());
    assert("Mountain Standard Time"@ != "Greenwich Standard Time"@);
    assert("Mountain Standard Time"@.len() != "W. Europe Standard Time"@.len());
    assert("Mountain Standard Time"@ != "W. Europe Standard Time"@);
    assert("Mountain Standard Time"@.len() != "Romance Standard Time"@.len());
    assert("Mountain Standard Time"@ != "Romance Standard Time"@);
    assert("Mountain Standard Time"@.len() != "Central Europe Standard Time"@.len());
    assert("Mountain Standard Time"@ != "Central Europe Standard Time"@);
    assert("Mountain Standard Time"@.len() != "Central European Standard Time"@.len());
    assert("Mountain Standard Time"@ != "Central European Standard Time"@);
    assert("Mountain Standard Time"@.len() != "E. Europe Standard Time"@.len());
    assert("Mountain Standard Time"@ != "E. Europe Standard Time"@);
    assert("Mountain Standard Time"@.len() != "FLE Standard Time"@.len());
    assert("Mountain Standard Time"@ != "FLE Standard Time"@);
    assert("Mountain Standard Time"@.len() != "GTB Standard Time"@.len());
    assert("Mountain Standard Time"@ != "GTB Standard Time"@);
    assert("Mountain Standard Time"@.len() != "Russian Standard Time"@.len());
    assert("Mountain Standard Time"@ != "Russian Standard Time"@);
    assert("Mountain Standard Time"@.len() != "Turkey Standard Time"@.len());
    assert("Mountain Standard Time"@ != "Turkey Standard Time"@);
    assert("Mountain Standard Time"@.len() != "Israel Standard Time"@.len());
    assert("Mountain Standard Time"@ != "Israel Standard Time"@);
    assert("Mountain Standard Time"@.len() != "Arabian Standard Time"@.len());
    assert("Mountain Standard Time"@ != "Arabian Standard Time"@);
    assert("Mountain Standard Time"@.len() != "India Standard Time"@.len());
    assert("Mountain Standard Time"@ != "India Standard Time"@);
    assert("Mountain Standard Time"@.len() != "SE Asia Standard Time"@.len());
    assert("Mountain Standard Time"@ != "SE Asia Standard Time"@);
    assert("Mountain Standard Time"@.len() != "Singapore Standard Time"@.len());
    assert("Mountain Standard Time"@ != "Singapore Standard Time"@);
    assert("Mountain Standard Time"@.len() != "China Standard Time"@.len());
    assert("Mountain Standard Time"@ != "China Standard Time"@);
    assert("Mountain Standard Time"@.len() != "Tokyo Standard Time"@.len());
    assert("Mountain Standard Time"@ != "Tokyo Standard Time"@);
    assert("Mountain Standard Time"@.len() != "Korea Standard Time"@.len());
    assert("Mountain Standard Time"@ != "Korea Standard Time"@);
    assert("Mountain Standard Time"@.len() != "AUS Eastern Standard Time"@.len());
    assert("Mountain Standard Time"@ != "AUS Eastern Standard Time"@);
    assert("Mountain Standard Time"@.len() != "E. Australia Standard Time"@.len());
    assert("Mountain Standard Time"@ != "E. Australia Standard Time"@);
    assert("Mountain Standard Time"@.len() != "AUS Central Standard Time"@.len());
    assert("Mountain Standard Time"@ != "AUS Central Standard Time"@);
    assert("Mountain Standard Time"@.len() != "W. Australia Standard Time"@.len());
    assert("Mountain Standard Time"@ != "W. Australia Standard Time"@);
    assert("Mountain Standard Time"@.len() != "New Zealand Standard Time"@.len());
    assert("Mountain Standard Time"@ != "New Zealand Standard Time"@);
    assert("Mountain Standard Time"@.len() != "South Africa Standard Time"@.len());
    assert("Mountain Standard Time"@ != "South Africa Standard Time"@);
    assert("Mountain Standard Time"@.len() != "Egypt Standard Time"@.len());
    assert("Mountain Standard Time"@ != "Egypt Standard Time"@);
    assert("Mountain Standard Time"@.len() != "Eastern Standard Time"@.len());
    assert("Mountain Standard Time"@ != "Eastern Standard Time"@);
    assert("Mountain Standard Time"@.len() != "Central Standard Time"@.len());
    assert("Mountain Standard Time"@ != "Central Standard Time"@);
}

proof fn lemma_windows_entry_32()
    ensures
        windows_zone("US Mountain Standard Time"@) == Some("America/Phoenix"@),
{
    reveal_strlit("US Mountain Standard Time");
    reveal_strlit("America/Phoenix");
    reveal_strlit("UTC");
    reveal_strlit("Coordinated Universal Time");
    reveal_strlit("GMT");
    reveal_strlit("GMT Standard Time");
    reveal_strlit("Greenwich Standard Time");
    reveal_strlit("W. Europe Standard Time");
    reveal_strlit("Romance Standard Time");
    reveal_strlit("Central Europe Standard Time");
    reveal_strlit("Central European Standard Time");
    reveal_strlit("E. Europe Standard Time");
    reveal_strlit("FLE Standard Time");
    reveal_strlit("GTB Standard Time");
    reveal_strlit("Russian Standard Time");
    reveal_strlit("Turkey Standard Time");
    reveal_strlit("Israel Standard Time");
    reveal_strlit("Arabian Standard Time");
    reveal_strlit("India Standard Time");
    reveal_strlit("SE Asia Standard Time");
    reveal_strlit("Singapore Standard Time");
    reveal_strlit("China Standard Time");
    reveal_strlit("Tokyo Standard Time");
    reveal_strlit("Korea Standard Time");
    reveal_strlit("AUS Eastern Standard Time");
    reveal_strlit("E. Australia Standard Time");
    reveal_strlit("AUS Central Standard Time");
    reveal_strlit("W. Australia Standard Time");
    reveal_strlit("New Zealand Standard Time");
    reveal_strlit("South Africa Standard Time");
    reveal_strlit("Egypt Standard Time");
    reveal_strlit("Eastern Standard Time");
    reveal_strlit("Central Standard Time");
    reveal_strlit("Mountain Standard Time");
    assert("US Mountain Standard Time"@.len() != "UTC"@.len());
    assert("US Mountain Standard Time"@ != "UTC"@);
    assert("US Mountain Standard Time"@.len() != "Coordinated Universal Time"@.len());
    assert("US Mountain Standard Time"@ != "Coordinated Universal Time"@);
    assert("US Mountain Standard Time"@.len() != "GMT"@.len());
    assert("US Mountain Standard Time"@ != "GMT"@);
    assert("US Mountain Standard Time"@.len() != "GMT Standard Time"@.len());
    assert("US Mountain Standard Time"@ != "GMT Standard Time"@);
    assert("US Mountain Standard Time"@.len() != "Greenwich Standard Time"@.len());
    assert("US Mountain Standard Time"@ != "Greenwich Standard Time"@);
    assert("US Mountain Standard Time"@.len() != "W. Europe Standard Time"@.len());
    assert("US Mountain Standard Time"@ != "W. Europe Standard Time"@);
    assert("US Mountain Standard Time"@.len() != "Romance Standard Time"@.len());
    assert("US Mountain Standard Time"@ != "Romance Standard Time"@);
    assert("US Mountain Standard Time"@.len() != "Central Europe Standard Time"@.len());
    assert("US Mountain Standard Time"@ != "Central Europe Standard Time"@);
    assert("US Mountain Standard Time"@.len() != "Central European Standard Time"@.len());
    assert("US Mountain Standard Time"@ != "Central European Standard Time"@);
    assert("US Mountain Standard Time"@.len() != "E. Europe Standard Time"@.len());
    assert("US Mountain Standard Time"@ != "E. Europe Standard Time"@);
    assert("US Mountain Standard Time"@.len() != "FLE Standard Time"@.len());
    assert("US Mountain Standard Time"@ != "FLE Standard Time"@);
    assert("US Mountain Standard Time"@.len() != "GTB Standard Time"@.len());
    assert("US Mountain Standard Time"@ != "GTB Standard Time"@);
    assert("US Mountain Standard Time"@.len() != "Russian Standard Time"@.len());
    assert("US Mountain Standard Time"@ != "Russian Standard Time"@);
    assert("US Mountain Standard Time"@.len() != "Turkey Standard Time"@.len());
    assert("US Mountain Standard Time"@ != "Turkey Standard Time"@);
    assert("US Mountain Standard Time"@.len() != "Israel Standard Time"@.len());
    assert("US Mountain Standard Time"@ != "Israel Standard Time"@);
    assert("US Mountain Standard Time"@.len() != "Arabian Standard Time"@.len());
    assert("US Mountain Standard Time"@ != "Arabian Standard Time"@);
    assert("US Mountain Standard Time"@.len() != "India Standard Time"@.len());
    assert("US Mountain Standard Time"@ != "India Standard Time"@);
    assert("US Mountain Standard Time"@.len() != "SE Asia Standard Time"@.len());
    assert("US Mountain Standard Time"@ != "SE Asia Standard Time"@);
    assert("US Mountain Standard Time"@.len() != "Singapore Standard Time"@.len());
    assert("US Mountain Standard Time"@ != "Singapore Standard Time"@);
    assert("US Mountain Standard Time"@.len() != "China Standard Time"@.len());
    assert("US Mountain Standard Time"@ != "China Standard Time"@);
    assert("US Mountain Standard Time"@.len() != "Tokyo Standard Time"@.len());
    assert("US Mountain Standard Time"@ != "Tokyo Standard Time"@);
    assert("US Mountain Standard Time"@.len() != "Korea Standard Time"@.len());
    assert("US Mountain Standard Time"@ != "Korea Standard Time"@);
    assert("US Mountain Standard Time"@[0] != "AUS Eastern Standard Time"@[0]);
    assert("US Mountain Standard Time"@ != "AUS Eastern Standard Time"@);
    assert("US Mountain Standard Time"@.len() != "E. Australia Standard Time"@.len());
    assert("US Mountain Standard Time"@ != "E. Australia Standard Time"@);
    assert("US Mountain Standard Time"@[0] != "AUS Central Standard Time"@[0]);
    assert("US Mountain Standard Time"@ != "AUS Central Standard Time"@);
    assert("US Mountain Standard Time"@.len() != "W. Australia Standard Time"@.len());
    assert("US Mountain Standard Time"@ != "W. Australia Standard Time"@);
    assert("US Mountain Standard Time"@[0] != "New Zealand Standard Time"@[0]);
    assert("US Mountain Standard Time"@ != "New Zealand Standard Time"@);
    assert("US Mountain Standard Time"@.len() != "South Africa Standard Time"@.len());
    assert("US Mountain Standard Time"@ != "South Africa Standard Time"@);
    assert("US Mountain Standard Time"@.len() != "Egypt Standard Time"@.len());
    assert("US Mountain Standard Time"@ != "Egypt Standard Time"@);
    assert("US Mountain Standard Time"@.len() != "Eastern Standard Time"@.len());
    assert("US Mountain Standard Time"@ != "Eastern Standard Time"@);
    assert("US Mountain Standard Time"@.len() != "Central Standard Time"@.len());
    assert("US Mountain Standard Time"@ != "Central Standard Time"@);
    assert("US Mountain Standard Time"@.len() != "Mountain Standard Time"@.len());
    assert("US Mountain Standard Time"@ != "Mountain Standard Time"@);
}

proof fn lemma_windows_entry_33()
    ensures
        windows_zone("Pacific Standard Time"@) == Some("America/Los_Angeles"@),
{
    reveal_strlit("Pacific Standard Time");
    reveal_strlit("America/Los_Angeles");
    reveal_strlit("UTC");
    reveal_strlit("Coordinated Universal Time");
    reveal_strlit("GMT");
    reveal_strlit("GMT Standard Time");
    reveal_strlit("Greenwich Standard Time");
    reveal_strlit("W. Europe Standard Time");
    reveal_strlit("Romance Standard Time");
    reveal_strlit("Central Europe Standard Time");
    reveal_strlit("Central European Standard Time");
    reveal_strlit("E. Europe Standard Time");
    reveal_strlit("FLE Standard Time");
    reveal_strlit("GTB Standard Time");
    reveal_strlit("Russian Standard Time");
    reveal_strlit("Turkey Standard Time");
    reveal_strlit("Israel Standard Time");
    reveal_strlit("Arabian Standard Time");
    reveal_strlit("India Standard Time");
    reveal_strlit("SE Asia Standard Time");
    reveal_strlit("Singapore Standard Time");
    reveal_strlit("China Standard Time");
    reveal_strlit("Tokyo Standard Time");
    reveal_strlit("Korea Standard Time");
    reveal_strlit("AUS Eastern Standard Time");
    reveal_strlit("E. Australia Standard Time");
    reveal_strlit("AUS Central Standard Time");
    reveal_strlit("W. Australia Standard Time");
    reveal_strlit("New Zealand Standard Time");
    reveal_strlit("South Africa Standard Time");
    reveal_strlit("Egypt Standard Time");
    reveal_strlit("Eastern Standard Time");
    reveal_strlit("Central Standard Time");
    reveal_strlit("Mountain Standard Time");
    reveal_strlit("US Mountain Standard Time");
    assert("Pacific Standard Time"@.len() != "UTC"@.len());
    assert("Pacific Standard Time"@ != "UTC"@);
    assert("Pacific Standard Time"@.len() != "Coordinated Universal Time"@.len());
    assert("Pacific Standard Time"@ != "Coordinated Universal Time"@);
    assert("Pacific Standard Time"@.len() != "GMT"@.len());
    assert("Pacific Standard Time"@ != "GMT"@);
    assert("Pacific Standard Time"@.len() != "GMT Standard Time"@.len());
    assert("Pacific Standard Time"@ != "GMT Standard Time"@);
    assert("Pacific Standard Time"@.len() != "Greenwich Standard Time"@.len());
    assert("Pacific Standard Time"@ != "Greenwich Standard Time"@);
    assert("Pacific Standard Time"@.len() != "W. Europe Standard Time"@.len());
    assert("Pacific Standard Time"@ != "W. Europe Standard Time"@);
    assert("Pacific Standard Time"@[0] != "Romance Standard Time"@[0]);
    assert("Pacific Standard Time"@ != "Romance Standard Time"@);
    assert("Pacific Standard Time"@.len() != "Central Europe Standard Time"@.len());
    assert("Pacific Standard Time"@ != "Central Europe Standard Time"@);
    assert("Pacific Standard Time"@.len() != "Central European Standard Time"@.len());
    assert("Pacific Standard Time"@ != "Central European Standard Time"@);
    assert("Pacific Standard Time"@.len() != "E. Europe Standard Time"@.len());
    assert("Pacific Standard Time"@ != "E. Europe Standard Time"@);
    assert("Pacific Standard Time"@.len() != "FLE Standard Time"@.len());
    assert("Pacific Standard Time"@ != "FLE Standard Time"@);
    assert("Pacific Standard Time"@.len() != "GTB Standard Time"@.len());
    assert("Pacific Standard Time"@ != "GTB Standard Time"@);
    assert("Pacific Standard Time"@[0] != "Russian Standard Time"@[0]);
    assert("Pacific Standard Time"@ != "Russian Standard Time"@);
    assert("Pacific Standard Time"@.len() != "Turkey Standard Time"@.len());
    assert("Pacific Standard Time"@ != "Turkey Standard Time"@);
    assert("Pacific Standard Time"@.len() != "Israel Standard Time"@.len());
    assert("Pacific Standard Time"@ != "Israel Standard Time"@);
    assert("Pacific Standard Time"@[0] != "Arabian Standard Time"@[0]);
    assert("Pacific Standard Time"@ != "Arabian Standard Time"@);
    assert("Pacific Standard Time"@.len() != "India Standard Time"@.len());
    assert("Pacific Standard Time"@ != "India Standard Time"@);
    assert("Pacific Standard Time"@[0] != "SE Asia Standard Time"@[0]);
    assert("Pacific Standard Time"@ != "SE Asia Standard Time"@);
    assert("Pacific Standard Time"@.len() != "Singapore Standard Time"@.len());
    assert("Pacific Standard Time"@ != "Singapore Standard Time"@);
    assert("Pacific Standard Time"@.len() != "China Standard Time"@.len());
    assert("Pacific Standard Time"@ != "China Standard Time"@);
    assert("Pacific Standard Time"@.len() != "Tokyo Standard Time"@.len());
    assert("Pacific Standard Time"@ != "Tokyo Standard Time"@);
    assert("Pacific Standard Time"@.len() != "Korea Standard Time"@.len());
    assert("Pacific Standard Time"@ != "Korea Standard Time"@);
    assert("Pacific Standard Time"@.len() != "AUS Eastern Standard Time"@.len());
    assert("Pacific Standard Time"@ != "AUS Eastern Standard Time"@);
    assert("Pacific Standard Time"@.len() != "E. Australia Standard Time"@.len());
    assert("Pacific Standard Time"@ != "E. Australia Standard Time"@);
    assert("Pacific Standard Time"@.len() != "AUS Central Standard Time"@.len());
    assert("Pacific Standard Time"@ != "AUS Central Standard Time"@);
    assert("Pacific Standard Time"@.len() != "W. Australia Standard Time"@.len());
    assert("Pacific Standard Time"@ != "W. Australia Standard Time"@);
    assert("Pacific Standard Time"@.len() != "New Zealand Standard Time"@.len());
    assert("Pacific Standard Time"@ != "New Zealand Standard Time"@);
    assert("Pacific Standard Time"@.len() != "South Africa Standard Time"@.len());
    assert("Pacific Standard Time"@ != "South Africa Standard Time"@);
    assert("Pacific Standard Time"@.len() != "Egypt Standard Time"@.len());
    assert("Pacific Standard Time"@ != "Egypt Standard Time"@);
    assert("Pacific Standard Time"@[0] != "Eastern Standard Time"@[0]);
    assert("Pacific Standard Time"@ != "Eastern Standard Time"@);
    assert("Pacific Standard Time"@[0] != "Central Standard Time"@[0]);
    assert("Pacific Standard Time"@ != "Central Standard Time"@);
    assert("Pacific Standard Time"@.len() != "Mountain Standard Time"@.len());
    assert("Pacific Standard Time"@ != "Mountain Standard Time"@);
    assert("Pacific Standard Time"@.len() != "US Mountain Standard Time"@.len());
    assert("Pacific Standard Time"@ != "US Mountain Standard Time"@);
}

proof fn lemma_windows_entry_34()
    ensures
        windows_zone("Alaskan Standard Time"@) == Some("America/Anchorage"@),
{
    reveal_strlit("Alaskan Standard Time");
    reveal_strlit("America/Anchorage");
    reveal_strlit("UTC");
    reveal_strlit("Coordinated Universal Time");
    reveal_strlit("GMT");
    reveal_strlit("GMT Standard Time");
    reveal_strlit("Greenwich Standard Time");
    reveal_strlit("W. Europe Standard Time");
    reveal_strlit("Romance Standard Time");
    reveal_strlit("Central Europe Standard Time");
    reveal_strlit("Central European Standard Time");
    reveal_strlit("E. Europe Standard Time");
    reveal_strlit("FLE Standard Time");
    reveal_strlit("GTB Standard Time");
    reveal_strlit("Russian Standard Time");
    reveal_strlit("Turkey Standard Time");
    reveal_strlit("Israel Standard Time");
    reveal_strlit("Arabian Standard Time");
    reveal_strlit("India Standard Time");
    reveal_strlit("SE Asia Standard Time");
    reveal_strlit("Singapore Standard Time");
    reveal_strlit("China Standard Time");
    reveal_strlit("Tokyo Standard Time");
    reveal_strlit("Korea Standard Time");
    reveal_strlit("AUS Eastern Standard Time");
    reveal_strlit("E. Australia Standard Time");
    reveal_strlit("AUS Central Standard Time");
    reveal_strlit("W. Australia Standard Time");
    reveal_strlit("New Zealand Standard Time");
    reveal_strlit("South Africa Standard Time");
    reveal_strlit("Egypt Standard Time");
    reveal_strlit("Eastern Standard Time");
    reveal_strlit("Central Standard Time");
    reveal_strlit("Mountain Standard Time");
    reveal_strlit("US Mountain Standard Time");
    reveal_strlit("Pacific Standard Time");
    assert("Alaskan Standard Time"@.len() != "UTC"@.len());
    assert("Alaskan Standard Time"@ != "UTC"@);
    assert("Alaskan Standard Time"@.len() != "Coordinated Universal Time"@.len());
    assert("Alaskan Standard Time"@ != "Coordinated Universal Time"@);
    assert("Alaskan Standard Time"@.len() != "GMT"@.len());
    assert("Alaskan Standard Time"@ != "GMT"@);
    assert("Alaskan Standard Time"@.len() != "GMT Standard Time"@.len());
    assert("Alaskan Standard Time"@ != "GMT Standard Time"@);
    assert("Alaskan Standard Time"@.len() != "Greenwich Standard Time"@.len());
    assert("Alaskan Standard Time"@ != "Greenwich Standard Time"@);
    assert("Alaskan Standard Time"@.len() != "W. Europe Standard Time"@.len());
    assert("Alaskan Standard Time"@ != "W. Europe Standard Time"@);
    assert("Alaskan Standard Time"@[0] != "Romance Standard Time"@[0]);
    assert("Alaskan Standard Time"@ != "Romance Standard Time"@);
    assert("Alaskan Standard Time"@.len() != "Central Europe Standard Time"@.len());
    assert("Alaskan Standard Time"@ != "Central Europe Standard Time"@);
    assert("Alaskan Standard Time"@.len() != "Central European Standard Time"@.len());
    assert("Alaskan Standard Time"@ != "Central European Standard Time"@);
    assert("Alaskan Standard Time"@.len() != "E. Europe Standard Time"@.len());
    assert("Alaskan Standard Time"@ != "E. Europe Standard Time"@);
    assert("Alaskan Standard Time"@.len() != "FLE Standard Time"@.len());
    assert("Alaskan Standard Time"@ != "FLE Standard Time"@);
    assert("Alaskan Standard Time"@.len() != "GTB Standard Time"@.len());
    assert("Alaskan Standard Time"@ != "GTB Standard Time"@);
    assert("Alaskan Standard Time"@[0] != "Russian Standard Time"@[0]);
    assert("Alaskan Standard Time"@ != "Russian Standard Time"@);
    assert("Alaskan Standard Time"@.len() != "Turkey Standard Time"@.len());
    assert("Alaskan Standard Time"@ != "Turkey Standard Time"@);
    assert("Alaskan Standard Time"@.len() != "Israel Standard Time"@.len());
    assert("Alaskan Standard Time"@ != "Israel Standard Time"@);
    assert("Alaskan Standard Time"@[1] != "Arabian Standard Time"@[1]);
    assert("Alaskan Standard Time"@ != "Arabian Standard Time"@);
    assert("Alaskan Standard Time"@.len() != "India Standard Time"@.len());
    assert("Alaskan Standard Time"@ != "India Standard Time"@);
    assert("Alaskan Standard Time"@[0] != "SE Asia Standard Time"@[0]);
    assert("Alaskan Standard Time"@ != "SE Asia Standard Time"@);
    assert("Alaskan Standard Time"@.len() != "Singapore Standard Time"@.len());
    assert("Alaskan Standard Time"@ != "Singapore Standard Time"@);
    assert("Alaskan Standard Time"@.len() != "China Standard Time"@.len());
    assert("Alaskan Standard Time"@ != "China Standard Time"@);
    assert("Alaskan Standard Time"@.len() != "Tokyo Standard Time"@.len());
    assert("Alaskan Standard Time"@ != "Tokyo Standard Time"@);
    assert("Alaskan Standard Time"@.len() != "Korea Standard Time"@.len());
    assert("Alaskan Standard Time"@ != "Korea Standard Time"@);
    assert("Alaskan Standard Time"@.len() != "AUS Eastern Standard Time"@.len());
    assert("Alaskan Standard Time"@ != "AUS Eastern Standard Time"@);
    assert("Alaskan Standard Time"@.len() != "E. Australia Standard Time"@.len());
    assert("Alaskan Standard Time"@ != "E. Australia Standard Time"@);
    assert("Alaskan Standard Time"@.len() != "AUS Central Standard Time"@.len());
    assert("Alaskan Standard Time"@ != "AUS Central Standard Time"@);
    assert("Alaskan Standard Time"@.len() != "W. Australia Standard Time"@.len());
    assert("Alaskan Standard Time"@ != "W. Australia Standard Time"@);
    assert("Alaskan Standard Time"@.len() != "New Zealand Standard Time"@.len());
    assert("Alaskan Standard Time"@ != "New Zealand Standard Time"@);
    assert("Alaskan Standard Time"@.len() != "South Africa Standard Time"@.len());
    assert("Alaskan Standard Time"@ != "South Africa Standard Time"@);
    assert("Alaskan Standard Time"@.len() != "Egypt Standard Time"@.len());
    assert("Alaskan Standard Time"@ != "Egypt Standard Time"@);
    assert("Alaskan Standard Time"@[0] != "Eastern Standard Time"@[0]);
    assert("Alaskan Standard Time"@ != "Eastern Standard Time"@);
    assert("Alaskan Standard Time"@[0] != "Central Standard Time"@[0]);
    assert("Alaskan Standard Time"@ != "Central Standard Time"@);
    assert("Alaskan Standard Time"@.len() != "Mountain Standard Time"@.len());
    assert("Alaskan Standard Time"@ != "Mountain Standard Time"@);
    assert("Alaskan Standard Time"@.len() != "US Mountain Standard Time"@.len());
    assert("Alaskan Standard Time"@ != "US Mountain Standard Time"@);
    assert("Alaskan Standard Time"@[0] != "Pacific Standard Time"@[0]);
    assert("Alaskan Standard Time"@ != "Pacific Standard Time"@);
}

proof fn lemma_windows_entry_35()
    ensures
        windows_zone("Hawaiian Standard Time"@) == Some("Pacific/Honolulu"@),
{
    reveal_strlit("Hawaiian Standard Time");
    reveal_strlit("Pacific/Honolulu");
    reveal_strlit("UTC");
    reveal_strlit("Coordinated Universal Time");
    reveal_strlit("GMT");
    reveal_strlit("GMT Standard Time");
    reveal_strlit("Greenwich Standard Time");
    reveal_strlit("W. Europe Standard Time");
    reveal_strlit("Romance Standard Time");
    reveal_strlit("Central Europe Standard Time");
    reveal_strlit("Central European Standard Time");
    reveal_strlit("E. Europe Standard Time");
    reveal_strlit("FLE Standard Time");
    reveal_strlit("GTB Standard Time");
    reveal_strlit("Russian Standard Time");
    reveal_strlit("Turkey Standard Time");
    reveal_strlit("Israel Standard Time");
    reveal_strlit("Arabian Standard Time");
    reveal_strlit("India Standard Time");
    reveal_strlit("SE Asia Standard Time");
    reveal_strlit("Singapore Standard Time");
    reveal_strlit("China Standard Time");
    reveal_strlit("Tokyo Standard Time");
    reveal_strlit("Korea Standard Time");
    reveal_strlit("AUS Eastern Standard Time");
    reveal_strlit("E. Australia Standard Time");
    reveal_strlit("AUS Central Standard Time");
    reveal_strlit("W. Australia Standard Time");
    reveal_strlit("New Zealand Standard Time");
    reveal_strlit("South Africa Standard Time");
    reveal_strlit("Egypt Standard Time");
    reveal_strlit("Eastern Standard Time");
    reveal_strlit("Central Standard Time");
    reveal_strlit("Mountain Standard Time");
    reveal_strlit("US Mountain Standard Time");
    reveal_strlit("Pacific Standard Time");
    reveal_strlit("Alaskan Standard Time");
    assert("Hawaiian Standard Time"@.len() != "UTC"@.len());
    assert("Hawaiian Standard Time"@ != "UTC"@);
    assert("Hawaiian Standard Time"@.len() != "Coordinated Universal Time"@.len());
    assert("Hawaiian Standard Time"@ != "Coordinated Universal Time"@);
    assert("Hawaiian Standard Time"@.len() != "GMT"@.len());
    assert("Hawaiian Standard Time"@ != "GMT"@);
    assert("Hawaiian Standard Time"@.len() != "GMT Standard Time"@.len());
    assert("Hawaiian Standard Time"@ != "GMT Standard Time"@);
    assert("Hawaiian Standard Time"@.len() != "Greenwich Standard Time"@.len());
    assert("Hawaiian Standard Time"@ != "Greenwich Standard Time"@);
    assert("Hawaiian Standard Time"@.len() != "W. Europe Standard Time"@.len());
    assert("Hawaiian Standard Time"@ != "W. Europe Standard Time"@);
    assert("Hawaiian Standard Time"@.len() != "Romance Standard Time"@.len());
    assert("Hawaiian Standard Time"@ != "Romance Standard Time"@);
    assert("Hawaiian Standard Time"@.len() != "Central Europe Standard Time"@.len());
    assert("Hawaiian Standard Time"@ != "Central Europe Standard Time"@);
    assert("Hawaiian Standard Time"@.len() != "Central European Standard Time"@.len());
    assert("Hawaiian Standard Time"@ != "Central European Standard Time"@);
    assert("Hawaiian Standard Time"@.len() != "E. Europe Standard Time"@.len());
    assert("Hawaiian Standard Time"@ != "E. Europe Standard Time"@);
    assert("Hawaiian Standard Time"@.len() != "FLE Standard Time"@.len());
    assert("Hawaiian Standard Time"@ != "FLE Standard Time"@);
    assert("Hawaiian Standard Time"@.len() != "GTB Standard Time"@.len());
    assert("Hawaiian Standard Time"@ != "GTB Standard Time"@);
    assert("Hawaiian Standard Time"@.len() != "Russian Standard Time"@.len());
    assert("Hawaiian Standard Time"@ != "Russian Standard Time"@);
    assert("Hawaiian Standard Time"@.len() != "Turkey Standard Time"@.len());
    assert("Hawaiian Standard Time"@ != "Turkey Standard Time"@);
    assert("Hawaiian Standard Time"@.len() != "Israel Standard Time"@.len());
    assert("Hawaiian Standard Time"@ != "Israel Standard Time"@);
    assert("Hawaiian Standard Time"@.len() != "Arabian Standard Time"@.len());
    assert("Hawaiian Standard Time"@ != "Arabian Standard Time"@);
    assert("Hawaiian Standard Time"@.len() != "India Standard Time"@.len());
    assert("Hawaiian Standard Time"@ != "India Standard Time"@);
    assert("Hawaiian Standard Time"@.len() != "SE Asia Standard Time"@.len());
    assert("Hawaiian Standard Time"@ != "SE Asia Standard Time"@);
    assert("Hawaiian Standard Time"@.len() != "Singapore Standard Time"@.len());
    assert("Hawaiian Standard Time"@ != "Singapore Standard Time"@);
    assert("Hawaiian Standard Time"@.len() != "China Standard Time"@.len());
    assert("Hawaiian Standard Time"@ != "China Standard Time"@);
    assert("Hawaiian Standard Time"@.len() != "Tokyo Standard Time"@.len());
    assert("Hawaiian Standard Time"@ != "Tokyo Standard Time"@);
    assert("Hawaiian Standard Time"@.len() != "Korea Standard Time"@.len());
    assert("Hawaiian Standard Time"@ != "Korea Standard Time"@);
    assert("Hawaiian Standard Time"@.len() != "AUS Eastern Standard Time"@.len());
    assert("Hawaiian Standard Time"@ != "AUS Eastern Standard Time"@);
    assert("Hawaiian Standard Time"@.len() != "E. Australia Standard Time"@.len());
    assert("Hawaiian Standard Time"@ != "E. Australia Standard Time"@);
    assert("Hawaiian Standard Time"@.len() != "AUS Central Standard Time"@.len());
    assert("Hawaiian Standard Time"@ != "AUS Central Standard Time"@);
    assert("Hawaiian Standard Time"@.len() != "W. Australia Standard Time"@.len());
    assert("Hawaiian Standard Time"@ != "W. Australia Standard Time"@);
    assert("Hawaiian Standard Time"@.len() != "New Zealand Standard Time"@.len());
    assert("Hawaiian Standard Time"@ != "New Zealand Standard Time"@);
    assert("Hawaiian Standard Time"@.len() != "South Africa Standard Time"@.len());
    assert("Hawaiian Standard Time"@ != "South Africa Standard Time"@);
    assert("Hawaiian Standard Time"@.len() != "Egypt Standard Time"@.len());
    assert("Hawaiian Standard Time"@ != "Egypt Standard Time"@);
    assert("Hawaiian Standard Time"@.len() != "Eastern Standard Time"@.len());
    assert("Hawaiian Standard Time"@ != "Eastern Standard Time"@);
    assert("Hawaiian Standard Time"@.len() != "Central Standard Time"@.len());
    assert("Hawaiian Standard Time"@ != "Central Standard Time"@);
    assert("Hawaiian Standard Time"@[0] != "Mountain Standard Time"@[0]);
    assert("Hawaiian Standard Time"@ != "Mountain Standard Time"@);
    assert("Hawaiian Standard Time"@.len() != "US Mountain Standard Time"@.len());
    assert("Hawaiian Standard Time"@ != "US Mountain Standard Time"@);
    assert("Hawaiian Standard Time"@.len() != "Pacific Standard Time"@.len());
    assert("Hawaiian Standard Time"@ != "Pacific Standard Time"@);
    assert("Hawaiian Standard Time"@.len() != "Alaskan Standard Time"@.len());
    assert("Hawaiian Standard Time"@ != "Alaskan Standard Time"@);
}

proof fn lemma_windows_entry_36()
    ensures
        windows_zone("Atlantic Standard Time"@) == Some("America/Halifax"@),
{
    reveal_strlit("Atlantic Standard Time");
    reveal_strlit("America/Halifax");
    reveal_strlit("UTC");
    reveal_strlit("Coordinated Universal Time");
    reveal_strlit("GMT");
    reveal_strlit("GMT Standard Time");
    reveal_strlit("Greenwich Standard Time");
    reveal_strlit("W. Europe Standard Time");
    reveal_strlit("Romance Standard Time");
    reveal_strlit("Central Europe Standard Time");
    reveal_strlit("Central European Standard Time");
    reveal_strlit("E. Europe Standard Time");
    reveal_strlit("FLE Standard Time");
    reveal_strlit("GTB Standard Time");
    reveal_strlit("Russian Standard Time");
    reveal_strlit("Turkey Standard Time");
    reveal_strlit("Israel Standard Time");
    reveal_strlit("Arabian Standard Time");
    reveal_strlit("India Standard Time");
    reveal_strlit("SE Asia Standard Time");
    reveal_strlit("Singapore Standard Time");
    reveal_strlit("China Standard Time");
    reveal_strlit("Tokyo Standard Time");
    reveal_strlit("Korea Standard Time");
    reveal_strlit("AUS Eastern Standard Time");
    reveal_strlit("E. Australia Standard Time");
    reveal_strlit("AUS Central Standard Time");
    reveal_strlit("W. Australia Standard Time");
    reveal_strlit("New Zealand Standard Time");
    reveal_strlit("South Africa Standard Time");
    reveal_strlit("Egypt Standard Time");
    reveal_strlit("Eastern Standard Time");
    reveal_strlit("Central Standard Time");
    reveal_strlit("Mountain Standard Time");
    reveal_strlit("US Mountain Standard Time");
    reveal_strlit("Pacific Standard Time");
    reveal_strlit("Alaskan Standard Time");
    reveal_strlit("Hawaiian Standard Time");
    assert("Atlantic Standard Time"@.len() != "UTC"@.len());
    assert("Atlantic Standard Time"@ != "UTC"@);
    assert("Atlantic Standard Time"@.len() != "Coordinated Universal Time"@.len());
    assert("Atlantic Standard Time"@ != "Coordinated Universal Time"@);
    assert("Atlantic Standard Time"@.len() != "GMT"@.len());
    assert("Atlantic Standard Time"@ != "GMT"@);
    assert("Atlantic Standard Time"@.len() != "GMT Standard Time"@.len());
    assert("Atlantic Standard Time"@ != "GMT Standard Time"@);
    assert("Atlantic Standard Time"@.len() != "Greenwich Standard Time"@.len());
    assert("Atlantic Standard Time"@ != "Greenwich Standard Time"@);
    assert("Atlantic Standard Time"@.len() != "W. Europe Standard Time"@.len());
    assert("Atlantic Standard Time"@ != "W. Europe Standard Time"@);
    assert("Atlantic Standard Time"@.len() != "Romance Standard Time"@.len());
    assert("Atlantic Standard Time"@ != "Romance Standard Time"@);
    assert("Atlantic Standard Time"@.len() != "Central Europe Standard Time"@.len());
    assert("Atlantic Standard Time"@ != "Central Europe Standard Time"@);
    assert("Atlantic Standard Time"@.len() != "Central European Standard Time"@.len());
    assert("Atlantic Standard Time"@ != "Central European Standard Time"@);
    assert("Atlantic Standard Time"@.len() != "E. Europe Standard Time"@.len());
    assert("Atlantic Standard Time"@ != "E. Europe Standard Time"@);
    assert("Atlantic Standard Time"@.len() != "FLE Standard Time"@.len());
    assert("Atlantic Standard Time"@ != "FLE Standard Time"@);
    assert("Atlantic Standard Time"@.len() != "GTB Standard Time"@.len());
    assert("Atlantic Standard Time"@ != "GTB Standard Time"@);
    assert("Atlantic Standard Time"@.len() != "Russian Standard Time"@.len());
    assert("Atlantic Standard Time"@ != "Russian Standard Time"@);
    assert("Atlantic Standard Time"@.len() != "Turkey Standard Time"@.len());
    assert("Atlantic Standard Time"@ != "Turkey Standard Time"@);
    assert("Atlantic Standard Time"@.len() != "Israel Standard Time"@.len());
    assert("Atlantic Standard Time"@ != "Israel Standard Time"@);
    assert("Atlantic Standard Time"@.len() != "Arabian Standard Time"@.len());
    assert("Atlantic Standard Time"@ != "Arabian Standard Time"@);
    assert("Atlantic Standard Time"@.len() != "India Standard Time"@.len());
    assert("Atlantic Standard Time"@ != "India Standard Time"@);
    assert("Atlantic Standard Time"@.len() != "SE Asia Standard Time"@.len());
    assert("Atlantic Standard Time"@ != "SE Asia Standard Time"@);
    assert("Atlantic Standard Time"@.len() != "Singapore Standard Time"@.len());
    assert("Atlantic Standard Time"@ != "Singapore Standard Time"@);
    assert("Atlantic Standard Time"@.len() != "China Standard Time"@.len());
    assert("Atlantic Standard Time"@ != "China Standard Time"@);
    assert("Atlantic Standard Time"@.len() != "Tokyo Standard Time"@.len());
    assert("Atlantic Standard Time"@ != "Tokyo Standard Time"@);
    assert("Atlantic Standard Time"@.len() != "Korea Standard Time"@.len());
    assert("Atlantic Standard Time"@ != "Korea Standard Time"@);
    assert("Atlantic Standard Time"@.len() != "AUS Eastern Standard Time"@.len());
    assert("Atlantic Standard Time"@ != "AUS Eastern Standard Time"@);
    assert("Atlantic Standard Time"@.len() != "E. Australia Standard Time"@.len());
    assert("Atlantic Standard Time"@ != "E. Australia Standard Time"@);
    assert("Atlantic Standard Time"@.len() != "AUS Central Standard Time"@.len());
    assert("Atlantic Standard Time"@ != "AUS Central Standard Time"@);
    assert("Atlantic Standard Time"@.len() != "W. Australia Standard Time"@.len());
    assert("Atlantic Standard Time"@ != "W. Australia Standard Time"@);
    assert("Atlantic Standard Time"@.len() != "New Zealand Standard Time"@.len());
    assert("Atlantic Standard Time"@ != "New Zealand Standard Time"@);
    assert("Atlantic Standard Time"@.len() != "South Africa Standard Time"@.len());
    assert("Atlantic Standard Time"@ != "South Africa Standard Time"@);
    assert("Atlantic Standard Time"@.len() != "Egypt Standard Time"@.len());
    assert("Atlantic Standard Time"@ != "Egypt Standard Time"@);
    assert("Atlantic Standard Time"@.len() != "Eastern Standard Time"@.len());
    assert("Atlantic Standard Time"@ != "Eastern Standard Time"@);
    assert("Atlantic Standard Time"@.len() != "Central Standard Time"@.len());
    assert("Atlantic Standard Time"@ != "Central Standard Time"@);
    assert("Atlantic Standard Time"@[0] != "Mountain Standard Time"@[0]);
    assert("Atlantic Standard Time"@ != "Mountain Standard Time"@);
    assert("Atlantic Standard Time"@.len() != "US Mountain Standard Time"@.len());
    assert("Atlantic Standard Time"@ != "US Mountain Standard Time"@);
    assert("Atlantic Standard Time"@.len() != "Pacific Standard Time"@.len());
    assert("Atlantic Standard Time"@ != "Pacific Standard Time"@);
    assert("Atlantic Standard Time"@.len() != "Alaskan Standard Time"@.len());
    assert("Atlantic Standard Time"@ != "Alaskan Standard Time"@);
    assert("Atlantic Standard Time"@[0] != "Hawaiian Standard Time"@[0]);
    assert("Atlantic Standard Time"@ != "Hawaiian Standard Time"@);
}

proof fn lemma_windows_entry_37()
    ensures
        windows_zone("Newfoundland Standard Time"@) == Some("America/St_Johns"@),
{
    reveal_strlit("Newfoundland Standard Time");
    reveal_strlit("America/St_Johns");
    reveal_strlit("UTC");
    reveal_strlit("Coordinated Universal Time");
    reveal_strlit("GMT");
    reveal_strlit("GMT Standard Time");
    reveal_strlit("Greenwich Standard Time");
    reveal_strlit("W. Europe Standard Time");
    reveal_strlit("Romance Standard Time");
    reveal_strlit("Central Europe Standard Time");
    reveal_strlit("Central European Standard Time");
    reveal_strlit("E. Europe Standard Time");
    reveal_strlit("FLE Standard Time");
    reveal_strlit("GTB Standard Time");
    reveal_strlit("Russian Standard Time");
    reveal_strlit("Turkey Standard Time");
    reveal_strlit("Israel Standard Time");
    reveal_strlit("Arabian Standard Time");
    reveal_strlit("India Standard Time");
    reveal_strlit("SE Asia Standard Time");
    reveal_strlit("Singapore Standard Time");
    reveal_strlit("China Standard Time");
    reveal_strlit("Tokyo Standard Time");
    reveal_strlit("Korea Standard Time");
    reveal_strlit("AUS Eastern Standard Time");
    reveal_strlit("E. Australia Standard Time");
    reveal_strlit("AUS Central Standard Time");
    reveal_strlit("W. Australia Standard Time");
    reveal_strlit("New Zealand Standard Time");
    reveal_strlit("South Africa Standard Time");
    reveal_strlit("Egypt Standard Time");
    reveal_strlit("Eastern Standard Time");
    reveal_strlit("Central Standard Time");
    reveal_strlit("Mountain Standard Time");
    reveal_strlit("US Mountain Standard Time");
    reveal_strlit("Pacific Standard Time");
    reveal_strlit("Alaskan Standard Time");
    reveal_strlit("Hawaiian Standard Time");
    reveal_strlit("Atlantic Standard Time");
    assert("Newfoundland Standard Time"@.len() != "UTC"@.len());
    assert("Newfoundland Standard Time"@ != "UTC"@);
    assert("Newfoundland Standard Time"@[0] != "Coordinated Universal Time"@[0]);
    assert("Newfoundland Standard Time"@ != "Coordinated Universal Time"@);
    assert("Newfoundland Standard Time"@.len() != "GMT"@.len());
    assert("Newfoundland Standard Time"@ != "GMT"@);
    assert("Newfoundland Standard Time"@.len() != "GMT Standard Time"@.len());
    assert("Newfoundland Standard Time"@ != "GMT Standard Time"@);
    assert("Newfoundland Standard Time"@.len() != "Greenwich Standard Time"@.len());
    assert("Newfoundland Standard Time"@ != "Greenwich Standard Time"@);
    assert("Newfoundland Standard Time"@.len() != "W. Europe Standard Time"@.len());
    assert("Newfoundland Standard Time"@ != "W. Europe Standard Time"@);
    assert("Newfoundland Standard Time"@.len() != "Romance Standard Time"@.len());
    assert("Newfoundland Standard Time"@ != "Romance Standard Time"@);
    assert("Newfoundland Standard Time"@.len() != "Central Europe Standard Time"@.len());
    assert("Newfoundland Standard Time"@ != "Central Europe Standard Time"@);
    assert("Newfoundland Standard Time"@.len() != "Central European Standard Time"@.len());
    assert("Newfoundland Standard Time"@ != "Central European Standard Time"@);
    assert("Newfoundland Standard Time"@.len() != "E. Europe Standard Time"@.len());
    assert("Newfoundland Standard Time"@ != "E. Europe Standard Time"@);
    assert("Newfoundland Standard Time"@.len() != "FLE Standard Time"@.len());
    assert("Newfoundland Standard Time"@ != "FLE Standard Time"@);
    assert("Newfoundland Standard Time"@.len() != "GTB Standard Time"@.len());
    assert("Newfoundland Standard Time"@ != "GTB Standard Time"@);
    assert("Newfoundland Standard Time"@.len() != "Russian Standard Time"@.len());
    assert("Newfoundland Standard Time"@ != "Russian Standard Time"@);
    assert("Newfoundland Standard Time"@.len() != "Turkey Standard Time"@.len());
    assert("Newfoundland Standard Time"@ != "Turkey Standard Time"@);
    assert("Newfoundland Standard Time"@.len() != "Israel Standard Time"@.len());
    assert("Newfoundland Standard Time"@ != "Israel Standard Time"@);
    assert("Newfoundland Standard Time"@.len() != "Arabian Standard Time"@.len());
    assert("Newfoundland Standard Time"@ != "Arabian Standard Time"@);
    assert("Newfoundland Standard Time"@.len() != "India Standard Time"@.len());
    assert("Newfoundland Standard Time"@ != "India Standard Time"@);
    assert("Newfoundland Standard Time"@.len() != "SE Asia Standard Time"@.len());
    assert("Newfoundland Standard Time"@ != "SE Asia Standard Time"@);
    assert("Newfoundland Standard Time"@.len() != "Singapore Standard Time"@.len());
    assert("Newfoundland Standard Time"@ != "Singapore Standard Time"@);
    assert("Newfoundland Standard Time"@.len() != "China Standard Time"@.len());
    assert("Newfoundland Standard Time"@ != "China Standard Time"@);
    assert("Newfoundland Standard Time"@.len() != "Tokyo Standard Time"@.len());
    assert("Newfoundland Standard Time"@ != "Tokyo Standard Time"@);
    assert("Newfoundland Standard Time"@.len() != "Korea Standard Time"@.len());
    assert("Newfoundland Standard Time"@ != "Korea Standard Time"@);
    assert("Newfoundland Standard Time"@.len() != "AUS Eastern Standard Time"@.len());
    assert("Newfoundland Standard Time"@ != "AUS Eastern Standard Time"@);
    assert("Newfoundland Standard Time"@[0] != "E. Australia Standard Time"@[0]);
    assert("Newfoundland Standard Time"@ != "E. Australia Standard Time"@);
    assert("Newfoundland Standard Time"@.len() != "AUS Central Standard Time"@.len());
    assert("Newfoundland Standard Time"@ != "AUS Central Standard Time"@);
    assert("Newfoundland Standard Time"@[0] != "W. Australia Standard Time"@[0]);
    assert("Newfoundland Standard Time"@ != "W. Australia Standard Time"@);
    assert("Newfoundland Standard Time"@.len() != "New Zealand Standard Time"@.len());
    assert("Newfoundland Standard Time"@ != "New Zealand Standard Time"@);
    assert("Newfoundland Standard Time"@[0] != "South Africa Standard Time"@[0]);
    assert("Newfoundland Standard Time"@ != "South Africa Standard Time"@);
    assert("Newfoundland Standard Time"@.len() != "Egypt Standard Time"@.len());
    assert("Newfoundland Standard Time"@ != "Egypt Standard Time"@);
    assert("Newfoundland Standard Time"@.len() != "Eastern Standard Time"@.len());
    assert("Newfoundland Standard Time"@ != "Eastern Standard Time"@);
    assert("Newfoundland Standard Time"@.len() != "Central Standard Time"@.len());
    assert("Newfoundland Standard Time"@ != "Central Standard Time"@);
    assert("Newfoundland Standard Time"@.len() != "Mountain Standard Time"@.len());
    assert("Newfoundland Standard Time"@ != "Mountain Standard Time"@);
    assert("Newfoundland Standard Time"@.len() != "US Mountain Standard Time"@.len());
    assert("Newfoundland Standard Time"@ != "US Mountain Standard Time"@);
    assert("Newfoundland Standard Time"@.len() != "Pacific Standard Time"@.len());
    assert("Newfoundland Standard Time"@ != "Pacific Standard Time"@);
    assert("Newfoundland Standard Time"@.len() != "Alaskan Standard Time"@.len());
    assert("Newfoundland Standard Time"@ != "Alaskan Standard Time"@);
    assert("Newfoundland Standard Time"@.len() != "Hawaiian Standard Time"@.len());
    assert("Newfoundland Standard Time"@ != "Hawaiian Standard Time"@);
    assert("Newfoundland Standard Time"@.len() != "Atlantic Standard Time"@.len());
    assert("Newfoundland Standard Time"@ != "Atlantic Standard Time"@);
}

proof fn lemma_windows_entry_38()
    ensures
        windows_zone("SA Pacific Standard Time"@) == Some("America/Bogota"@),
{
    reveal_strlit("SA Pacific Standard Time");
    reveal_strlit("America/Bogota");
    reveal_strlit("UTC");
    reveal_strlit("Coordinated Universal Time");
    reveal_strlit("GMT");
    reveal_strlit("GMT Standard Time");
    reveal_strlit("Greenwich Standard Time");
    reveal_strlit("W. Europe Standard Time");
    reveal_strlit("Romance Standard Time");
    reveal_strlit("Central Europe Standard Time");
    reveal_strlit("Central European Standard Time");
    reveal_strlit("E. Europe Standard Time");
    reveal_strlit("FLE Standard Time");
    reveal_strlit("GTB Standard Time");
    reveal_strlit("Russian Standard Time");
    reveal_strlit("Turkey Standard Time");
    reveal_strlit("Israel Standard Time");
    reveal_strlit("Arabian Standard Time");
    reveal_strlit("India Standard Time");
    reveal_strlit("SE Asia Standard Time");
    reveal_strlit("Singapore Standard Time");
    reveal_strlit("China Standard Time");
    reveal_strlit("Tokyo Standard Time");
    reveal_strlit("Korea Standard Time");
    reveal_strlit("AUS Eastern Standard Time");
    reveal_strlit("E. Australia Standard Time");
    reveal_strlit("AUS Central Standard Time");
    reveal_strlit("W. Australia Standard Time");
    reveal_strlit("New Zealand Standard Time");
    reveal_strlit("South Africa Standard Time");
    reveal_strlit("Egypt Standard Time");
    reveal_strlit("Eastern Standard Time");
    reveal_strlit("Central Standard Time");
    reveal_strlit("Mountain Standard Time");
    reveal_strlit("US Mountain Standard Time");
    reveal_strlit("Pacific Standard Time");
    reveal_strlit("Alaskan Standard Time");
    reveal_strlit("Hawaiian Standard Time");
    reveal_strlit("Atlantic Standard Time");
    reveal_strlit("Newfoundland Standard Time");
    assert("SA Pacific Standard Time"@.len() != "UTC"@.len());
    assert("SA Pacific Standard Time"@ != "UTC"@);
    assert("SA Pacific Standard Time"@.len() != "Coordinated Universal Time"@.len());
    assert("SA Pacific Standard Time"@ != "Coordinated Universal Time"@);
    assert("SA Pacific Standard Time"@.len() != "GMT"@.len());
    assert("SA Pacific Standard Time"@ != "GMT"@);
    assert("SA Pacific Standard Time"@.len() != "GMT Standard Time"@.len());
    assert("SA Pacific Standard Time"@ != "GMT Standard Time"@);
    assert("SA Pacific Standard Time"@.len() != "Greenwich Standard Time"@.len());
    assert("SA Pacific Standard Time"@ != "Greenwich Standard Time"@);
    assert("SA Pacific Standard Time"@.len() != "W. Europe Standard Time"@.len());
    assert("SA Pacific Standard Time"@ != "W. Europe Standard Time"@);
    assert("SA Pacific Standard Time"@.len() != "Romance Standard Time"@.len());
    assert("SA Pacific Standard Time"@ != "Romance Standard Time"@);
    assert("SA Pacific Standard Time"@.len() != "Central Europe Standard Time"@.len());
    assert("SA Pacific Standard Time"@ != "Central Europe Standard Time"@);
    assert("SA Pacific Standard Time"@.len() != "Central European Standard Time"@.len());
    assert("SA Pacific Standard Time"@ != "Central European Standard Time"@);
    assert("SA Pacific Standard Time"@.len() != "E. Europe Standard Time"@.len());
    assert("SA Pacific Standard Time"@ != "E. Europe Standard Time"@);
    assert("SA Pacific Standard Time"@.len() != "FLE Standard Time"@.len());
    assert("SA Pacific Standard Time"@ != "FLE Standard Time"@);
    assert("SA Pacific Standard Time"@.len() != "GTB Standard Time"@.len());
    assert("SA Pacific Standard Time"@ != "GTB Standard Time"@);
    assert("SA Pacific Standard Time"@.len() != "Russian Standard Time"@.len());
    assert("SA Pacific Standard Time"@ != "Russian Standard Time"@);
    assert("SA Pacific Standard Time"@.len() != "Turkey Standard Time"@.len());
    assert("SA Pacific Standard Time"@ != "Turkey Standard Time"@);
    assert("SA Pacific Standard Time"@.len() != "Israel Standard Time"@.len());
    assert("SA Pacific Standard Time"@ != "Israel Standard Time"@);
    assert("SA Pacific Standard Time"@.len() != "Arabian Standard Time"@.len());
    assert("SA Pacific Standard Time"@ != "Arabian Standard Time"@);
    assert("SA Pacific Standard Time"@.len() != "India Standard Time"@.len());
    assert("SA Pacific Standard Time"@ != "India Standard Time"@);
    assert("SA Pacific Standard Time"@.len() != "SE Asia Standard Time"@.len());
    assert("SA Pacific Standard Time"@ != "SE Asia Standard Time"@);
    assert("SA Pacific Standard Time"@.len() != "Singapore Standard Time"@.len());
    assert("SA Pacific Standard Time"@ != "Singapore Standard Time"@);
    assert("SA Pacific Standard Time"@.len() != "China Standard Time"@.len());
    assert("SA Pacific Standard Time"@ != "China Standard Time"@);
    assert("SA Pacific Standard Time"@.len() != "Tokyo Standard Time"@.len());
    assert("SA Pacific Standard Time"@ != "Tokyo Standard Time"@);
    assert("SA Pacific Standard Time"@.len() != "Korea Standard Time"@.len());
    assert("SA Pacific Standard Time"@ != "Korea Standard Time"@);
    assert("SA Pacific Standard Time"@.len() != "AUS Eastern Standard Time"@.len());
    assert("SA Pacific Standard Time"@ != "AUS Eastern Standard Time"@);
    assert("SA Pacific Standard Time"@.len() != "E. Australia Standard Time"@.len());
    assert("SA Pacific Standard Time"@ != "E. Australia Standard Time"@);
    assert("SA Pacific Standard Time"@.len() != "AUS Central Standard Time"@.len());
    assert("SA Pacific Standard Time"@ != "AUS Central Standard Time"@);
    assert("SA Pacific Standard Time"@.len() != "W. Australia Standard Time"@.len());
    assert("SA Pacific Standard Time"@ != "W. Australia Standard Time"@);
    assert("SA Pacific Standard Time"@.len() != "New Zealand Standard Time"@.len());
    assert("SA Pacific Standard Time"@ != "New Zealand Standard Time"@);
    assert("SA Pacific Standard Time"@.len() != "South Africa Standard Time"@.len());
    assert("SA Pacific Standard Time"@ != "South Africa Standard Time"@);
    assert("SA Pacific Standard Time"@.len() != "Egypt Standard Time"@.len());
    assert("SA Pacific Standard Time"@ != "Egypt Standard Time"@);
    assert("SA Pacific Standard Time"@.len() != "Eastern Standard Time"@.len());
    assert("SA Pacific Standard Time"@ != "Eastern Standard Time"@);
    assert("SA Pacific Standard Time"@.len() != "Central Standard Time"@.len());
    assert("SA Pacific Standard Time"@ != "Central Standard Time"@);
    assert("SA Pacific Standard Time"@.len() != "Mountain Standard Time"@.len());
    assert("SA Pacific Standard Time"@ != "Mountain Standard Time"@);
    assert("SA Pacific Standard Time"@.len() != "US Mountain Standard Time"@.len());
    assert("SA Pacific Standard Time"@ != "US Mountain Standard Time"@);
    assert("SA Pacific Standard Time"@.len() != "Pacific Standard Time"@.len());
    assert("SA Pacific Standard Time"@ != "Pacific Standard Time"@);
    assert("SA Pacific Standard Time"@.len() != "Alaskan Standard Time"@.len());
    assert("SA Pacific Standard Time"@ != "Alaskan Standard Time"@);
    assert("SA Pacific Standard Time"@.len() != "Hawaiian Standard Time"@.len());
    assert("SA Pacific Standard Time"@ != "Hawaiian Standard Time"@);
    assert("SA Pacific Standard Time"@.len() != "Atlantic Standard Time"@.len());
    assert("SA Pacific Standard Time"@ != "Atlantic Standard Time"@);
    assert("SA Pacific Standard Time"@.len() != "Newfoundland Standard Time"@.len());
    assert("SA Pacific Standard Time"@ != "Newfoundland Standard Time"@);
}

proof fn lemma_windows_entry_39()
    ensures
        windows_zone("Argentina Standard Time"@) == Some("America/Buenos_Aires"@),
{
    reveal_strlit("Argentina Standard Time");
    reveal_strlit("America/Buenos_Aires");
    reveal_strlit("UTC");
    reveal_strlit("Coordinated Universal Time");
    reveal_strlit("GMT");
    reveal_strlit("GMT Standard Time");
    reveal_strlit("Greenwich Standard Time");
    reveal_strlit("W. Europe Standard Time");
    reveal_strlit("Romance Standard Time");
    reveal_strlit("Central Europe Standard Time");
    reveal_strlit("Central European Standard Time");
    reveal_strlit("E. Europe Standard Time");
    reveal_strlit("FLE Standard Time");
    reveal_strlit("GTB Standard Time");
    reveal_strlit("Russian Standard Time");
    reveal_strlit("Turkey Standard Time");
    reveal_strlit("Israel Standard Time");
    reveal_strlit("Arabian Standard Time");
    reveal_strlit("India Standard Time");
    reveal_strlit("SE Asia Standard Time");
    reveal_strlit("Singapore Standard Time");
    reveal_strlit("China Standard Time");
    reveal_strlit("Tokyo Standard Time");
    reveal_strlit("Korea Standard Time");
    reveal_strlit("AUS Eastern Standard Time");
    reveal_strlit("E. Australia Standard Time");
    reveal_strlit("AUS Central Standard Time");
    reveal_strlit("W. Australia Standard Time");
    reveal_strlit("New Zealand Standard Time");
    reveal_strlit("South Africa Standard Time");
    reveal_strlit("Egypt Standard Time");
    reveal_strlit("Eastern Standard Time");
    reveal_strlit("Central Standard Time");
    reveal_strlit("Mountain Standard Time");
    reveal_strlit("US Mountain Standard Time");
    reveal_strlit("Pacific Standard Time");
    reveal_strlit("Alaskan Standard Time");
    reveal_strlit("Hawaiian Standard Time");
    reveal_strlit("Atlantic Standard Time");
    reveal_strlit("Newfoundland Standard Time");
    reveal_strlit("SA Pacific Standard Time");
    assert("Argentina Standard Time"@.len() != "UTC"@.len());
    assert("Argentina Standard Time"@ != "UTC"@);
    assert("Argentina Standard Time"@.len() != "Coordinated Universal Time"@.len());
    assert("Argentina Standard Time"@ != "Coordinated Universal Time"@);
    assert("Argentina Standard Time"@.len() != "GMT"@.len());
    assert("Argentina Standard Time"@ != "GMT"@);
    assert("Argentina Standard Time"@.len() != "GMT Standard Time"@.len());
    assert("Argentina Standard Time"@ != "GMT Standard Time"@);
    assert("Argentina Standard Time"@[0] != "Greenwich Standard Time"@[0]);
    assert("Argentina Standard Time"@ != "Greenwich Standard Time"@);
    assert("Argentina Standard Time"@[0] != "W. Europe Standard Time"@[0]);
    assert("Argentina Standard Time"@ != "W. Europe Standard Time"@);
    assert("Argentina Standard Time"@.len() != "Romance Standard Time"@.len());
    assert("Argentina Standard Time"@ != "Romance Standard Time"@);
    assert("Argentina Standard Time"@.len() != "Central Europe Standard Time"@.len());
    assert("Argentina Standard Time"@ != "Central Europe Standard Time"@);
    assert("Argentina Standard Time"@.len() != "Central European Standard Time"@.len());
    assert("Argentina Standard Time"@ != "Central European Standard Time"@);
    assert("Argentina Standard Time"@[0] != "E. Europe Standard Time"@[0]);
    assert("Argentina Standard Time"@ != "E. Europe Standard Time"@);
    assert("Argentina Standard Time"@.len() != "FLE Standard Time"@.len());
    assert("Argentina Standard Time"@ != "FLE Standard Time"@);
    assert("Argentina Standard Time"@.len() != "GTB Standard Time"@.len());
    assert("Argentina Standard Time"@ != "GTB Standard Time"@);
    assert("Argentina Standard Time"@.len() != "Russian Standard Time"@.len());
    assert("Argentina Standard Time"@ != "Russian Standard Time"@);
    assert("Argentina Standard Time"@.len() != "Turkey Standard Time"@.len());
    assert("Argentina Standard Time"@ != "Turkey Standard Time"@);
    assert("Argentina Standard Time"@.len() != "Israel Standard Time"@.len());
    assert("Argentina Standard Time"@ != "Israel Standard Time"@);
    assert("Argentina Standard Time"@.len() != "Arabian Standard Time"@.len());
    assert("Argentina Standard Time"@ != "Arabian Standard Time"@);
    assert("Argentina Standard Time"@.len() != "India Standard Time"@.len());
    assert("Argentina Standard Time"@ != "India Standard Time"@);
    assert("Argentina Standard Time"@.len() != "SE Asia Standard Time"@.len());
    assert("Argentina Standard Time"@ != "SE Asia Standard Time"@);
    assert("Argentina Standard Time"@[0] != "Singapore Standard Time"@[0]);
    assert("Argentina Standard Time"@ != "Singapore Standard Time"@);
    assert("Argentina Standard Time"@.len() != "China Standard Time"@.len());
    assert("Argentina Standard Time"@ != "China Standard Time"@);
    assert("Argentina Standard Time"@.len() != "Tokyo Standard Time"@.len());
    assert("Argentina Standard Time"@ != "Tokyo Standard Time"@);
    assert("Argentina Standard Time"@.len() != "Korea Standard Time"@.len());
    assert("Argentina Standard Time"@ != "Korea Standard Time"@);
    assert("Argentina Standard Time"@.len() != "AUS Eastern Standard Time"@.len());
    assert("Argentina Standard Time"@ != "AUS Eastern Standard Time"@);
    assert("Argentina Standard Time"@.len() != "E. Australia Standard Time"@.len());
    assert("Argentina Standard Time"@ != "E. Australia Standard Time"@);
    assert("Argentina Standard Time"@.len() != "AUS Central Standard Time"@.len());
    assert("Argentina Standard Time"@ != "AUS Central Standard Time"@);
    assert("Argentina Standard Time"@.len() != "W. Australia Standard Time"@.len());
    assert("Argentina Standard Time"@ != "W. Australia Standard Time"@);
    assert("Argentina Standard Time"@.len() != "New Zealand Standard Time"@.len());
    assert("Argentina Standard Time"@ != "New Zealand Standard Time"@);
    assert("Argentina Standard Time"@.len() != "South Africa Standard Time"@.len());
    assert("Argentina Standard Time"@ != "South Africa Standard Time"@);
    assert("Argentina Standard Time"@.len() != "Egypt Standard Time"@.len());
    assert("Argentina Standard Time"@ != "Egypt Standard Time"@);
    assert("Argentina Standard Time"@.len() != "Eastern Standard Time"@.len());
    assert("Argentina Standard Time"@ != "Eastern Standard Time"@);
    assert("Argentina Standard Time"@.len() != "Central Standard Time"@.len());
    assert("Argentina Standard Time"@ != "Central Standard Time"@);
    assert("Argentina Standard Time"@.len() != "Mountain Standard Time"@.len());
    assert("Argentina Standard Time"@ != "Mountain Standard Time"@);
    assert("Argentina Standard Time"@.len() != "US Mountain Standard Time"@.len());
    assert("Argentina Standard Time"@ != "US Mountain Standard Time"@);
    assert("Argentina Standard Time"@.len() != "Pacific Standard Time"@.len());
    assert("Argentina Standard Time"@ != "Pacific Standard Time"@);
    assert("Argentina Standard Time"@.len() != "Alaskan Standard Time"@.len());
    assert("Argentina Standard Time"@ != "Alaskan Standard Time"@);
    assert("Argentina Standard Time"@.len() != "Hawaiian Standard Time"@.len());
    assert("Argentina Standard Time"@ != "Hawaiian Standard Time"@);
    assert("Argentina Standard Time"@.len() != "Atlantic Standard Time"@.len());
    assert("Argentina Standard Time"@ != "Atlantic Standard Time"@);
    assert("Argentina Standard Time"@.len() != "Newfoundland Standard Time"@.len());
    assert("Argentina Standard Time"@ != "Newfoundland Standard Time"@);
    assert("Argentina Standard Time"@.len() != "SA Pacific Standard Time"@.len());
    assert("Argentina Standard Time"@ != "SA Pacific Standard Time"@);
}

proof fn lemma_windows_entry_40()
    ensures
        windows_zone("E. South America Standard Time"@) == Some("America/Sao_Paulo"@),
{
    reveal_strlit("E. South America Standard Time");
    reveal_strlit("America/Sao_Paulo");
    reveal_strlit("UTC");
    reveal_strlit("Coordinated Universal Time");
    reveal_strlit("GMT");
    reveal_strlit("GMT Standard Time");
    reveal_strlit("Greenwich Standard Time");
    reveal_strlit("W. Europe Standard Time");
    reveal_strlit("Romance Standard Time");
    reveal_strlit("Central Europe Standard Time");
    reveal_strlit("Central European Standard Time");
    reveal_strlit("E. Europe Standard Time");
    reveal_strlit("FLE Standard Time");
    reveal_strlit("GTB Standard Time");
    reveal_strlit("Russian Standard Time");
    reveal_strlit("Turkey Standard Time");
    reveal_strlit("Israel Standard Time");
    reveal_strlit("Arabian Standard Time");
    reveal_strlit("India Standard Time");
    reveal_strlit("SE Asia Standard Time");
    reveal_strlit("Singapore Standard Time");
    reveal_strlit("China Standard Time");
    reveal_strlit("Tokyo Standard Time");
    reveal_strlit("Korea Standard Time");
    reveal_strlit("AUS Eastern Standard Time");
    reveal_strlit("E. Australia Standard Time");
    reveal_strlit("AUS Central Standard Time");
    reveal_strlit("W. Australia Standard Time");
    reveal_strlit("New Zealand Standard Time");
    reveal_strlit("South Africa Standard Time");
    reveal_strlit("Egypt Standard Time");
    reveal_strlit("Eastern Standard Time");
    reveal_strlit("Central Standard Time");
    reveal_strlit("Mountain Standard Time");
    reveal_strlit("US Mountain Standard Time");
    reveal_strlit("Pacific Standard Time");
    reveal_strlit("Alaskan Standard Time");
    reveal_strlit("Hawaiian Standard Time");
    reveal_strlit("Atlantic Standard Time");
    reveal_strlit("Newfoundland Standard Time");
    reveal_strlit("SA Pacific Standard Time");
    reveal_strlit("Argentina Standard Time");
    assert("E. South America Standard Time"@.len() != "UTC"@.len());
    assert("E. South America Standard Time"@ != "UTC"@);
    assert("E. South America Standard Time"@.len() != "Coordinated Universal Time"@.len());
    assert("E. South America Standard Time"@ != "Coordinated Universal Time"@);
    assert("E. South America Standard Time"@.len() != "GMT"@.len());
    assert("E. South America Standard Time"@ != "GMT"@);
    assert("E. South America Standard Time"@.len() != "GMT Standard Time"@.len());
    assert("E. South America Standard Time"@ != "GMT Standard Time"@);
    assert("E. South America Standard Time"@.len() != "Greenwich Standard Time"@.len());
    assert("E. South America Standard Time"@ != "Greenwich Standard Time"@);
    assert("E. South America Standard Time"@.len() != "W. Europe Standard Time"@.len());
    assert("E. South America Standard Time"@ != "W. Europe Standard Time"@);
    assert("E. South America Standard Time"@.len() != "Romance Standard Time"@.len());
    assert("E. South America Standard Time"@ != "Romance Standard Time"@);
    assert("E. South America Standard Time"@.len() != "Central Europe Standard Time"@.len());
    assert("E. South America Standard Time"@ != "Central Europe Standard Time"@);
    assert("E. South America Standard Time"@[0] != "Central European Standard Time"@[0]);
    assert("E. South America Standard Time"@ != "Central European Standard Time"@);
    assert("E. South America Standard Time"@.len() != "E. Europe Standard Time"@.len());
    assert("E. South America Standard Time"@ != "E. Europe Standard Time"@);
    assert("E. South America Standard Time"@.len() != "FLE Standard Time"@.len());
    assert("E. South America Standard Time"@ != "FLE Standard Time"@);
    assert("E. South America Standard Time"@.len() != "GTB Standard Time"@.len());
    assert("E. South America Standard Time"@ != "GTB Standard Time"@);
    assert("E. South America Standard Time"@.len() != "Russian Standard Time"@.len());
    assert("E. South America Standard Time"@ != "Russian Standard Time"@);
    assert("E. South America Standard Time"@.len() != "Turkey Standard Time"@.len());
    assert("E. South America Standard Time"@ != "Turkey Standard Time"@);
    assert("E. South America Standard Time"@.len() != "Israel Standard Time"@.len());
    assert("E. South America Standard Time"@ != "Israel Standard Time"@);
    assert("E. South America Standard Time"@.len() != "Arabian Standard Time"@.len());
    assert("E. South America Standard Time"@ != "Arabian Standard Time"@);
    assert("E. South America Standard Time"@.len() != "India Standard Time"@.len());
    assert("E. South America Standard Time"@ != "India Standard Time"@);
    assert("E. South America Standard Time"@.len() != "SE Asia Standard Time"@.len());
    assert("E. South America Standard Time"@ != "SE Asia Standard Time"@);
    assert("E. South America Standard Time"@.len() != "Singapore Standard Time"@.len());
    assert("E. South America Standard Time"@ != "Singapore Standard Time"@);
    assert("E. South America Standard Time"@.len() != "China Standard Time"@.len());
    assert("E. South America Standard Time"@ != "China Standard Time"@);
    assert("E. South America Standard Time"@.len() != "Tokyo Standard Time"@.len());
    assert("E. South America Standard Time"@ != "Tokyo Standard Time"@);
    assert("E. South America Standard Time"@.len() != "Korea Standard Time"@.len());
    assert("E. South America Standard Time"@ != "Korea Standard Time"@);
    assert("E. South America Standard Time"@.len() != "AUS Eastern Standard Time"@.len());
    assert("E. South America Standard Time"@ != "AUS Eastern Standard Time"@);
    assert("E. South America Standard Time"@.len() != "E. Australia Standard Time"@.len());
    assert("E. South America Standard Time"@ != "E. Australia Standard Time"@);
    assert("E. South America Standard Time"@.len() != "AUS Central Standard Time"@.len());
    assert("E. South America Standard Time"@ != "AUS Central Standard Time"@);
    assert("E. South America Standard Time"@.len() != "W. Australia Standard Time"@.len());
    assert("E. South America Standard Time"@ != "W. Australia Standard Time"@);
    assert("E. South America Standard Time"@.len() != "New Zealand Standard Time"@.len());
    assert("E. South America Standard Time"@ != "New Zealand Standard Time"@);
    assert("E. South America Standard Time"@.len() != "South Africa Standard Time"@.len());
    assert("E. South America Standard Time"@ != "South Africa Standard Time"@);
    assert("E. South America Standard Time"@.len() != "Egypt Standard Time"@.len());
    assert("E. South America Standard Time"@ != "Egypt Standard Time"@);
    assert("E. South America Standard Time"@.len() != "Eastern Standard Time"@.len());
    assert("E. South America Standard Time"@ != "Eastern Standard Time"@);
    assert("E. South America Standard Time"@.len() != "Central Standard Time"@.len());
    assert("E. South America Standard Time"@ != "Central Standard Time"@);
    assert("E. South America Standard Time"@.len() != "Mountain Standard Time"@.len());
    assert("E. South America Standard Time"@ != "Mountain Standard Time"@);
    assert("E. South America Standard Time"@.len() != "US Mountain Standard Time"@.len());
    assert("E. South America Standard Time"@ != "US Mountain Standard Time"@);
    assert("E. South America Standard Time"@.len() != "Pacific Standard Time"@.len());
    assert("E. South America Standard Time"@ != "Pacific Standard Time"@);
    assert("E. South America Standard Time"@.len() != "Alaskan Standard Time"@.len());
    assert("E. South America Standard Time"@ != "Alaskan Standard Time"@);
    assert("E. South America Standard Time"@.len() != "Hawaiian Standard Time"@.len());
    assert("E. South America Standard Time"@ != "Hawaiian Standard Time"@);
    assert("E. South America Standard Time"@.len() != "Atlantic Standard Time"@.len());
    assert("E. South America Standard Time"@ != "Atlantic Standard Time"@);
    assert("E. South America Standard Time"@.len() != "Newfoundland Standard Time"@.len());
    assert("E. South America Standard Time"@ != "Newfoundland Standard Time"@);
    assert("E. South America Standard Time"@.len() != "SA Pacific Standard Time"@.len());
    assert("E. South America Standard Time"@ != "SA Pacific Standard Time"@);
    assert("E. South America Standard Time"@.len() != "Argentina Standard Time"@.len());
    assert("E. South America Standard Time"@ != "Argentina Standard Time"@);
}

proof fn lemma_windows_entry_41()
    ensures
        windows_zone("Central America Standard Time"@) == Some("America/Guatemala"@),
{
    reveal_strlit("Central America Standard Time");
    reveal_strlit("America/Guatemala");
    reveal_strlit("UTC");
    reveal_strlit("Coordinated Universal Time");
    reveal_strlit("GMT");
    reveal_strlit("GMT Standard Time");
    reveal_strlit("Greenwich Standard Time");
    reveal_strlit("W. Europe Standard Time");
    reveal_strlit("Romance Standard Time");
    reveal_strlit("Central Europe Standard Time");
    reveal_strlit("Central European Standard Time");
    reveal_strlit("E. Europe Standard Time");
    reveal_strlit("FLE Standard Time");
    reveal_strlit("GTB Standard Time");
    reveal_strlit("Russian Standard Time");
    reveal_strlit("Turkey Standard Time");
    reveal_strlit("Israel Standard Time");
    reveal_strlit("Arabian Standard Time");
    reveal_strlit("India Standard Time");
    reveal_strlit("SE Asia Standard Time");
    reveal_strlit("Singapore Standard Time");
    reveal_strlit("China Standard Time");
    reveal_strlit("Tokyo Standard Time");
    reveal_strlit("Korea Standard Time");
    reveal_strlit("AUS Eastern Standard Time");
    reveal_strlit("E. Australia Standard Time");
    reveal_strlit("AUS Central Standard Time");
    reveal_strlit("W. Australia Standard Time");
    reveal_strlit("New Zealand Standard Time");
    reveal_strlit("South Africa Standard Time");
    reveal_strlit("Egypt Standard Time");
    reveal_strlit("Eastern Standard Time");
    reveal_strlit("Central Standard Time");
    reveal_strlit("Mountain Standard Time");
    reveal_strlit("US Mountain Standard Time");
    reveal_strlit("Pacific Standard Time");
    reveal_strlit("Alaskan Standard Time");
    reveal_strlit("Hawaiian Standard Time");
    reveal_strlit("Atlantic Standard Time");
    reveal_strlit("Newfoundland Standard Time");
    reveal_strlit("SA Pacific Standard Time");
    reveal_strlit("Argentina Standard Time");
    reveal_strlit("E. South America Standard Time");
    assert("Central America Standard Time"@.len() != "UTC"@.len());
    assert("Central America Standard Time"@ != "UTC"@);
    assert("Central America Standard Time"@.len() != "Coordinated Universal Time"@.len());
    assert("Central America Standard Time"@ != "Coordinated Universal Time"@);
    assert("Central America Standard Time"@.len() != "GMT"@.len());
    assert("Central America Standard Time"@ != "GMT"@);
    assert("Central America Standard Time"@.len() != "GMT Standard Time"@.len());
    assert("Central America Standard Time"@ != "GMT Standard Time"@);
    assert("Central America Standard Time"@.len() != "Greenwich Standard Time"@.len());
    assert("Central America Standard Time"@ != "Greenwich Standard Time"@);
    assert("Central America Standard Time"@.len() != "W. Europe Standard Time"@.len());
    assert("Central America Standard Time"@ != "W. Europe Standard Time"@);
    assert("Central America Standard Time"@.len() != "Romance Standard Time"@.len());
    assert("Central America Standard Time"@ != "Romance Standard Time"@);
    assert("Central America Standard Time"@.len() != "Central Europe Standard Time"@.len());
    assert("Central America Standard Time"@ != "Central Europe Standard Time"@);
    assert("Central America Standard Time"@.len() != "Central European Standard Time"@.len());
    assert("Central America Standard Time"@ != "Central European Standard Time"@);
    assert("Central America Standard Time"@.len() != "E. Europe Standard Time"@.len());
    assert("Central America Standard Time"@ != "E. Europe Standard Time"@);
    assert("Central America Standard Time"@.len() != "FLE Standard Time"@.len());
    assert("Central America Standard Time"@ != "FLE Standard Time"@);
    assert("Central America Standard Time"@.len() != "GTB Standard Time"@.len());
    assert("Central America Standard Time"@ != "GTB Standard Time"@);
    assert("Central America Standard Time"@.len() != "Russian Standard Time"@.len());
    assert("Central America Standard Time"@ != "Russian Standard Time"@);
    assert("Central America Standard Time"@.len() != "Turkey Standard Time"@.len());
    assert("Central America Standard Time"@ != "Turkey Standard Time"@);
    assert("Central America Standard Time"@.len() != "Israel Standard Time"@.len());
    assert("Central America Standard Time"@ != "Israel Standard Time"@);
    assert("Central America Standard Time"@.len() != "Arabian Standard Time"@.len());
    assert("Central America Standard Time"@ != "Arabian Standard Time"@);
    assert("Central America Standard Time"@.len() != "India Standard Time"@.len());
    assert("Central America Standard Time"@ != "India Standard Time"@);
    assert("Central America Standard Time"@.len() != "SE Asia Standard Time"@.len());
    assert("Central America Standard Time"@ != "SE Asia Standard Time"@);
    assert("Central America Standard Time"@.len() != "Singapore Standard Time"@.len());
    assert("Central America Standard Time"@ != "Singapore Standard Time"@);
    assert("Central America Standard Time"@.len() != "China Standard Time"@.len());
    assert("Central America Standard Time"@ != "China Standard Time"@);
    assert("Central America Standard Time"@.len() != "Tokyo Standard Time"@.len());
    assert("Central America Standard Time"@ != "Tokyo Standard Time"@);
    assert("Central America Standard Time"@.len() != "Korea Standard Time"@.len());
    assert("Central America Standard Time"@ != "Korea Standard Time"@);
    assert("Central America Standard Time"@.len() != "AUS Eastern Standard Time"@.len());
    assert("Central America Standard Time"@ != "AUS Eastern Standard Time"@);
    assert("Central America Standard Time"@.len() != "E. Australia Standard Time"@.len());
    assert("Central America Standard Time"@ != "E. Australia Standard Time"@);
    assert("Central America Standard Time"@.len() != "AUS Central Standard Time"@.len());
    assert("Central America Standard Time"@ != "AUS Central Standard Time"@);
    assert("Central America Standard Time"@.len() != "W. Australia Standard Time"@.len());
    assert("Central America Standard Time"@ != "W. Australia Standard Time"@);
    assert("Central America Standard Time"@.len() != "New Zealand Standard Time"@.len());
    assert("Central America Standard Time"@ != "New Zealand Standard Time"@);
    assert("Central America Standard Time"@.len() != "South Africa Standard Time"@.len());
    assert("Central America Standard Time"@ != "South Africa Standard Time"@);
    assert("Central America Standard Time"@.len() != "Egypt Standard Time"@.len());
    assert("Central America Standard Time"@ != "Egypt Standard Time"@);
    assert("Central America Standard Time"@.len() != "Eastern Standard Time"@.len());
    assert("Central America Standard Time"@ != "Eastern Standard Time"@);
    assert("Central America Standard Time"@.len() != "Central Standard Time"@.len());
    assert("Central America Standard Time"@ != "Central Standard Time"@);
    assert("Central America Standard Time"@.len() != "Mountain Standard Time"@.len());
    assert("Central America Standard Time"@ != "Mountain Standard Time"@);
    assert("Central America Standard Time"@.len() != "US Mountain Standard Time"@.len());
    assert("Central America Standard Time"@ != "US Mountain Standard Time"@);
    assert("Central America Standard Time"@.len() != "Pacific Standard Time"@.len());
    assert("Central America Standard Time"@ != "Pacific Standard Time"@);
    assert("Central America Standard Time"@.len() != "Alaskan Standard Time"@.len());
    assert("Central America Standard Time"@ != "Alaskan Standard Time"@);
    assert("Central America Standard Time"@.len() != "Hawaiian Standard Time"@.len());
    assert("Central America Standard Time"@ != "Hawaiian Standard Time"@);
    assert("Central America Standard Time"@.len() != "Atlantic Standard Time"@.len());
    assert("Central America Standard Time"@ != "Atlantic Standard Time"@);
    assert("Central America Standard Time"@.len() != "Newfoundland Standard Time"@.len());
    assert("Central America Standard Time"@ != "Newfoundland Standard Time"@);
    assert("Central America Standard Time"@.len() != "SA Pacific Standard Time"@.len());
    assert("Central America Standard Time"@ != "SA Pacific Standard Time"@);
    assert("Central America Standard Time"@.len() != "Argentina Standard Time"@.len());
    assert("Central America Standard Time"@ != "Argentina Standard Time"@);
    assert("Central America Standard Time"@.len() != "E. South America Standard Time"@.len());
    assert("Central America Standard Time"@ != "E. South America Standard Time"@);
}

proof fn lemma_windows_entry_42()
    ensures
        windows_zone("Mexico Standard Time"@) == Some("America/Mexico_City"@),
{
    reveal_strlit("Mexico Standard Time");
    reveal_strlit("America/Mexico_City");
    reveal_strlit("UTC");
    reveal_strlit("Coordinated Universal Time");
    reveal_strlit("GMT");
    reveal_strlit("GMT Standard Time");
    reveal_strlit("Greenwich Standard Time");
    reveal_strlit("W. Europe Standard Time");
    reveal_strlit("Romance Standard Time");
    reveal_strlit("Central Europe Standard Time");
    reveal_strlit("Central European Standard Time");
    reveal_strlit("E. Europe Standard Time");
    reveal_strlit("FLE Standard Time");
    reveal_strlit("GTB Standard Time");
    reveal_strlit("Russian Standard Time");
    reveal_strlit("Turkey Standard Time");
    reveal_strlit("Israel Standard Time");
    reveal_strlit("Arabian Standard Time");
    reveal_strlit("India Standard Time");
    reveal_strlit("SE Asia Standard Time");
    reveal_strlit("Singapore Standard Time");
    reveal_strlit("China Standard Time");
    reveal_strlit("Tokyo Standard Time");
    reveal_strlit("Korea Standard Time");
    reveal_strlit("AUS Eastern Standard Time");
    reveal_strlit("E. Australia Standard Time");
    reveal_strlit("AUS Central Standard Time");
    reveal_strlit("W. Australia Standard Time");
    reveal_strlit("New Zealand Standard Time");
    reveal_strlit("South Africa Standard Time");
    reveal_strlit("Egypt Standard Time");
    reveal_strlit("Eastern Standard Time");
    reveal_strlit("Central Standard Time");
    reveal_strlit("Mountain Standard Time");
    reveal_strlit("US Mountain Standard Time");
    reveal_strlit("Pacific Standard Time");
    reveal_strlit("Alaskan Standard Time");
    reveal_strlit("Hawaiian Standard Time");
    reveal_strlit("Atlantic Standard Time");
    reveal_strlit("Newfoundland Standard Time");
    reveal_strlit("SA Pacific Standard Time");
    reveal_strlit("Argentina Standard Time");
    reveal_strlit("E. South America Standard Time");
    reveal_strlit("Central America Standard Time");
    assert("Mexico Standard Time"@.len() != "UTC"@.len());
    assert("Mexico Standard Time"@ != "UTC"@);
    assert("Mexico Standard Time"@.len() != "Coordinated Universal Time"@.len());
    assert("Mexico Standard Time"@ != "Coordinated Universal Time"@);
    assert("Mexico Standard Time"@.len() != "GMT"@.len());
    assert("Mexico Standard Time"@ != "GMT"@);
    assert("Mexico Standard Time"@.len() != "GMT Standard Time"@.len());
    assert("Mexico Standard Time"@ != "GMT Standard Time"@);
    assert("Mexico Standard Time"@.len() != "Greenwich Standard Time"@.len());
    assert("Mexico Standard Time"@ != "Greenwich Standard Time"@);
    assert("Mexico Standard Time"@.len() != "W. Europe Standard Time"@.len());
    assert("Mexico Standard Time"@ != "W. Europe Standard Time"@);
    assert("Mexico Standard Time"@.len() != "Romance Standard Time"@.len());
    assert("Mexico Standard Time"@ != "Romance Standard Time"@);
    assert("Mexico Standard Time"@.len() != "Central Europe Standard Time"@.len());
    assert("Mexico Standard Time"@ != "Central Europe Standard Time"@);
    assert("Mexico Standard Time"@.len() != "Central European Standard Time"@.len());
    assert("Mexico Standard Time"@ != "Central European Standard Time"@);
    assert("Mexico Standard Time"@.len() != "E. Europe Standard Time"@.len());
    assert("Mexico Standard Time"@ != "E. Europe Standard Time"@);
    assert("Mexico Standard Time"@.len() != "FLE Standard Time"@.len());
    assert("Mexico Standard Time"@ != "FLE Standard Time"@);
    assert("Mexico Standard Time"@.len() != "GTB Standard Time"@.len());
    assert("Mexico Standard Time"@ != "GTB Standard Time"@);
    assert("Mexico Standard Time"@.len() != "Russian Standard Time"@.len());
    assert("Mexico Standard Time"@ != "Russian Standard Time"@);
    assert("Mexico Standard Time"@[0] != "Turkey Standard Time"@[0]);
    assert("Mexico Standard Time"@ != "Turkey Standard Time"@);
    assert("Mexico Standard Time"@[0] != "Israel Standard Time"@[0]);
    assert("Mexico Standard Time"@ != "Israel Standard Time"@);
    assert("Mexico Standard Time"@.len() != "Arabian Standard Time"@.len());
    assert("Mexico Standard Time"@ != "Arabian Standard Time"@);
    assert("Mexico Standard Time"@.len() != "India Standard Time"@.len());
    assert("Mexico Standard Time"@ != "India Standard Time"@);
    assert("Mexico Standard Time"@.len() != "SE Asia Standard Time"@.len());
    assert("Mexico Standard Time"@ != "SE Asia Standard Time"@);
    assert("Mexico Standard Time"@.len() != "Singapore Standard Time"@.len());
    assert("Mexico Standard Time"@ != "Singapore Standard Time"@);
    assert("Mexico Standard Time"@.len() != "China Standard Time"@.len());
    assert("Mexico Standard Time"@ != "China Standard Time"@);
    assert("Mexico Standard Time"@.len() != "Tokyo Standard Time"@.len());
    assert("Mexico Standard Time"@ != "Tokyo Standard Time"@);
    assert("Mexico Standard Time"@.len() != "Korea Standard Time"@.len());
    assert("Mexico Standard Time"@ != "Korea Standard Time"@);
    assert("Mexico Standard Time"@.len() != "AUS Eastern Standard Time"@.len());
    assert("Mexico Standard Time"@ != "AUS Eastern Standard Time"@);
    assert("Mexico Standard Time"@.len() != "E. Australia Standard Time"@.len());
    assert("Mexico Standard Time"@ != "E. Australia Standard Time"@);
    assert("Mexico Standard Time"@.len() != "AUS Central Standard Time"@.len());
    assert("Mexico Standard Time"@ != "AUS Central Standard Time"@);
    assert("Mexico Standard Time"@.len() != "W. Australia Standard Time"@.len());
    assert("Mexico Standard Time"@ != "W. Australia Standard Time"@);
    assert("Mexico Standard Time"@.len() != "New Zealand Standard Time"@.len());
    assert("Mexico Standard Time"@ != "New Zealand Standard Time"@);
    assert("Mexico Standard Time"@.len() != "South Africa Standard Time"@.len());
    assert("Mexico Standard Time"@ != "South Africa Standard Time"@);
    assert("Mexico Standard Time"@.len() != "Egypt Standard Time"@.len());
    assert("Mexico Standard Time"@ != "Egypt Standard Time"@);
    assert("Mexico Standard Time"@.len() != "Eastern Standard Time"@.len());
    assert("Mexico Standard Time"@ != "Eastern Standard Time"@);
    assert("Mexico Standard Time"@.len() != "Central Standard Time"@.len());
    assert("Mexico Standard Time"@ != "Central Standard Time"@);
    assert("Mexico Standard Time"@.len() != "Mountain Standard Time"@.len());
    assert("Mexico Standard Time"@ != "Mountain Standard Time"@);
    assert("Mexico Standard Time"@.len() != "US Mountain Standard Time"@.len());
    assert("Mexico Standard Time"@ != "US Mountain Standard Time"@);
    assert("Mexico Standard Time"@.len() != "Pacific Standard Time"@.len());
    assert("Mexico Standard Time"@ != "Pacific Standard Time"@);
    assert("Mexico Standard Time"@.len() != "Alaskan Standard Time"@.len());
    assert("Mexico Standard Time"@ != "Alaskan Standard Time"@);
    assert("Mexico Standard Time"@.len() != "Hawaiian Standard Time"@.len());
    assert("Mexico Standard Time"@ != "Hawaiian Standard Time"@);
    assert("Mexico Standard Time"@.len() != "Atlantic Standard Time"@.len());
    assert("Mexico Standard Time"@ != "Atlantic Standard Time"@);
    assert("Mexico Standard Time"@.len() != "Newfoundland Standard Time"@.len());
    assert("Mexico Standard Time"@ != "Newfoundland Standard Time"@);
    assert("Mexico Standard Time"@.len() != "SA Pacific Standard Time"@.len());
    assert("Mexico Standard Time"@ != "SA Pacific Standard Time"@);
    assert("Mexico Standard Time"@.len() != "Argentina Standard Time"@.len());
    assert("Mexico Standard Time"@ != "Argentina Standard Time"@);
    assert("Mexico Standard Time"@.len() != "E. South America Standard Time"@.len());
    assert("Mexico Standard Time"@ != "E. South America Standard Time"@);
    assert("Mexico Standard Time"@.len() != "Central America Standard Time"@.len());
    assert("Mexico Standard Time"@ != "Central America Standard Time"@);
}

proof fn lemma_windows_entry_43()
    ensures
        windows_zone("Central Standard Time (Mexico)"@) == Some("America/Mexico_City"@),
{
    reveal_strlit("Central Standard Time (Mexico)");
    reveal_strlit("America/Mexico_City");
    reveal_strlit("UTC");
    reveal_strlit("Coordinated Universal Time");
    reveal_strlit("GMT");
    reveal_strlit("GMT Standard Time");
    reveal_strlit("Greenwich Standard Time");
    reveal_strlit("W. Europe Standard Time");
    reveal_strlit("Romance Standard Time");
    reveal_strlit("Central Europe Standard Time");
    reveal_strlit("Central European Standard Time");
    reveal_strlit("E. Europe Standard Time");
    reveal_strlit("FLE Standard Time");
    reveal_strlit("GTB Standard Time");
    reveal_strlit("Russian Standard Time");
    reveal_strlit("Turkey Standard Time");
    reveal_strlit("Israel Standard Time");
    reveal_strlit("Arabian Standard Time");
    reveal_strlit("India Standard Time");
    reveal_strlit("SE Asia Standard Time");
    reveal_strlit("Singapore Standard Time");
    reveal_strlit("China Standard Time");
    reveal_strlit("Tokyo Standard Time");
    reveal_strlit("Korea Standard Time");
    reveal_strlit("AUS Eastern Standard Time");
    reveal_strlit("E. Australia Standard Time");
    reveal_strlit("AUS Central Standard Time");
    reveal_strlit("W. Australia Standard Time");
    reveal_strlit("New Zealand Standard Time");
    reveal_strlit("South Africa Standard Time");
    reveal_strlit("Egypt Standard Time");
    reveal_strlit("Eastern Standard Time");
    reveal_strlit("Central Standard Time");
    reveal_strlit("Mountain Standard Time");
    reveal_strlit("US Mountain Standard Time");
    reveal_strlit("Pacific Standard Time");
    reveal_strlit("Alaskan Standard Time");
    reveal_strlit("Hawaiian Standard Time");
    reveal_strlit("Atlantic Standard Time");
    reveal_strlit("Newfoundland Standard Time");
    reveal_strlit("SA Pacific Standard Time");
    reveal_strlit("Argentina Standard Time");
    reveal_strlit("E. South America Standard Time");
    reveal_strlit("Central America Standard Time");
    reveal_strlit("Mexico Standard Time");
    assert("Central Standard Time (Mexico)"@.len() != "UTC"@.len());
    assert("Central Standard Time (Mexico)"@ != "UTC"@);
    assert("Central Standard Time (Mexico)"@.len() != "Coordinated Universal Time"@.len());
    assert("Central Standard Time (Mexico)"@ != "Coordinated Universal Time"@);
    assert("Central Standard Time (Mexico)"@.len() != "GMT"@.len());
    assert("Central Standard Time (Mexico)"@ != "GMT"@);
    assert("Central Standard Time (Mexico)"@.len() != "GMT Standard Time"@.len());
    assert("Central Standard Time (Mexico)"@ != "GMT Standard Time"@);
    assert("Central Standard Time (Mexico)"@.len() != "Greenwich Standard Time"@.len());
    assert("Central Standard Time (Mexico)"@ != "Greenwich Standard Time"@);
    assert("Central Standard Time (Mexico)"@.len() != "W. Europe Standard Time"@.len());
    assert("Central Standard Time (Mexico)"@ != "W. Europe Standard Time"@);
    assert("Central Standard Time (Mexico)"@.len() != "Romance Standard Time"@.len());
    assert("Central Standard Time (Mexico)"@ != "Romance Standard Time"@);
    assert("Central Standard Time (Mexico)"@.len() != "Central Europe Standard Time"@.len());
    assert("Central Standard Time (Mexico)"@ != "Central Europe Standard Time"@);
    assert("Central Standard Time (Mexico)"@[8] != "Central European Standard Time"@[8]);
    assert("Central Standard Time (Mexico)"@ != "Central European Standard Time"@);
    assert("Central Standard Time (Mexico)"@.len() != "E. Europe Standard Time"@.len());
    assert("Central Standard Time (Mexico)"@ != "E. Europe Standard Time"@);
    assert("Central Standard Time (Mexico)"@.len() != "FLE Standard Time"@.len());
    assert("Central Standard Time (Mexico)"@ != "FLE Standard Time"@);
    assert("Central Standard Time (Mexico)"@.len() != "GTB Standard Time"@.len());
    assert("Central Standard Time (Mexico)"@ != "GTB Standard Time"@);
    assert("Central Standard Time (Mexico)"@.len() != "Russian Standard Time"@.len());
    assert("Central Standard Time (Mexico)"@ != "Russian Standard Time"@);
    assert("Central Standard Time (Mexico)"@.len() != "Turkey Standard Time"@.len());
    assert("Central Standard Time (Mexico)"@ != "Turkey Standard Time"@);
    assert("Central Standard Time (Mexico)"@.len() != "Israel Standard Time"@.len());
    assert("Central Standard Time (Mexico)"@ != "Israel Standard Time"@);
    assert("Central Standard Time (Mexico)"@.len() != "Arabian Standard Time"@.len());
    assert("Central Standard Time (Mexico)"@ != "Arabian Standard Time"@);
    assert("Central Standard Time (Mexico)"@.len() != "India Standard Time"@.len());
    assert("Central Standard Time (Mexico)"@ != "India Standard Time"@);
    assert("Central Standard Time (Mexico)"@.len() != "SE Asia Standard Time"@.len());
    assert("Central Standard Time (Mexico)"@ != "SE Asia Standard Time"@);
    assert("Central Standard Time (Mexico)"@.len() != "Singapore Standard Time"@.len());
    assert("Central Standard Time (Mexico)"@ != "Singapore Standard Time"@);
    assert("Central Standard Time (Mexico)"@.len() != "China Standard Time"@.len());
    assert("Central Standard Time (Mexico)"@ != "China Standard Time"@);
    assert("Central Standard Time (Mexico)"@.len() != "Tokyo Standard Time"@.len());
    assert("Central Standard Time (Mexico)"@ != "Tokyo Standard Time"@);
    assert("Central Standard Time (Mexico)"@.len() != "Korea Standard Time"@.len());
    assert("Central Standard Time (Mexico)"@ != "Korea Standard Time"@);
    assert("Central Standard Time (Mexico)"@.len() != "AUS Eastern Standard Time"@.len());
    assert("Central Standard Time (Mexico)"@ != "AUS Eastern Standard Time"@);
    assert("Central Standard Time (Mexico)"@.len() != "E. Australia Standard Time"@.len());
    assert("Central Standard Time (Mexico)"@ != "E. Australia Standard Time"@);
    assert("Central Standard Time (Mexico)"@.len() != "AUS Central Standard Time"@.len());
    assert("Central Standard Time (Mexico)"@ != "AUS Central Standard Time"@);
    assert("Central Standard Time (Mexico)"@.len() != "W. Australia Standard Time"@.len());
    assert("Central Standard Time (Mexico)"@ != "W. Australia Standard Time"@);
    assert("Central Standard Time (Mexico)"@.len() != "New Zealand Standard Time"@.len());
    assert("Central Standard Time (Mexico)"@ != "New Zealand Standard Time"@);
    assert("Central Standard Time (Mexico)"@.len() != "South Africa Standard Time"@.len());
    assert("Central Standard Time (Mexico)"@ != "South Africa Standard Time"@);
    assert("Central Standard Time (Mexico)"@.len() != "Egypt Standard Time"@.len());
    assert("Central Standard Time (Mexico)"@ != "Egypt Standard Time"@);
    assert("Central Standard Time (Mexico)"@.len() != "Eastern Standard Time"@.len());
    assert("Central Standard Time (Mexico)"@ != "Eastern Standard Time"@);
    assert("Central Standard Time (Mexico)"@.len() != "Central Standard Time"@.len());
    assert("Central Standard Time (Mexico)"@ != "Central Standard Time"@);
    assert("Central Standard Time (Mexico)"@.len() != "Mountain Standard Time"@.len());
    assert("Central Standard Time (Mexico)"@ != "Mountain Standard Time"@);
    assert("Central Standard Time (Mexico)"@.len() != "US Mountain Standard Time"@.len());
    assert("Central Standard Time (Mexico)"@ != "US Mountain Standard Time"@);
    assert("Central Standard Time (Mexico)"@.len() != "Pacific Standard Time"@.len());
    assert("Central Standard Time (Mexico)"@ != "Pacific Standard Time"@);
    assert("Central Standard Time (Mexico)"@.len() != "Alaskan Standard Time"@.len());
    assert("Central Standard Time (Mexico)"@ != "Alaskan Standard Time"@);
    assert("Central Standard Time (Mexico)"@.len() != "Hawaiian Standard Time"@.len());
    assert("Central Standard Time (Mexico)"@ != "Hawaiian Standard Time"@);
    assert("Central Standard Time (Mexico)"@.len() != "Atlantic Standard Time"@.len());
    assert("Central Standard Time (Mexico)"@ != "Atlantic Standard Time"@);
    assert("Central Standard Time (Mexico)"@.len() != "Newfoundland Standard Time"@.len());
    assert("Central Standard Time (Mexico)"@ != "Newfoundland Standard Time"@);
    assert("Central Standard Time (Mexico)"@.len() != "SA Pacific Standard Time"@.len());
    assert("Central Standard Time (Mexico)"@ != "SA Pacific Standard Time"@);
    assert("Central Standard Time (Mexico)"@.len() != "Argentina Standard Time"@.len());
    assert("Central Standard Time (Mexico)"@ != "Argentina Standard Time"@);
    assert("Central Standard Time (Mexico)"@[0] != "E. South America Standard Time"@[0]);
    assert("Central Standard Time (Mexico)"@ != "E. South America Standard Time"@);
    assert("Central Standard Time (Mexico)"@.len() != "Central America Standard Time"@.len());
    assert("Central Standard Time (Mexico)"@ != "Central America Standard Time"@);
    assert("Central Standard Time (Mexico)"@.len() != "Mexico Standard Time"@.len());
    assert("Central Standard Time (Mexico)"@ != "Mexico Standard Time"@);
}

/// Windows zone names resolve as the CLDR windowsZones table maps them
/// (the "001" zone of each), for every name the table here covers; so
/// `Eastern Standard Time`, the name Outlook writes for US Eastern time, is
/// `America/New_York`.
pub proof fn law_windows_names_follow_cldr()
    ensures
        windows_zone("UTC"@) == Some("UTC"@),
        windows_zone("Coordinated Universal Time"@) == Some("UTC"@),
        windows_zone("GMT"@) == Some("UTC"@),
        windows_zone("GMT Standard Time"@) == Some("Europe/London"@),
        windows_zone("Greenwich Standard Time"@) == Some("Europe/London"@),
        windows_zone("W. Europe Standard Time"@) == Some("Europe/Berlin"@),
        windows_zone("Romance Standard Time"@) == Some("Europe/Paris"@),
        windows_zone("Central Europe Standard Time"@) == Some("Europe/Budapest"@),
        windows_zone("Central European Standard Time"@) == Some("Europe/Warsaw"@),
        windows_zone("E. Europe Standard Time"@) == Some("Europe/Chisinau"@),
        windows_zone("FLE Standard Time"@) == Some("Europe/Kiev"@),
        windows_zone("GTB Standard Time"@) == Some("Europe/Bucharest"@),
        windows_zone("Russian Standard Time"@) == Some("Europe/Moscow"@),
        windows_zone("Turkey Standard Time"@) == Some("Europe/Istanbul"@),
        windows_zone("Israel Standard Time"@) == Some("Asia/Jerusalem"@),
        windows_zone("Arabian Standard Time"@) == Some("Asia/Dubai"@),
        windows_zone("India Standard Time"@) == Some("Asia/Kolkata"@),
        windows_zone("SE Asia Standard Time"@) == Some("Asia/Bangkok"@),
        windows_zone("Singapore Standard Time"@) == Some("Asia/Singapore"@),
        windows_zone("China Standard Time"@) == Some("Asia/Shanghai"@),
        windows_zone("Tokyo Standard Time"@) == Some("Asia/Tokyo"@),
        windows_zone("Korea Standard Time"@) == Some("Asia/Seoul"@),
        windows_zone("AUS Eastern Standard Time"@) == Some("Australia/Sydney"@),
        windows_zone("E. Australia Standard Time"@) == Some("Australia/Brisbane"@),
        windows_zone("AUS Central Standard Time"@) == Some("Australia/Darwin"@),
        windows_zone("W. Australia Standard Time"@) == Some("Australia/Perth"@),
        windows_zone("New Zealand Standard Time"@) == Some("Pacific/Auckland"@),
        windows_zone("South Africa Standard Time"@) == Some("Africa/Johannesburg"@),
        windows_zone("Egypt Standard Time"@) == Some("Africa/Cairo"@),
        windows_zone("Eastern Standard Time"@) == Some("America/New_York"@),
        windows_zone("Central Standard Time"@) == Some("America/Chicago"@),
        windows_zone("Mountain Standard Time"@) == Some("America/Denver"@),
        windows_zone("US Mountain Standard Time"@) == Some("America/Phoenix"@),
        windows_zone("Pacific Standard Time"@) == Some("America/Los_Angeles"@),
        windows_zone("Alaskan Standard Time"@) == Some("America/Anchorage"@),
        windows_zone("Hawaiian Standard Time"@) == Some("Pacific/Honolulu"@),
        windows_zone("Atlantic Standard Time"@) == Some("America/Halifax"@),
        windows_zone("Newfoundland Standard Time"@) == Some("America/St_Johns"@),
        windows_zone("SA Pacific Standard Time"@) == Some("America/Bogota"@),
        windows_zone("Argentina Standard Time"@) == Some("America/Buenos_Aires"@),
        windows_zone("E. South America Standard Time"@) == Some("America/Sao_Paulo"@),
        windows_zone("Central America Standard Time"@) == Some("America/Guatemala"@),
        windows_zone("Mexico Standard Time"@) == Some("America/Mexico_City"@),
        windows_zone("Central Standard Time (Mexico)"@) == Some("America/Mexico_City"@),
{
    lemma_windows_entry_0();
    lemma_windows_entry_1();
    lemma_windows_entry_2();
    lemma_windows_entry_3();
    lemma_windows_entry_4();
    lemma_windows_entry_5();
    lemma_windows_entry_6();
    lemma_windows_entry_7();
    lemma_windows_entry_8();
    lemma_windows_entry_9();
    lemma_windows_entry_10();
    lemma_windows_entry_11();
    lemma_windows_entry_12();
    lemma_windows_entry_13();
    lemma_windows_entry_14();
    lemma_windows_entry_15();
    lemma_windows_entry_16();
    lemma_windows_entry_17();
    lemma_windows_entry_18();
    lemma_windows_entry_19();
    lemma_windows_entry_20();
    lemma_windows_entry_21();
    lemma_windows_entry_22();
    lemma_windows_entry_23();
    lemma_windows_entry_24();
    lemma_windows_entry_25();
    lemma_windows_entry_26();
    lemma_windows_entry_27();
    lemma_windows_entry_28();
    lemma_windows_entry_29();
    lemma_windows_entry_30();
    lemma_windows_entry_31();
    lemma_windows_entry_32();
    lemma_windows_entry_33();
    lemma_windows_entry_34();
    lemma_windows_entry_35();
    lemma_windows_entry_36();
    lemma_windows_entry_37();
    lemma_windows_entry_38();
    lemma_windows_entry_39();
    lemma_windows_entry_40();
    lemma_windows_entry_41();
    lemma_windows_entry_42();
    lemma_windows_entry_43();
}

} // verus!
