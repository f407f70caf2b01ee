//! CalDAV: the account configuration, the URLs of a calendar collection and
//! its resources, and what the server's WebDAV replies say. The requests
//! themselves are the caller's.

use vstd::prelude::*;

use crate::ics::tz::last_index_of;
use crate::text::{chars_of, str_equals, string_of, trim, trim_seq};
use crate::urls::{join_url, parse_url, set_url_path, url_joined, url_parse, url_with_path, TextOrMessage};

verus! {

/// A CalDAV account and, once discovery picked one, its calendar.
#[derive(Debug, Clone)]
pub struct CalDavConfig {
    /// Server base URL or a calendar collection URL.
    pub url: String,
    pub username: String,
    pub password: String,
    /// The calendar collection to use (absolute URL). Filled by discovery.
    pub calendar_url: Option<String>,
}

/// A calendar collection found on a server.
#[derive(Debug, Clone, PartialEq, Eq)]
pub struct DiscoveredCalendar {
    pub url: String,
    pub name: String,
}

/// The URL of the calendar collection: the calendar URL when set, else the
/// account URL, with a path that ends in `/`.
pub open spec fn calendar_of(cfg: CalDavConfig) -> Result<Seq<char>, Seq<char>> {
    let raw = match cfg.calendar_url {
        Some(c) => c@,
        None => cfg.url@,
    };
    match url_parse(raw) {
        Err(e) => Err("invalid calendar url: "@ + e),
        Ok(u) => if u.3.len() > 0 && u.3.last() == '/' {
            Ok(u.0)
        } else {
            match url_with_path(raw, u.3.push('/')) {
                Ok(t) => Ok(t),
                Err(e) => Err("invalid calendar url: "@ + e),
            }
        },
    }
}

fn prefixed_message(prefix: &str, e: &str) -> (r: String)
    ensures
        r@ == prefix@ + e@,
{
    let mut s = String::from_str(prefix);
    s.append(e);
    s
}

impl CalDavConfig {
    /// The calendar collection URL.
    pub fn calendar(&self) -> (r: Result<String, String>)
        ensures
            r matches Ok(t) ==> calendar_of(*self) == TextOrMessage::Ok(t@),
            r matches Err(e) ==> calendar_of(*self) == TextOrMessage::Err(e@),
    {
        let raw: &str = match &self.calendar_url {
            Some(c) => c.as_str(),
            None => self.url.as_str(),
        };
        let u = match parse_url(raw) {
            Ok(u) => u,
            Err(e) => return Err(prefixed_message("invalid calendar url: ", e.as_str())),
        };
        let cs = chars_of(u.path.as_str());
        if cs.len() > 0 && cs[cs.len() - 1] == '/' {
            return Ok(u.text);
        }
        let mut path = u.path.clone();
        crate::text::push_char(&mut path, '/');
        match set_url_path(raw, path.as_str()) {
            Ok(t) => Ok(t),
            Err(e) => Err(prefixed_message("invalid calendar url: ", e.as_str())),
        }
    }

    /// Href for a mirrored event resource inside the calendar collection.
    pub fn event_href(&self, uid: &str) -> (r: Result<String, String>)
        ensures
            r matches Ok(t) ==> calendar_of(*self) matches Ok(c) && url_joined(c, uid@ + ".ics"@) == TextOrMessage::Ok(t@),
            r matches Err(e) ==> calendar_of(*self) == TextOrMessage::Err(e@) || (calendar_of(*self) matches Ok(c)
                && url_joined(c, uid@ + ".ics"@) == TextOrMessage::Err(e@)),
            calendar_of(*self) matches Ok(c) && url_joined(c, uid@ + ".ics"@) is Ok ==> r is Ok,
    {
        let cal = self.calendar()?;
        let mut name = String::from_str(uid);
        name.append(".ics");
        join_url(cal.as_str(), name.as_str())
    }
}

/// What checking a CalDAV configuration from user input gives: the
/// configuration with its URL trimmed, or why it is refused.
pub open spec fn checked_config(cfg: CalDavConfig) -> Result<Seq<char>, Seq<char>> {
    let url = trim_seq(cfg.url@);
    match url_parse(url) {
        Err(e) => Err("invalid url: "@ + e),
        Ok(u) => if u.1 != "http"@ && u.1 != "https"@ {
            Err("url must use http or https"@)
        } else if trim_seq(cfg.username@).len() == 0 {
            Err("username is required"@)
        } else {
            match cfg.calendar_url {
                Some(c) => match url_parse(c@) {
                    Err(e) => Err("invalid calendar url: "@ + e),
                    Ok(_) => Ok(url),
                },
                None => Ok(url),
            }
        },
    }
}

/// Validate and normalize a CalDAV config from user input.
pub fn validate_config(config: CalDavConfig) -> (r: Result<CalDavConfig, String>)
    ensures
        r matches Ok(c) ==> checked_config(config) == TextOrMessage::Ok(c.url@) && c.username == config.username
            && c.password == config.password && c.calendar_url == config.calendar_url,
        r matches Err(e) ==> checked_config(config) == TextOrMessage::Err(e@),
{
    let mut cfg = config;
    cfg.url = trim(cfg.url.as_str());
    let parsed = match parse_url(cfg.url.as_str()) {
        Ok(u) => u,
        Err(e) => return Err(prefixed_message("invalid url: ", e.as_str())),
    };
    if !str_equals(parsed.scheme.as_str(), "http") && !str_equals(parsed.scheme.as_str(), "https") {
        return Err(String::from_str("url must use http or https"));
    }
    if trim(cfg.username.as_str()).as_str().is_empty() {
        return Err(String::from_str("username is required"));
    }
    if let Some(c) = &cfg.calendar_url {
        if let Err(e) = parse_url(c.as_str()) {
            return Err(prefixed_message("invalid calendar url: ", e.as_str()));
        }
    }
    Ok(cfg)
}

} // verus!

verus! {

/// The WebDAV namespace.
pub const DAV: &'static str = "DAV:";

/// The CalDAV namespace.
pub const CALDAV: &'static str = "urn:ietf:params:xml:ns:caldav";

/// The namespace of Apple's calendar server extensions (`getctag`).
pub const CS: &'static str = "http://calendarserver.org/ns/";

/// One node of an XML document, in document order. The node's subtree is
/// the nodes from itself up to (not including) `end`.
pub struct XmlNode {
    pub end: usize,
    pub element: bool,
    pub name: String,
    pub namespace: Option<String>,
    /// The text of a text node, or of an element's first child when that is
    /// text.
    pub text: Option<String>,
    /// The element's `name` attribute.
    pub name_attr: Option<String>,
}

/// A node as plain values: subtree end, whether it is an element, local
/// name, namespace, text and `name` attribute.
pub type NodeModel = (int, bool, Seq<char>, Option<Seq<char>>, Option<Seq<char>>, Option<Seq<char>>);

/// The nodes of a document, or a message.
pub type NodesOrMessage = Result<Seq<NodeModel>, Seq<char>>;

pub open spec fn node_model(n: XmlNode) -> NodeModel {
    (n.end as int, n.element, n.name@, n.namespace.deep_view(), n.text.deep_view(), n.name_attr.deep_view())
}

pub open spec fn nodes_model(ns: Seq<XmlNode>) -> Seq<NodeModel> {
    Seq::new(ns.len(), |i: int| node_model(ns[i]))
}

/// Whether subtrees nest as in a document listed in document order: each
/// node's subtree starts at the node, ends within the list, and holds the
/// subtrees of the nodes in it.
pub open spec fn tree_shaped(ns: Seq<NodeModel>) -> bool {
    forall|i: int|
        0 <= i < ns.len() ==> i < (#[trigger] ns[i]).0 <= ns.len() && forall|j: int| i < j < ns[i].0 ==> #[trigger] ns[j].0 <= ns[i].0
}

/// One node of an XML document as `roxmltree` lists it; `size` is the
/// number of nodes in its subtree, itself and its descendants.
pub struct RawXmlNode {
    pub size: usize,
    pub element: bool,
    pub name: String,
    pub namespace: Option<String>,
    pub text: Option<String>,
    pub name_attr: Option<String>,
}

/// A listed node as plain values: subtree size, whether it is an element,
/// local name, namespace, text and `name` attribute.
pub type RawModel = (int, bool, Seq<char>, Option<Seq<char>>, Option<Seq<char>>, Option<Seq<char>>);

pub open spec fn raw_model(n: RawXmlNode) -> RawModel {
    (n.size as int, n.element, n.name@, n.namespace.deep_view(), n.text.deep_view(), n.name_attr.deep_view())
}

pub open spec fn raw_models(ns: Seq<RawXmlNode>) -> Seq<RawModel> {
    Seq::new(ns.len(), |i: int| raw_model(ns[i]))
}

/// Whether subtrees nest as in a document listed in document order: each
/// node's subtree holds at least the node, ends within the list, and holds
/// the subtrees of the nodes in it.
pub open spec fn subtrees_nest(rs: Seq<RawModel>) -> bool {
    forall|i: int|
        0 <= i < rs.len() ==> 0 < (#[trigger] rs[i]).0 && i + rs[i].0 <= rs.len() && forall|j: int|
            i < j < i + rs[i].0 ==> j + (#[trigger] rs[j]).0 <= i + rs[i].0
}

/// The listed nodes with the end of each subtree in place of its size.
pub open spec fn with_ends(rs: Seq<RawModel>) -> Seq<NodeModel> {
    Seq::new(rs.len(), |i: int| (i + rs[i].0, rs[i].1, rs[i].2, rs[i].3, rs[i].4, rs[i].5))
}

/// The nodes `roxmltree` lists for a text, in document order, or the
/// message of its error.
pub uninterp spec fn xml_nodes(text: Seq<char>) -> RawOrMessage;

/// Listed nodes, or a message.
pub type RawOrMessage = Result<Seq<RawModel>, Seq<char>>;

/// The nodes of a document with the ends of their subtrees, or the message
/// of the error reading it.
pub open spec fn document_nodes(text: Seq<char>) -> NodesOrMessage {
    match xml_nodes(text) {
        Ok(rs) => Ok(with_ends(rs)),
        Err(e) => Err(e),
    }
}

/// Reads a document with `roxmltree::Document::parse` and lists its nodes
/// with `descendants()` (document order); a node's subtree is the node and
/// its `descendants()`, counted with `count()`.
#[verifier::external_body]
fn list_xml(text: &str) -> (r: Result<Vec<RawXmlNode>, String>)
    ensures
        r matches Ok(ns) ==> xml_nodes(text@) == RawOrMessage::Ok(raw_models(ns@)) && subtrees_nest(raw_models(ns@)),
        r matches Err(e) ==> xml_nodes(text@) == RawOrMessage::Err(e@),
{
    let doc = roxmltree::Document::parse(text).map_err(|e| e.to_string())?;
    Ok(doc.descendants().map(|n| RawXmlNode {
        size: n.descendants().count(),
        element: n.is_element(),
        name: n.tag_name().name().to_string(),
        namespace: n.tag_name().namespace().map(String::from),
        text: n.text().map(String::from),
        name_attr: n.attribute("name").map(String::from),
    }).collect())
}

/// The nodes of a document, each with the end of its subtree.
pub fn read_xml(text: &str) -> (r: Result<Vec<XmlNode>, String>)
    ensures
        r matches Ok(ns) ==> document_nodes(text@) == NodesOrMessage::Ok(nodes_model(ns@)) && tree_shaped(nodes_model(ns@)),
        r matches Err(e) ==> document_nodes(text@) == NodesOrMessage::Err(e@),
{
    let raw = list_xml(text)?;
    let ghost rs = raw_models(raw@);
    let n = raw.len();
    let mut rest = crate::vecs::reversed(raw);
    let mut out: Vec<XmlNode> = Vec::new();
    let ghost all = raw_models(rest@.reverse());
    assert(rest@.reverse() =~= raw@) by {
        assert(rest@ == raw@.reverse());
    }
    while rest.len() > 0
        invariant
            all == rs,
            rs.len() == n,
            subtrees_nest(rs),
            out@.len() + rest@.len() == n,
            forall|k: int| 0 <= k < rest@.len() ==> raw_model(#[trigger] rest@[k]) == rs[n - 1 - k],
            forall|k: int| 0 <= k < out@.len() ==> #[trigger] node_model(out@[k]) == with_ends(rs)[k],
        decreases rest.len(),
    {
        let i = out.len();
        let ghost r0 = rest@;
        let x = rest.pop().unwrap();
        assert(raw_model(x) == rs[n - 1 - (r0.len() - 1)]);
        assert(rs[i as int].0 == x.size as int);
        assert(i + x.size <= n);
        out.push(XmlNode {
            end: i + x.size,
            element: x.element,
            name: x.name,
            namespace: x.namespace,
            text: x.text,
            name_attr: x.name_attr,
        });
        assert forall|k: int| 0 <= k < rest@.len() implies raw_model(#[trigger] rest@[k]) == rs[n - 1 - k] by {
            assert(rest@[k] == r0[k]);
        }
    }
    assert(nodes_model(out@) =~= with_ends(rs));
    assert(tree_shaped(nodes_model(out@))) by {
        assert forall|i: int| 0 <= i < rs.len() implies i < (#[trigger] with_ends(rs)[i]).0 <= rs.len() && forall|j: int|
            i < j < with_ends(rs)[i].0 ==> #[trigger] with_ends(rs)[j].0 <= with_ends(rs)[i].0 by {
            assert forall|j: int| i < j < with_ends(rs)[i].0 implies #[trigger] with_ends(rs)[j].0 <= with_ends(rs)[i].0 by {
                assert(j + rs[j].0 <= i + rs[i].0);
            }
        }
    }
    Ok(out)
}

/// Whether a node is an element with this local name and, when `ns` is
/// given, this namespace.
pub open spec fn is_named(n: NodeModel, name: Seq<char>, ns: Option<Seq<char>>) -> bool {
    n.1 && n.2 == name && match ns {
        Some(x) => n.3 == Some(x),
        None => true,
    }
}

/// The first node among `from..to` that is such an element.
pub open spec fn first_named_in(ns: Seq<NodeModel>, from: int, to: int, name: Seq<char>, nsp: Option<Seq<char>>) -> Option<int>
    decreases to - from,
{
    if from >= to || from < 0 || from >= ns.len() {
        None
    } else if is_named(ns[from], name, nsp) {
        Some(from)
    } else {
        first_named_in(ns, from + 1, to, name, nsp)
    }
}

/// The first such element among the children of the nodes `from..to`
/// stepping over subtrees: the first child of node `p` is found from
/// `p + 1` to `p`'s end.
pub open spec fn first_child_in(ns: Seq<NodeModel>, from: int, to: int, name: Seq<char>) -> Option<int>
    decreases ns.len() - from,
{
    if from >= to || from < 0 || from >= ns.len() {
        None
    } else if is_named(ns[from], name, None) {
        Some(from)
    } else if ns[from].0 <= from || ns[from].0 > ns.len() {
        None
    } else {
        first_child_in(ns, ns[from].0, to, name)
    }
}

fn node_is(n: &XmlNode, name: &str, nsp: Option<&str>) -> (r: bool)
    ensures
        r == is_named(node_model(*n), name@, match nsp {
            Some(x) => Some(x@),
            None => None,
        }),
{
    if !n.element || !str_equals(n.name.as_str(), name) {
        return false;
    }
    match nsp {
        None => true,
        Some(x) => match &n.namespace {
            Some(m) => str_equals(m.as_str(), x),
            None => false,
        },
    }
}

/// The first element with this name (and namespace) among nodes `from..to`.
pub fn find_named(nodes: &Vec<XmlNode>, from: usize, to: usize, name: &str, nsp: Option<&str>) -> (r: Option<usize>)
    requires
        to <= nodes.len(),
    ensures
        r matches Some(k) ==> k < nodes.len() && first_named_in(nodes_model(nodes@), from as int, to as int, name@, match nsp {
            Some(x) => Some(x@),
            None => None,
        }) == Some(k as int),
        r is None ==> first_named_in(nodes_model(nodes@), from as int, to as int, name@, match nsp {
            Some(x) => Some(x@),
            None => None,
        }) is None,
{
    let ghost m = nodes_model(nodes@);
    let ghost sp = match nsp {
        Some(x) => Some(x@),
        None => None,
    };
    let mut k = from;
    while k < to
        invariant
            from <= k,
            to <= nodes.len(),
            m == nodes_model(nodes@),
            sp == (match nsp {
                Some(x) => Some(x@),
                None => None,
            }),
            first_named_in(m, k as int, to as int, name@, sp) == first_named_in(m, from as int, to as int, name@, sp),
        decreases to - k,
    {
        assert(m[k as int] == node_model(nodes@[k as int]));
        if node_is(&nodes[k], name, nsp) {
            return Some(k);
        }
        k = k + 1;
    }
    None
}

/// The first child element with this name of the node `parent`.
pub fn find_child(nodes: &Vec<XmlNode>, parent: usize, name: &str) -> (r: Option<usize>)
    requires
        parent < nodes.len(),
        tree_shaped(nodes_model(nodes@)),
    ensures
        r matches Some(k) ==> k < nodes.len() && first_child_in(nodes_model(nodes@), parent + 1, nodes_model(nodes@)[parent as int].0, name@)
            == Some(k as int),
        r is None ==> first_child_in(nodes_model(nodes@), parent + 1, nodes_model(nodes@)[parent as int].0, name@) is None,
{
    let ghost m = nodes_model(nodes@);
    let to = nodes[parent].end;
    assert(m[parent as int] == node_model(nodes@[parent as int]));
    let mut k = parent + 1;
    while k < to
        invariant
            parent < k,
            to <= nodes.len(),
            parent < nodes.len(),
            m[parent as int].0 == to,
            m == nodes_model(nodes@),
            tree_shaped(m),
            first_child_in(m, k as int, to as int, name@) == first_child_in(m, parent + 1, to as int, name@),
        decreases to - k,
    {
        assert(m[k as int] == node_model(nodes@[k as int]));
        if node_is(&nodes[k], name, None) {
            return Some(k);
        }
        assert(m[parent as int].0 == to);
        assert(parent < k < m[parent as int].0 ==> m[k as int].0 <= m[parent as int].0);
        assert(m[k as int].0 > k);
        k = nodes[k].end;
    }
    None
}

} // verus!

verus! {

/// The text of node `k`, if there is such a node and it has text.
pub open spec fn text_at(ns: Seq<NodeModel>, k: Option<int>) -> Option<Seq<char>> {
    match k {
        Some(i) => ns[i].4,
        None => None,
    }
}

/// A text trimmed, none when that leaves nothing.
pub open spec fn trimmed_nonempty(t: Option<Seq<char>>) -> Option<Seq<char>> {
    match t {
        Some(x) => if trim_seq(x).len() == 0 { None } else { Some(trim_seq(x)) },
        None => None,
    }
}

/// The `name` attributes (empty when absent) of the `comp` elements among
/// nodes `from..to`.
pub open spec fn comp_names(ns: Seq<NodeModel>, from: int, to: int) -> Seq<Seq<char>>
    decreases to - from,
{
    if from >= to || from < 0 || from >= ns.len() {
        Seq::empty()
    } else {
        (if is_named(ns[from], "comp"@, None) {
            seq![
                match ns[from].5 {
                    Some(a) => a,
                    None => Seq::empty(),
                },
            ]
        } else {
            Seq::<Seq<char>>::empty()
        }) + comp_names(ns, from + 1, to)
    }
}

/// `s` without trailing slashes.
pub open spec fn strip_trailing_slashes(s: Seq<char>) -> Seq<char>
    decreases s.len(),
{
    if s.len() > 0 && s.last() == '/' { strip_trailing_slashes(s.drop_last()) } else { s }
}

/// The part of `s` after its last slash (all of it when it has none).
pub open spec fn last_segment(s: Seq<char>) -> Seq<char> {
    match last_index_of(s, '/') {
        Some(i) => s.skip(i + 1),
        None => s,
    }
}

/// A calendar URL and name, or a message.
pub type CalendarOrMessage = Result<(Seq<char>, Seq<char>), Seq<char>>;

/// What the `response` element `r` of a PROPFIND reply says: nothing when
/// it has no href, is not a calendar or holds no events; else the calendar's
/// URL (its href resolved against `base`) and name (its display name, else
/// the last segment of its href).
pub open spec fn response_entry(ns: Seq<NodeModel>, r: int, base: Seq<char>) -> Option<CalendarOrMessage> {
    let end = ns[r].0;
    match text_at(ns, first_child_in(ns, r + 1, end, "href"@)) {
        None => None,
        Some(h) => {
            let href = trim_seq(h);
            let comps = comp_names(ns, r, end);
            if first_named_in(ns, r, end, "calendar"@, Some(CALDAV@)) is None {
                None
            } else if comps.len() > 0 && !comps.contains("VEVENT"@) {
                None
            } else {
                let name = match trimmed_nonempty(text_at(ns, first_named_in(ns, r, end, "displayname"@, Some(DAV@)))) {
                    Some(n) => n,
                    None => last_segment(strip_trailing_slashes(href)),
                };
                match url_joined(base, href) {
                    Ok(u) => Some(Ok((u, name))),
                    Err(e) => Some(Err(e)),
                }
            }
        },
    }
}

/// Calendars, or a message.
pub type CalendarsOrMessage = Result<Seq<(Seq<char>, Seq<char>)>, Seq<char>>;

/// The calendars the `response` elements among the first `k` nodes
/// describe, in order; the first href that does not resolve is an error.
pub open spec fn calendars_upto(ns: Seq<NodeModel>, base: Seq<char>, k: int) -> CalendarsOrMessage
    decreases k,
{
    if k <= 0 {
        Ok(Seq::empty())
    } else {
        match calendars_upto(ns, base, k - 1) {
            Err(e) => Err(e),
            Ok(acc) => if is_named(ns[k - 1], "response"@, None) {
                match response_entry(ns, k - 1, base) {
                    None => Ok(acc),
                    Some(Ok(c)) => Ok(acc.push(c)),
                    Some(Err(e)) => Err(e),
                }
            } else {
                Ok(acc)
            },
        }
    }
}

/// The calendars a PROPFIND reply lists for the collection at `base`.
pub open spec fn calendars_reply(base: Seq<char>, body: Seq<char>) -> CalendarsOrMessage {
    match url_parse(base) {
        Err(e) => Err(e),
        Ok(_) => match document_nodes(body) {
            Err(e) => Err("bad XML from server: "@ + e),
            Ok(ns) => calendars_upto(ns, base, ns.len() as int),
        },
    }
}

pub open spec fn calendars_model(cs: Seq<DiscoveredCalendar>) -> Seq<(Seq<char>, Seq<char>)> {
    Seq::new(cs.len(), |i: int| (cs[i].url@, cs[i].name@))
}

fn trimmed_text(t: &Option<String>) -> (r: Option<String>)
    ensures
        r.deep_view() == trimmed_nonempty(t.deep_view()),
{
    match t {
        Some(x) => {
            let s = trim(x.as_str());
            if s.as_str().is_empty() { None } else { Some(s) }
        },
        None => None,
    }
}

fn node_text(nodes: &Vec<XmlNode>, k: Option<usize>) -> (r: Option<String>)
    requires
        k matches Some(i) ==> i < nodes.len(),
    ensures
        r.deep_view() == text_at(nodes_model(nodes@), match k {
            Some(i) => Some(i as int),
            None => None,
        }),
{
    match k {
        Some(i) => {
            assert(nodes_model(nodes@)[i as int] == node_model(nodes@[i as int]));
            nodes[i].text.clone()
        },
        None => None,
    }
}

fn comps_of(nodes: &Vec<XmlNode>, from: usize, to: usize) -> (r: Vec<String>)
    requires
        from <= to <= nodes.len(),
    ensures
        r.deep_view() == comp_names(nodes_model(nodes@), from as int, to as int),
    decreases to - from,
{
    let ghost m = nodes_model(nodes@);
    if from >= to {
        let r: Vec<String> = Vec::new();
        assert(r.deep_view() =~= comp_names(m, from as int, to as int));
        return r;
    }
    let rest = comps_of(nodes, from + 1, to);
    assert(m[from as int] == node_model(nodes@[from as int]));
    let mut out: Vec<String> = Vec::new();
    if node_is(&nodes[from], "comp", None) {
        let a = match &nodes[from].name_attr {
            Some(a) => a.clone(),
            None => String::new(),
        };
        out.push(a);
    }
    let ghost head = out.deep_view();
    let mut i: usize = 0;
    while i < rest.len()
        invariant
            i <= rest.len(),
            out.deep_view() == head + rest.deep_view().take(i as int),
        decreases rest.len() - i,
    {
        let ghost before = out.deep_view();
        out.push(rest[i].clone());
        assert(out.deep_view() =~= before.push(rest@[i as int]@));
        assert(rest.deep_view()[i as int] == rest@[i as int]@);
        assert(out.deep_view() =~= head + rest.deep_view().take(i + 1));
        i = i + 1;
    }
    assert(rest.deep_view().take(rest.len() as int) =~= rest.deep_view());
    assert(out.deep_view() =~= comp_names(m, from as int, to as int));
    out
}

fn holds_text(v: &Vec<String>, t: &str) -> (r: bool)
    ensures
        r == v.deep_view().contains(t@),
{
    let mut i: usize = 0;
    while i < v.len()
        invariant
            i <= v.len(),
            forall|k: int| 0 <= k < i ==> v.deep_view()[k] != t@,
        decreases v.len() - i,
    {
        if str_equals(v[i].as_str(), t) {
            assert(v.deep_view()[i as int] == t@);
            return true;
        }
        i = i + 1;
    }
    false
}

fn last_segment_of(href: &str) -> (r: String)
    ensures
        r@ == last_segment(strip_trailing_slashes(href@)),
{
    let cs = chars_of(href);
    let mut end = cs.len();
    assert(cs@.take(end as int) =~= href@);
    while end > 0 && cs[end - 1] == '/'
        invariant
            end <= cs.len(),
            strip_trailing_slashes(cs@.take(end as int)) == strip_trailing_slashes(href@),
        decreases end,
    {
        assert(cs@.take(end as int).drop_last() =~= cs@.take(end - 1));
        end = end - 1;
    }
    assert(strip_trailing_slashes(cs@.take(end as int)) == cs@.take(end as int));
    let mut start = end;
    while start > 0 && cs[start - 1] != '/'
        invariant
            start <= end <= cs.len(),
            forall|q: int| start <= q < end ==> cs@[q] != '/',
        decreases start,
    {
        start = start - 1;
    }
    proof {
        let s = cs@.take(end as int);
        lemma_last_slash(s, start as int);
        assert(s.skip(start as int) =~= cs@.subrange(start as int, end as int));
    }
    string_of(&cs, start, end)
}

proof fn lemma_last_index_tail(s: Seq<char>, start: int)
    requires
        0 <= start <= s.len(),
        forall|q: int| start <= q < s.len() ==> s[q] != '/',
    ensures
        last_index_of(s, '/') == last_index_of(s.take(start), '/'),
    decreases s.len(),
{
    if s.len() == start {
        assert(s.take(start) =~= s);
    } else {
        let d = s.drop_last();
        assert(s.last() == s[s.len() - 1]);
        lemma_last_index_tail(d, start);
        assert(d.take(start) =~= s.take(start));
    }
}

proof fn lemma_last_slash(s: Seq<char>, start: int)
    requires
        0 <= start <= s.len(),
        forall|q: int| start <= q < s.len() ==> s[q] != '/',
        start == 0 || s[start - 1] == '/',
    ensures
        last_segment(s) == s.skip(start),
{
    lemma_last_index_tail(s, start);
    if start == 0 {
        assert(s.take(0) =~= Seq::<char>::empty());
        assert(s.skip(0) =~= s);
    } else {
        assert(s.take(start).last() == s[start - 1]);
    }
}

fn response_calendar(nodes: &Vec<XmlNode>, r: usize, base: &str) -> (out: Option<Result<DiscoveredCalendar, String>>)
    requires
        r < nodes.len(),
        tree_shaped(nodes_model(nodes@)),
    ensures
        match response_entry(nodes_model(nodes@), r as int, base@) {
            None => out is None,
            Some(Ok(c)) => out matches Some(Ok(d)) && d.url@ == c.0 && d.name@ == c.1,
            Some(Err(e)) => out matches Some(Err(m)) && m@ == e,
        },
{
    let ghost m = nodes_model(nodes@);
    assert(m[r as int] == node_model(nodes@[r as int]));
    let end = nodes[r].end;
    let h = match node_text(nodes, find_child(nodes, r, "href")) {
        Some(h) => h,
        None => return None,
    };
    let href = trim(h.as_str());
    let comps = comps_of(nodes, r, end);
    if find_named(nodes, r, end, "calendar", Some(CALDAV)).is_none() {
        return None;
    }
    proof {
        reveal_strlit("VEVENT");
    }
    if comps.len() > 0 && !holds_text(&comps, "VEVENT") {
        return None;
    }
    let name = match trimmed_text(&node_text(nodes, find_named(nodes, r, end, "displayname", Some(DAV)))) {
        Some(n) => n,
        None => last_segment_of(href.as_str()),
    };
    match join_url(base, href.as_str()) {
        Ok(u) => Some(Ok(DiscoveredCalendar { url: u, name })),
        Err(e) => Some(Err(e)),
    }
}

proof fn lemma_error_sticks(ns: Seq<NodeModel>, base: Seq<char>, k: int, n: int)
    requires
        0 <= k <= n,
        calendars_upto(ns, base, k) is Err,
    ensures
        calendars_upto(ns, base, n) == calendars_upto(ns, base, k),
    decreases n - k,
{
    if n > k {
        lemma_error_sticks(ns, base, k, n - 1);
    }
}

/// The calendars a PROPFIND reply (Depth 1) lists for the collection at
/// `base`: each `response` that is a calendar collection holding events.
pub fn calendars_in_reply(base: &str, body: &str) -> (r: Result<Vec<DiscoveredCalendar>, String>)
    ensures
        r matches Ok(cs) ==> calendars_reply(base@, body@) == CalendarsOrMessage::Ok(calendars_model(cs@)),
        r matches Err(e) ==> calendars_reply(base@, body@) == CalendarsOrMessage::Err(e@),
{
    if let Err(e) = parse_url(base) {
        return Err(e);
    }
    let nodes = match read_xml(body) {
        Ok(n) => n,
        Err(e) => return Err(prefixed_message("bad XML from server: ", e.as_str())),
    };
    calendars_in_nodes(base, &nodes)
}

/// The calendars that the `response` elements among the nodes of a
/// PROPFIND reply (Depth 1) list for the collection at `base`: each one
/// that is a calendar collection holding events, in order; the first href
/// that does not resolve against `base` is an error.
pub fn calendars_in_nodes(base: &str, nodes: &Vec<XmlNode>) -> (r: Result<Vec<DiscoveredCalendar>, String>)
    requires
        tree_shaped(nodes_model(nodes@)),
    ensures
        r matches Ok(cs) ==> calendars_upto(nodes_model(nodes@), base@, nodes@.len() as int) == CalendarsOrMessage::Ok(
            calendars_model(cs@),
        ),
        r matches Err(e) ==> calendars_upto(nodes_model(nodes@), base@, nodes@.len() as int) == CalendarsOrMessage::Err(e@),
{
    let ghost m = nodes_model(nodes@);
    let mut out: Vec<DiscoveredCalendar> = Vec::new();
    let mut k: usize = 0;
    assert(calendars_model(out@) =~= Seq::<(Seq<char>, Seq<char>)>::empty());
    while k < nodes.len()
        invariant
            k <= nodes.len(),
            m == nodes_model(nodes@),
            tree_shaped(m),
            calendars_upto(m, base@, k as int) == CalendarsOrMessage::Ok(calendars_model(out@)),
        decreases nodes.len() - k,
    {
        assert(m[k as int] == node_model(nodes@[k as int]));
        if node_is(&nodes[k], "response", None) {
            match response_calendar(&nodes, k, base) {
                None => {},
                Some(Ok(c)) => {
                    let ghost before = calendars_model(out@);
                    out.push(c);
                    assert(calendars_model(out@) =~= before.push((c.url@, c.name@)));
                },
                Some(Err(e)) => {
                    proof {
                        assert(calendars_upto(m, base@, k + 1) == CalendarsOrMessage::Err(e@));
                        lemma_error_sticks(m, base@, k + 1, nodes.len() as int);
                    }
                    return Err(e);
                },
            }
        }
        k = k + 1;
    }
    Ok(out)
}

/// The change tag in a PROPFIND reply: the first `getctag`, else the first
/// `sync-token`, trimmed; none when empty.
pub open spec fn ctag_in(ns: Seq<NodeModel>) -> Option<Seq<char>> {
    let k = match first_named_in(ns, 0, ns.len() as int, "getctag"@, Some(CS@)) {
        Some(i) => Some(i),
        None => first_named_in(ns, 0, ns.len() as int, "sync-token"@, None),
    };
    trimmed_nonempty(text_at(ns, k))
}

/// An optional text, or a message.
pub type MaybeTextOrMessage = Result<Option<Seq<char>>, Seq<char>>;

/// The collection's change tag in a PROPFIND reply, if the server gives one.
pub fn ctag_in_reply(body: &str) -> (r: Result<Option<String>, String>)
    ensures
        r matches Ok(t) ==> document_nodes(body@) matches Ok(ns) && t.deep_view() == ctag_in(ns),
        r matches Err(e) ==> document_nodes(body@) == NodesOrMessage::Err(e@),
{
    let nodes = read_xml(body)?;
    Ok(ctag_in_nodes(&nodes))
}

/// The change tag among the nodes of a PROPFIND reply: the first `getctag`
/// (calendarserver namespace), else the first `sync-token`, trimmed; none
/// when empty or absent.
pub fn ctag_in_nodes(nodes: &Vec<XmlNode>) -> (r: Option<String>)
    requires
        tree_shaped(nodes_model(nodes@)),
    ensures
        r.deep_view() == ctag_in(nodes_model(nodes@)),
{
    let k = match find_named(nodes, 0, nodes.len(), "getctag", Some(CS)) {
        Some(i) => Some(i),
        None => find_named(nodes, 0, nodes.len(), "sync-token", None),
    };
    trimmed_text(&node_text(nodes, k))
}

/// The resources of a calendar-query REPORT reply among the first `k`
/// nodes: for each `response` with `calendar-data`, its href (empty when
/// absent) and that data.
pub open spec fn objects_upto(ns: Seq<NodeModel>, k: int) -> Seq<(Seq<char>, Seq<char>)>
    decreases k,
{
    if k <= 0 {
        Seq::empty()
    } else {
        let r = k - 1;
        objects_upto(ns, k - 1) + if is_named(ns[r], "response"@, None) {
            match text_at(ns, first_named_in(ns, r, ns[r].0, "calendar-data"@, None)) {
                Some(d) => seq![
                    (
                        match text_at(ns, first_child_in(ns, r + 1, ns[r].0, "href"@)) {
                            Some(h) => h,
                            None => Seq::empty(),
                        },
                        d,
                    ),
                ],
                None => Seq::<(Seq<char>, Seq<char>)>::empty(),
            }
        } else {
            Seq::<(Seq<char>, Seq<char>)>::empty()
        }
    }
}

/// Resources, or a message.
pub type ObjectsOrMessage = Result<Seq<(Seq<char>, Seq<char>)>, Seq<char>>;

/// Every VEVENT resource in a calendar-query REPORT reply, as (href,
/// iCalendar text) pairs.
pub fn objects_in_reply(body: &str) -> (r: Result<Vec<(String, String)>, String>)
    ensures
        r matches Ok(os) ==> document_nodes(body@) matches Ok(ns) && os.deep_view() == objects_upto(ns, ns.len() as int),
        r matches Err(e) ==> document_nodes(body@) matches Err(x) && e@ == "bad XML from server: "@ + x,
{
    let nodes = match read_xml(body) {
        Ok(n) => n,
        Err(e) => return Err(prefixed_message("bad XML from server: ", e.as_str())),
    };
    Ok(objects_in_nodes(&nodes))
}

/// The resources among the nodes of a calendar-query REPORT reply: for
/// each `response` with `calendar-data`, its href (empty when absent) and
/// that data, in order.
pub fn objects_in_nodes(nodes: &Vec<XmlNode>) -> (r: Vec<(String, String)>)
    requires
        tree_shaped(nodes_model(nodes@)),
    ensures
        r.deep_view() == objects_upto(nodes_model(nodes@), nodes@.len() as int),
{
    let ghost m = nodes_model(nodes@);
    let mut out: Vec<(String, String)> = Vec::new();
    let mut k: usize = 0;
    assert(out.deep_view() =~= Seq::<(Seq<char>, Seq<char>)>::empty());
    while k < nodes.len()
        invariant
            k <= nodes.len(),
            m == nodes_model(nodes@),
            tree_shaped(m),
            out.deep_view() == objects_upto(m, k as int),
        decreases nodes.len() - k,
    {
        assert(m[k as int] == node_model(nodes@[k as int]));
        let ghost before = out.deep_view();
        if node_is(&nodes[k], "response", None) {
            let end = nodes[k].end;
            if let Some(d) = node_text(&nodes, find_named(&nodes, k, end, "calendar-data", None)) {
                let href = match node_text(&nodes, find_child(&nodes, k, "href")) {
                    Some(h) => h,
                    None => String::new(),
                };
                out.push((href, d));
                assert(out.deep_view() =~= before.push((href@, d@)));
            }
        }
        assert(out.deep_view() =~= objects_upto(m, k + 1));
        k = k + 1;
    }
    out
}

/// The href a PROPFIND reply gives for a property (such as
/// `current-user-principal`): in the first element of that name, the first
/// `href`, trimmed; none when the request failed, the reply does not read
/// or nothing is there.
pub open spec fn href_in_reply(success: bool, body: Seq<char>, prop: Seq<char>) -> Option<Seq<char>> {
    if !success {
        None
    } else {
        match document_nodes(body) {
            Err(_) => None,
            Ok(ns) => href_in(ns, prop),
        }
    }
}

/// The href the nodes of a reply give for a property: in the first element
/// of that name, the first `href`, trimmed; none when nothing is there.
pub open spec fn href_in(ns: Seq<NodeModel>, prop: Seq<char>) -> Option<Seq<char>> {
    match first_named_in(ns, 0, ns.len() as int, prop, None) {
        None => None,
        Some(p) => trimmed_nonempty(text_at(ns, first_named_in(ns, p, ns[p].0, "href"@, None))),
    }
}

/// The href a PROPFIND reply gives for a property.
pub fn propfind_href(success: bool, body: &str, prop: &str) -> (r: Option<String>)
    ensures
        r.deep_view() == href_in_reply(success, body@, prop@),
{
    if !success {
        return None;
    }
    let nodes = match read_xml(body) {
        Ok(n) => n,
        Err(_) => return None,
    };
    href_in_nodes(&nodes, prop)
}

/// The href the nodes of a PROPFIND reply give for a property.
pub fn href_in_nodes(nodes: &Vec<XmlNode>, prop: &str) -> (r: Option<String>)
    requires
        tree_shaped(nodes_model(nodes@)),
    ensures
        r.deep_view() == href_in(nodes_model(nodes@), prop@),
{
    let ghost m = nodes_model(nodes@);
    let p = match find_named(nodes, 0, nodes.len(), prop, None) {
        Some(p) => p,
        None => return None,
    };
    assert(m[p as int] == node_model(nodes@[p as int]));
    let end = nodes[p].end;
    trimmed_text(&node_text(nodes, find_named(nodes, p, end, "href", None)))
}

} // verus!
