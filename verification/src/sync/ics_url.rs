//! Connector for any calendar that exposes an iCalendar URL: Google's
//! "secret address in iCal format", Outlook's published calendars, iCloud
//! public calendars, Nextcloud, Fastmail and so on.

use vstd::prelude::*;

use crate::text::{chars_of, decimal, decimal_text, str_equals, string_of, trim, trim_seq};
use crate::urls::{parse_url, url_parse};

verus! {

/// Refuse feeds larger than this to protect the parser (25 MiB).
pub const MAX_BYTES: u64 = 26214400;

/// Where a feed lives and the credentials for a protected one.
#[derive(Debug, Clone)]
pub struct IcsUrlConfig {
    pub url: String,
    /// Optional basic-auth credentials for protected feeds.
    pub username: Option<String>,
    pub password: Option<String>,
}

/// The iCalendar URL connector.
#[derive(Debug, Clone, Copy)]
pub struct IcsUrlConnector;

/// `webcal://` and `webcals://` links are plain HTTPS.
pub open spec fn https_url(u: Seq<char>) -> Seq<char> {
    if u.len() >= 9 && u.take(9) == "webcal://"@ {
        "https://"@ + u.skip(9)
    } else if u.len() >= 10 && u.take(10) == "webcals://"@ {
        "https://"@ + u.skip(10)
    } else {
        u
    }
}

/// An empty credential is no credential.
pub open spec fn credential(c: Option<Seq<char>>) -> Option<Seq<char>> {
    match c {
        Some(x) => if x.len() == 0 { None } else { Some(x) },
        None => None,
    }
}

/// The URL a feed configuration is stored with, or why it is refused.
pub open spec fn feed_url_of(raw: Seq<char>) -> Result<Seq<char>, Seq<char>> {
    let u = https_url(trim_seq(raw));
    match url_parse(u) {
        Err(e) => Err("invalid url: "@ + e),
        Ok(p) => if p.1 != "http"@ && p.1 != "https"@ {
            Err("url must use http or https"@)
        } else if p.2 is None {
            Err("url must have a host"@)
        } else {
            Ok(u)
        },
    }
}

fn starts_with_text(cs: &Vec<char>, pat: &str) -> (r: bool)
    ensures
        r == (cs@.len() >= pat@.len() && cs@.take(pat@.len() as int) == pat@),
{
    let p = chars_of(pat);
    if p.len() > cs.len() {
        return false;
    }
    let mut i: usize = 0;
    while i < p.len()
        invariant
            p@ == pat@,
            p.len() <= cs.len(),
            i <= p.len(),
            forall|k: int| 0 <= k < i ==> cs@[k] == p@[k],
        decreases p.len() - i,
    {
        if cs[i] != p[i] {
            assert(cs@.take(p.len() as int)[i as int] != pat@[i as int]);
            return false;
        }
        i = i + 1;
    }
    assert(cs@.take(p.len() as int) =~= pat@);
    true
}

fn empty_is_none(c: Option<String>) -> (r: Option<String>)
    ensures
        r.deep_view() == credential(c.deep_view()),
{
    match c {
        Some(x) => if x.as_str().is_empty() { None } else { Some(x) },
        None => None,
    }
}

impl IcsUrlConnector {
    /// Validate a feed configuration when a source is created or updated;
    /// returns the normalized configuration to store.
    pub fn validate_config(&self, config: IcsUrlConfig) -> (r: Result<IcsUrlConfig, String>)
        ensures
            r matches Ok(c) ==> feed_url_of(config.url@) == Ok::<Seq<char>, Seq<char>>(c.url@) && c.username.deep_view()
                == credential(config.username.deep_view()) && c.password.deep_view() == credential(config.password.deep_view()),
            r matches Err(e) ==> feed_url_of(config.url@) == Err::<Seq<char>, Seq<char>>(e@),
    {
        proof {
            reveal_strlit("webcal://");
            reveal_strlit("webcals://");
            reveal_strlit("https://");
        }
        let t = trim(config.url.as_str());
        let cs = chars_of(t.as_str());
        let url = if starts_with_text(&cs, "webcal://") {
            let mut u = String::from_str("https://");
            let rest = string_of(&cs, 9, cs.len());
            assert(rest@ =~= t@.skip(9));
            u.append(rest.as_str());
            u
        } else if starts_with_text(&cs, "webcals://") {
            let mut u = String::from_str("https://");
            let rest = string_of(&cs, 10, cs.len());
            assert(rest@ =~= t@.skip(10));
            u.append(rest.as_str());
            u
        } else {
            t
        };
        assert(url@ == https_url(trim_seq(config.url@)));
        let parsed = match parse_url(url.as_str()) {
            Ok(p) => p,
            Err(e) => {
                let mut m = String::from_str("invalid url: ");
                m.append(e.as_str());
                return Err(m);
            },
        };
        if !str_equals(parsed.scheme.as_str(), "http") && !str_equals(parsed.scheme.as_str(), "https") {
            return Err(String::from_str("url must use http or https"));
        }
        if parsed.host.is_none() {
            return Err(String::from_str("url must have a host"));
        }
        Ok(IcsUrlConfig { url, username: empty_is_none(config.username), password: empty_is_none(config.password) })
    }
}

/// The message for a feed over the size limit.
pub open spec fn too_large(len: nat) -> Seq<char> {
    "feed too large ("@ + decimal_text(len) + " bytes)"@
}

/// Refuse a feed larger than `MAX_BYTES`.
pub fn check_feed_size(len: u64) -> (r: Result<(), String>)
    ensures
        r is Ok <==> len <= MAX_BYTES,
        r matches Err(m) ==> m@ == too_large(len as nat),
{
    if len > MAX_BYTES {
        let mut m = String::from_str("feed too large (");
        m.append(decimal(len).as_str());
        m.append(" bytes)");
        return Err(m);
    }
    Ok(())
}


/// What a feed's HTTP reply leads to: unchanged since the validator sent
/// (304), a body to read (any 2xx), or a failure naming the status (`text`,
/// such as `404 Not Found`).
pub fn reply_step(status: u16, text: &str) -> (r: Result<bool, String>)
    ensures
        status == 304 ==> r == Ok::<bool, String>(false),
        status != 304 && 200 <= status <= 299 ==> r == Ok::<bool, String>(true),
        status != 304 && !(200 <= status <= 299) ==> (r matches Err(m) && m@ == "remote returned HTTP "@ + text@),
{
    if status == 304 {
        Ok(false)
    } else if 200 <= status && status <= 299 {
        Ok(true)
    } else {
        let mut m = String::from_str("remote returned HTTP ");
        m.append(text);
        Err(m)
    }
}

} // verus!
