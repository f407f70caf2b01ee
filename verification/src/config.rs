//! How configuration values read from the environment are interpreted.

use vstd::prelude::*;

use crate::sync::caldav::strip_trailing_slashes;
use crate::text::{chars_of, decimal, decimal_text, lower_seq, parse_integer, parsed_integer, str_equals, string_of, to_ascii_lowercase, trim, trim_seq};

verus! {

/// Whether a flag's text means yes: `1`, `true`, `yes` or `on`, ignoring
/// surrounding whitespace and ASCII case.
pub open spec fn flag_on(v: Seq<char>) -> bool {
    let t = lower_seq(trim_seq(v));
    t == "1"@ || t == "true"@ || t == "yes"@ || t == "on"@
}

/// A boolean setting: the flag's meaning when it is set, else the default.
pub fn flag_value(value: Option<&str>, default: bool) -> (r: bool)
    ensures
        r == match value {
            Some(v) => flag_on(v@),
            None => default,
        },
{
    match value {
        Some(v) => {
            let t = to_ascii_lowercase(trim(v).as_str());
            str_equals(t.as_str(), "1") || str_equals(t.as_str(), "true") || str_equals(t.as_str(), "yes") || str_equals(
                t.as_str(),
                "on",
            )
        },
        None => default,
    }
}

/// The public base URL without trailing slashes.
pub fn public_base(url: &str) -> (r: String)
    ensures
        r@ == strip_trailing_slashes(url@),
{
    let cs = chars_of(url);
    let mut end = cs.len();
    assert(cs@.take(end as int) =~= url@);
    while end > 0 && cs[end - 1] == '/'
        invariant
            end <= cs.len(),
            strip_trailing_slashes(cs@.take(end as int)) == strip_trailing_slashes(url@),
        decreases end,
    {
        assert(cs@.take(end as int).drop_last() =~= cs@.take(end - 1));
        end = end - 1;
    }
    assert(cs@.subrange(0, end as int) =~= cs@.take(end as int));
    string_of(&cs, 0, end)
}

/// Whether the auth cookie is `Secure` unless configured: when the public
/// URL is HTTPS.
pub fn secure_by_default(public_url: &str) -> (r: bool)
    ensures
        r == (public_url@.len() >= 8 && public_url@.take(8) == "https://"@),
{
    proof {
        reveal_strlit("https://");
    }
    let cs = chars_of(public_url);
    if cs.len() < 8 {
        return false;
    }
    let head = string_of(&cs, 0, 8);
    assert(head@ =~= public_url@.take(8));
    str_equals(head.as_str(), "https://")
}


/// The environment values the server reads, each as it is set, if set.
#[derive(Debug, Clone)]
pub struct EnvValues {
    pub database_url: Option<String>,
    pub listen: Option<String>,
    pub public_url: Option<String>,
    pub allow_registration: Option<String>,
    pub sync_concurrency: Option<String>,
    pub scheduler_tick_secs: Option<String>,
    pub session_ttl_days: Option<String>,
    pub secure_cookies: Option<String>,
    pub web_dir: Option<String>,
}

/// The settings the server runs with, but for the database and the
/// address it listens on.
#[derive(Debug, Clone)]
pub struct Settings {
    /// Public base URL used to render feed links, e.g. `https://cal.example.com`.
    pub public_url: String,
    /// Whether new accounts may be created through the API.
    pub allow_registration: bool,
    /// Maximum number of calendar sources synced concurrently.
    pub sync_concurrency: usize,
    /// How often the scheduler looks for due sources.
    pub scheduler_tick_secs: u64,
    /// Session lifetime.
    pub session_ttl_days: i64,
    /// Whether the auth cookie is marked `Secure` (requires HTTPS).
    pub secure_cookies: bool,
    /// Where the built web app lives.
    pub web_dir: String,
}

/// The database to use: it must be set.
pub fn database_url(value: Option<String>) -> (r: Result<String, String>)
    ensures
        value matches Some(v) ==> r == Ok::<String, String>(v),
        value is None ==> (r matches Err(e) && e@ == "DATABASE_URL must be set"@),
{
    match value {
        Some(v) => Ok(v),
        None => Err(String::from_str("DATABASE_URL must be set")),
    }
}

/// The address to listen on: the one set, else `0.0.0.0:8080`.
pub fn listen_address(value: Option<String>) -> (r: String)
    ensures
        r@ == match value {
            Some(v) => v@,
            None => "0.0.0.0:8080"@,
        },
{
    match value {
        Some(v) => v,
        None => String::from_str("0.0.0.0:8080"),
    }
}

/// A number setting: the value the text parses to in `[lo, hi]`, else the
/// default (also when it is not set).
pub open spec fn number_setting(value: Option<Seq<char>>, lo: int, hi: int, default: int) -> int {
    match value {
        Some(t) => match parsed_integer(t, lo, hi) {
            Some(x) => x,
            None => default,
        },
        None => default,
    }
}

fn number_or(value: &Option<String>, lo: i128, hi: i128, default: i128) -> (r: i128)
    requires
        -0x1_0000_0000_0000_0000 <= lo <= 0 <= hi <= 0x1_0000_0000_0000_0000,
        lo <= default <= hi,
    ensures
        r == number_setting(value.deep_view(), lo as int, hi as int, default as int),
        lo <= r <= hi,
{
    match value {
        Some(t) => match parse_integer(t.as_str(), lo, hi) {
            Some(x) => x,
            None => default,
        },
        None => default,
    }
}

/// The public URL when none is set: the local host at the listening port.
pub open spec fn default_public_url(port: u16) -> Seq<char> {
    "http://localhost:"@ + decimal_text(port as nat)
}

/// The public URL: the one set, else the local host at the listening port;
/// without trailing slashes.
pub open spec fn public_url_of(value: Option<Seq<char>>, port: u16) -> Seq<char> {
    strip_trailing_slashes(
        match value {
            Some(v) => v,
            None => default_public_url(port),
        },
    )
}

/// The settings the environment gives, `port` being the one the server
/// listens on. Each setting falls back to its default when it is not set or,
/// for a number, does not parse: registration open, 4 sources at a time, a
/// tick of 30 seconds, sessions of 30 days, `Secure` cookies when the
/// public URL is HTTPS, and the web app in `web/dist`.
pub fn settings(env: &EnvValues, port: u16) -> (s: Settings)
    ensures
        s.public_url@ == public_url_of(env.public_url.deep_view(), port),
        s.allow_registration == match env.allow_registration {
            Some(v) => flag_on(v@),
            None => true,
        },
        s.sync_concurrency == number_setting(env.sync_concurrency.deep_view(), 0, usize::MAX as int, 4),
        s.scheduler_tick_secs == number_setting(env.scheduler_tick_secs.deep_view(), 0, u64::MAX as int, 30),
        s.session_ttl_days == number_setting(env.session_ttl_days.deep_view(), i64::MIN as int, i64::MAX as int, 30),
        s.secure_cookies == match env.secure_cookies {
            Some(v) => flag_on(v@),
            None => s.public_url@.len() >= 8 && s.public_url@.take(8) == "https://"@,
        },
        s.web_dir@ == match env.web_dir {
            Some(v) => v@,
            None => "web/dist"@,
        },
{
    let raw = match &env.public_url {
        Some(v) => v.clone(),
        None => {
            let mut u = String::from_str("http://localhost:");
            u.append(decimal(port as u64).as_str());
            u
        },
    };
    let public_url = public_base(raw.as_str());
    let allow_registration = match &env.allow_registration {
        Some(v) => flag_value(Some(v.as_str()), true),
        None => true,
    };
    let sync_concurrency = number_or(&env.sync_concurrency, 0, usize::MAX as i128, 4) as usize;
    let scheduler_tick_secs = number_or(&env.scheduler_tick_secs, 0, u64::MAX as i128, 30) as u64;
    let session_ttl_days = number_or(&env.session_ttl_days, i64::MIN as i128, i64::MAX as i128, 30) as i64;
    let secure_cookies = match &env.secure_cookies {
        Some(v) => flag_value(Some(v.as_str()), true),
        None => secure_by_default(public_url.as_str()),
    };
    let web_dir = match &env.web_dir {
        Some(v) => v.clone(),
        None => String::from_str("web/dist"),
    };
    Settings { public_url, allow_registration, sync_concurrency, scheduler_tick_secs, session_ttl_days, secure_cookies, web_dir }
}

} // verus!
