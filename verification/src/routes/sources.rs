//! Calendar sources: cleaning what a request sends, the defaults and limits
//! of a source's settings, and keeping secrets out of responses.

use vstd::prelude::*;

use crate::error::{is_bad_request, AppError};
use crate::text::{chars_of, lower_seq, str_equals, to_ascii_lowercase, trim, trim_seq};

verus! {

/// A category as stored: trimmed and lower-cased, `personal` when empty.
pub open spec fn category_of(c: Option<Seq<char>>) -> Seq<char> {
    let t = lower_seq(
        trim_seq(
            match c {
                Some(x) => x,
                None => Seq::empty(),
            },
        ),
    );
    if t.len() == 0 { "personal"@ } else { t }
}

/// Clean a category from a request.
pub fn clean_category(c: Option<String>) -> (r: String)
    ensures
        r@ == category_of(c.deep_view()),
{
    let raw = match c {
        Some(x) => x,
        None => String::new(),
    };
    let t = trim(raw.as_str());
    let l = to_ascii_lowercase(t.as_str());
    if l.as_str().is_empty() {
        String::from_str("personal")
    } else {
        l
    }
}

pub open spec fn is_hex_digit(c: char) -> bool {
    ('0' <= c && c <= '9') || ('a' <= c && c <= 'f') || ('A' <= c && c <= 'F')
}

/// Whether a text is a color `#rrggbb`.
pub open spec fn is_color(s: Seq<char>) -> bool {
    s.len() == 7 && s[0] == '#' && forall|i: int| 1 <= i < 7 ==> is_hex_digit(#[trigger] s[i])
}

/// A color from a request: trimmed; it must look like `#rrggbb`.
pub fn clean_color(c: Option<String>) -> (r: Result<Option<String>, AppError>)
    ensures
        c is None ==> r matches Ok(None),
        c matches Some(x) ==> (is_color(trim_seq(x@)) <==> r is Ok),
        r matches Ok(Some(y)) ==> c matches Some(x) && y@ == trim_seq(x@),
        r matches Err(e) ==> is_bad_request(e, "color must look like #rrggbb"@),
{
    match c {
        None => Ok(None),
        Some(c) => {
            let t = trim(c.as_str());
            let cs = chars_of(t.as_str());
            let mut ok = cs.len() == 7 && cs[0] == '#';
            let mut i: usize = 1;
            while ok && i < 7
                invariant
                    cs@ == t@,
                    ok ==> cs@.len() == 7 && cs@[0] == '#',
                    1 <= i <= 7,
                    ok ==> forall|k: int| 1 <= k < i ==> is_hex_digit(#[trigger] cs@[k]),
                    !ok ==> !is_color(t@),
                decreases 7 - i,
            {
                let ch = cs[i];
                if !(('0' <= ch && ch <= '9') || ('a' <= ch && ch <= 'f') || ('A' <= ch && ch <= 'F')) {
                    ok = false;
                }
                i = i + 1;
            }
            if ok {
                Ok(Some(t))
            } else {
                Err(AppError::bad_request("color must look like #rrggbb"))
            }
        },
    }
}

/// How often, and how far back and ahead, a source is synced.
#[derive(Debug, Clone, Copy, PartialEq, Eq)]
pub struct SourceSettings {
    pub sync_interval_secs: i32,
    pub horizon_past_days: i32,
    pub horizon_future_days: i32,
}

pub open spec fn clamp_spec(v: int, lo: int, hi: int) -> int {
    if v < lo { lo } else if v > hi { hi } else { v }
}

fn clamp_i32(v: i32, lo: i32, hi: i32) -> (r: i32)
    requires
        lo <= hi,
    ensures
        r == clamp_spec(v as int, lo as int, hi as int),
{
    if v < lo { lo } else if v > hi { hi } else { v }
}

/// Settings from a request, each falling back to `defaults` when absent:
/// the sync interval kept within a minute and a day, the horizon within
/// 0 to 3650 days back and 1 to 3650 days ahead.
pub open spec fn settings_of(sync: Option<i32>, past: Option<i32>, future: Option<i32>, defaults: SourceSettings) -> SourceSettings {
    SourceSettings {
        sync_interval_secs: clamp_spec(
            match sync {
                Some(v) => v as int,
                None => defaults.sync_interval_secs as int,
            },
            60,
            86400,
        ) as i32,
        horizon_past_days: clamp_spec(
            match past {
                Some(v) => v as int,
                None => defaults.horizon_past_days as int,
            },
            0,
            3650,
        ) as i32,
        horizon_future_days: clamp_spec(
            match future {
                Some(v) => v as int,
                None => defaults.horizon_future_days as int,
            },
            1,
            3650,
        ) as i32,
    }
}

/// The settings a new source gets when a request leaves them out: every
/// 15 minutes, 30 days back, 365 days ahead.
pub fn default_settings() -> (s: SourceSettings)
    ensures
        s == (SourceSettings { sync_interval_secs: 900, horizon_past_days: 30, horizon_future_days: 365 }),
{
    SourceSettings { sync_interval_secs: 900, horizon_past_days: 30, horizon_future_days: 365 }
}

/// The settings of a source after a request (for a new source, `defaults`
/// are the default settings; for an update, the current ones).
pub fn source_settings(sync: Option<i32>, past: Option<i32>, future: Option<i32>, defaults: SourceSettings) -> (s: SourceSettings)
    ensures
        s == settings_of(sync, past, future, defaults),
{
    let a = match sync {
        Some(v) => v,
        None => defaults.sync_interval_secs,
    };
    let b = match past {
        Some(v) => v,
        None => defaults.horizon_past_days,
    };
    let c = match future {
        Some(v) => v,
        None => defaults.horizon_future_days,
    };
    SourceSettings {
        sync_interval_secs: clamp_i32(a, 60, 86400),
        horizon_past_days: clamp_i32(b, 0, 3650),
        horizon_future_days: clamp_i32(c, 1, 3650),
    }
}

/// What stands in for a password in responses.
pub const PASSWORD_MASK: &'static str = "••••••";

/// What a response shows of one entry of a stored configuration: nothing
/// of the password (none stands for the mask), every other value as it is.
pub open spec fn shown_entry<V>(e: (String, V)) -> (String, Option<V>) {
    (e.0, if e.0@ == "password"@ { None } else { Some(e.1) })
}

/// What a response shows of the entries of a stored configuration, in
/// order: the password, under whatever form, is replaced by the mask (none
/// here); every other entry is shown as it is.
pub fn masked_config<V>(entries: Vec<(String, V)>) -> (r: Vec<(String, Option<V>)>)
    ensures
        r@.len() == entries@.len(),
        forall|i: int| 0 <= i < entries@.len() ==> #[trigger] r@[i] == shown_entry(entries@[i]),
{
    let ghost all = entries@;
    let mut rest = crate::vecs::reversed(entries);
    let mut out: Vec<(String, Option<V>)> = Vec::new();
    while rest.len() > 0
        invariant
            rest@.len() <= all.len(),
            rest@ == all.skip(out@.len() as int).reverse(),
            out@.len() + rest@.len() == all.len(),
            forall|i: int| 0 <= i < out@.len() ==> #[trigger] out@[i] == shown_entry(all[i]),
        decreases rest.len(),
    {
        let ghost n = out@.len();
        let (k, v) = rest.pop().unwrap();
        assert(all[n as int] == (k, v)) by {
            assert(all.skip(n as int).reverse()[rest@.len() as int] == all.skip(n as int)[0]);
        }
        let hide = str_equals(k.as_str(), "password");
        if hide {
            out.push((k, None));
        } else {
            out.push((k, Some(v)));
        }
        assert(rest@ =~= all.skip(n as int + 1).reverse());
    }
    out
}

/// The password to store after an update: a client that sends the mask
/// back keeps the stored password.
pub open spec fn password_after_update(sent: Option<Seq<char>>, stored: Option<Seq<char>>) -> Option<Seq<char>> {
    if sent == Some(PASSWORD_MASK@) && stored is Some {
        stored
    } else {
        sent
    }
}

/// The password to store after an update.
pub fn kept_password(sent: Option<String>, stored: Option<String>) -> (r: Option<String>)
    ensures
        r.deep_view() == password_after_update(sent.deep_view(), stored.deep_view()),
{
    let is_mask = match &sent {
        Some(s) => str_equals(s.as_str(), PASSWORD_MASK),
        None => false,
    };
    if is_mask && stored.is_some() {
        stored
    } else {
        sent
    }
}

/// `true`, the default of the `wait` flag.
pub fn default_true() -> (b: bool)
    ensures
        b,
{
    true
}

/// Query of a manual sync.
#[derive(Debug, Clone, Copy)]
pub struct SyncQuery {
    /// When true (default) the request waits for the sync to finish.
    pub wait: bool,
}

} // verus!
