//! Accounts: what registering and updating a profile accept.

use vstd::prelude::*;

use crate::error::{is_bad_request, AppError};
use crate::ics::parse::{octets, octets_below};
use crate::text::{lower_seq, str_equals, to_ascii_lowercase, trim, trim_seq};
use crate::timefmt::{canonical_zone, known_zone};

verus! {

/// A registration request.
#[derive(Debug, Clone)]
pub struct RegisterBody {
    pub email: String,
    pub password: String,
    pub display_name: String,
    pub timezone: Option<String>,
}

/// A login request.
#[derive(Debug, Clone)]
pub struct LoginBody {
    pub email: String,
    pub password: String,
}

/// A profile update.
#[derive(Debug, Clone)]
pub struct UpdateMeBody {
    pub display_name: Option<String>,
    pub timezone: Option<String>,
}

/// The zone name stored for a requested time zone, or the refusal.
pub open spec fn timezone_of(tz: Seq<char>) -> Result<Seq<char>, Seq<char>> {
    if known_zone(tz) {
        Ok(tz)
    } else {
        Err("unknown timezone"@)
    }
}

/// Check a time zone name against the zone database.
pub fn validate_timezone(tz: &str) -> (r: Result<String, AppError>)
    ensures
        r is Ok <==> known_zone(tz@),
        r matches Ok(n) ==> timezone_of(tz@) == Ok::<Seq<char>, Seq<char>>(n@),
        r matches Err(e) ==> is_bad_request(e, "unknown timezone"@) && timezone_of(tz@) == Err::<Seq<char>, Seq<char>>("unknown timezone"@),
{
    match canonical_zone(tz) {
        Some(n) => Ok(n),
        None => Err(AppError::bad_request("unknown timezone")),
    }
}

/// An email address as accounts are keyed: trimmed and lower-cased.
pub open spec fn normalized_email(e: Seq<char>) -> Seq<char> {
    lower_seq(trim_seq(e))
}

/// Normalize an email address.
pub fn normalize_email(e: &str) -> (r: String)
    ensures
        r@ == normalized_email(e@),
{
    let t = trim(e);
    to_ascii_lowercase(t.as_str())
}

/// The account a registration creates.
#[derive(Debug)]
pub struct NewAccount {
    pub email: String,
    pub display_name: String,
    pub timezone: String,
}

/// The number of UTF-8 bytes of a text (`str::len`).
pub open spec fn byte_len(s: Seq<char>) -> int {
    octets(s)
}

/// The account a registration creates (email, display name, time zone), or
/// why it is refused, in the order the checks run: registration closed,
/// invalid email, short password, no display name, unknown time zone.
pub open spec fn registration_outcome(allow: bool, b: RegisterBody) -> Result<(Seq<char>, Seq<char>, Seq<char>), Seq<char>> {
    let email = normalized_email(b.email@);
    let tz = match b.timezone {
        Some(t) => t@,
        None => "UTC"@,
    };
    if !allow {
        Err("registration is disabled on this server"@)
    } else if !email.contains('@') || byte_len(email) < 3 {
        Err("invalid email"@)
    } else if byte_len(b.password@) < 8 {
        Err("password must be at least 8 characters"@)
    } else if trim_seq(b.display_name@).len() == 0 {
        Err("display name is required"@)
    } else {
        match timezone_of(tz) {
            Ok(z) => Ok((email, trim_seq(b.display_name@), z)),
            Err(m) => Err(m),
        }
    }
}

/// Check a registration request and work out the account it creates.
pub fn check_registration(allow_registration: bool, body: &RegisterBody) -> (r: Result<NewAccount, AppError>)
    ensures
        r matches Ok(a) ==> registration_outcome(allow_registration, *body) == Ok::<(Seq<char>, Seq<char>, Seq<char>), Seq<char>>(
            (a.email@, a.display_name@, a.timezone@),
        ),
        r matches Err(e) ==> (registration_outcome(allow_registration, *body) matches Err(m) && if allow_registration {
            is_bad_request(e, m)
        } else {
            (e matches AppError::Forbidden(x) && x@ == m)
        }),
{
    if !allow_registration {
        return Err(AppError::forbidden("registration is disabled on this server"));
    }
    let email = normalize_email(body.email.as_str());
    if !has_at(email.as_str()) || octets_below(email.as_str(), 3) {
        return Err(AppError::bad_request("invalid email"));
    }
    if octets_below(body.password.as_str(), 8) {
        return Err(AppError::bad_request("password must be at least 8 characters"));
    }
    let display_name = trim(body.display_name.as_str());
    if display_name.as_str().is_empty() {
        return Err(AppError::bad_request("display name is required"));
    }
    let tz: &str = match &body.timezone {
        Some(t) => t.as_str(),
        None => "UTC",
    };
    let timezone = validate_timezone(tz)?;
    Ok(NewAccount { email, display_name, timezone })
}

fn has_at(s: &str) -> (r: bool)
    ensures
        r == s@.contains('@'),
{
    let cs = crate::text::chars_of(s);
    let mut i: usize = 0;
    while i < cs.len()
        invariant
            cs@ == s@,
            i <= cs.len(),
            forall|k: int| 0 <= k < i ==> cs@[k] != '@',
        decreases cs.len() - i,
    {
        if cs[i] == '@' {
            assert(cs@[i as int] == '@');
            return true;
        }
        i = i + 1;
    }
    false
}

/// A profile after an update: a blank or absent display name keeps the
/// current one; a time zone must be known.
pub fn updated_profile(display_name: String, timezone: String, body: &UpdateMeBody) -> (r: Result<(String, String), AppError>)
    ensures
        r matches Ok(p) ==> p.0@ == crate::routes::shares::updated_name(body.display_name.deep_view(), display_name@) && match body.timezone {
            Some(t) => timezone_of(t@) == Ok::<Seq<char>, Seq<char>>(p.1@),
            None => p.1@ == timezone@,
        },
        r is Err <==> (body.timezone matches Some(t) && !known_zone(t@)),
        r matches Err(e) ==> is_bad_request(e, "unknown timezone"@),
{
    let name = crate::routes::shares::update_name(
        match &body.display_name {
            Some(n) => Some(n.clone()),
            None => None,
        },
        display_name,
    );
    let tz = match &body.timezone {
        Some(t) => validate_timezone(t.as_str())?,
        None => timezone,
    };
    Ok((name, tz))
}

} // verus!
