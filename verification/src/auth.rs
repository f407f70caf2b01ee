//! Password hashing, opaque session tokens and how a request names its
//! session.
//!
//! Sessions are random 256-bit tokens; only their SHA-256 hash is stored so a
//! database leak does not leak live sessions.

use vstd::prelude::*;

use crate::digest::{digest_text, sha256_hex};
use crate::text::{chars_of, string_of, trim, trim_seq};
use crate::timefmt::representable;

verus! {

/// The name of the session cookie.
pub const SESSION_COOKIE: &'static str = "opentempus_session";

/// Whether `password` matches the PHC hash string `hash` under Argon2.
pub uninterp spec fn argon2_verifies(password: Seq<char>, hash: Seq<char>) -> bool;

/// Hashes a password with `argon2::Argon2::default()` (Argon2id) and a
/// random salt from `OsRng`, as a PHC string. The salt is random, so the
/// hash is not named; the crate's documented behaviour is that the hash
/// verifies for the password it was made from.
#[verifier::external_body]
pub fn hash_password(password: &str) -> (r: Result<String, String>)
    ensures
        r matches Ok(h) ==> argon2_verifies(password@, h@),
{
    let salt = argon2::password_hash::SaltString::generate(&mut argon2::password_hash::rand_core::OsRng);
    argon2::PasswordHasher::hash_password(&argon2::Argon2::default(), password.as_bytes(), &salt)
        .map(|h| h.to_string())
        .map_err(|e| format!("hash error: {e}"))
}

/// Parses the PHC string with `argon2::PasswordHash::new` and checks the
/// password with `Argon2::default().verify_password`; false when the string
/// does not parse.
#[verifier::external_body]
pub fn verify_password(password: &str, hash: &str) -> (r: bool)
    ensures
        r == argon2_verifies(password@, hash@),
{
    match argon2::PasswordHash::new(hash) {
        Ok(parsed) => argon2::PasswordVerifier::verify_password(&argon2::Argon2::default(), password.as_bytes(), &parsed).is_ok(),
        Err(_) => false,
    }
}

/// `n` random bytes from `rand::thread_rng()`.
#[verifier::external_body]
fn random_bytes(n: usize) -> (r: Vec<u8>)
    ensures
        r@.len() == n,
{
    let mut buf = vec![0u8; n];
    rand::RngCore::fill_bytes(&mut rand::thread_rng(), &mut buf);
    buf
}

/// The character of a 6-bit value in the URL-safe base64 alphabet.
pub open spec fn b64_char(v: int) -> char {
    if v < 26 {
        ((v + 65) as u32) as char
    } else if v < 52 {
        ((v + 71) as u32) as char
    } else if v < 62 {
        ((v - 4) as u32) as char
    } else if v == 62 {
        '-'
    } else {
        '_'
    }
}

/// URL-safe base64 without padding: each three bytes become four
/// characters; a trailing one or two bytes become two or three.
pub open spec fn base64_url(b: Seq<u8>) -> Seq<char>
    decreases b.len(),
{
    if b.len() == 0 {
        Seq::empty()
    } else if b.len() == 1 {
        seq![b64_char((b[0] / 4) as int), b64_char((b[0] % 4) * 16)]
    } else if b.len() == 2 {
        seq![b64_char((b[0] / 4) as int), b64_char((b[0] % 4) * 16 + b[1] / 16), b64_char((b[1] % 16) * 4)]
    } else {
        seq![b64_char((b[0] / 4) as int), b64_char((b[0] % 4) * 16 + b[1] / 16), b64_char((b[1] % 16) * 4 + b[2] / 64), b64_char((b[2] % 64) as int)]
            + base64_url(b.skip(3))
    }
}

/// `base64::engine::general_purpose::URL_SAFE_NO_PAD.encode`.
#[verifier::external_body]
fn base64_url_encode(bytes: &[u8]) -> (r: String)
    ensures
        r@ == base64_url(bytes@),
{
    base64::Engine::encode(&base64::engine::general_purpose::URL_SAFE_NO_PAD, bytes)
}

/// Generate a URL-safe random token of `bytes` random bytes.
pub fn random_token(bytes: usize) -> (r: String)
    ensures
        exists|b: Seq<u8>| b.len() == bytes && r@ == base64_url(b),
{
    let buf = random_bytes(bytes);
    let t = base64_url_encode(buf.as_slice());
    assert(buf@.len() == bytes && t@ == base64_url(buf@));
    t
}

/// What is stored for a session token: its SHA-256 digest in hexadecimal.
pub fn hash_token(token: &str) -> (r: String)
    ensures
        r@ == digest_text(token@),
{
    sha256_hex(token)
}

/// The token an `Authorization` header carries: after `Bearer `, trimmed.
pub open spec fn bearer_token(header: Seq<char>) -> Option<Seq<char>> {
    if header.len() >= 7 && header.take(7) == "Bearer "@ {
        Some(trim_seq(header.skip(7)))
    } else {
        None
    }
}

/// The session a request names: its session cookie, else a bearer token.
pub open spec fn request_token(cookie: Option<Seq<char>>, authorization: Option<Seq<char>>) -> Option<Seq<char>> {
    match cookie {
        Some(c) => Some(c),
        None => match authorization {
            Some(h) => bearer_token(h),
            None => None,
        },
    }
}

/// The session token of a request, from the session cookie or an
/// `Authorization: Bearer` header.
pub fn session_token(cookie: Option<String>, authorization: Option<String>) -> (r: Option<String>)
    ensures
        r.deep_view() == request_token(cookie.deep_view(), authorization.deep_view()),
{
    if let Some(c) = cookie {
        return Some(c);
    }
    let h = match authorization {
        Some(h) => h,
        None => return None,
    };
    proof {
        reveal_strlit("Bearer ");
    }
    let cs = chars_of(h.as_str());
    if cs.len() >= 7 && cs[0] == 'B' && cs[1] == 'e' && cs[2] == 'a' && cs[3] == 'r' && cs[4] == 'e' && cs[5] == 'r' && cs[6] == ' ' {
        assert(h@.take(7) =~= "Bearer "@);
        let rest = string_of(&cs, 7, cs.len());
        assert(rest@ =~= h@.skip(7));
        Some(trim(rest.as_str()))
    } else {
        assert(cs@.len() >= 7 ==> h@.take(7) != "Bearer "@) by {
            if cs@.len() >= 7 && h@.take(7) == "Bearer "@ {
                assert(h@.take(7)[0] == cs@[0]);
                assert(h@.take(7)[1] == cs@[1]);
                assert(h@.take(7)[2] == cs@[2]);
                assert(h@.take(7)[3] == cs@[3]);
                assert(h@.take(7)[4] == cs@[4]);
                assert(h@.take(7)[5] == cs@[5]);
                assert(h@.take(7)[6] == cs@[6]);
            }
        }
        None
    }
}

/// When a session created at `now` expires: `ttl_days` days later.
pub fn session_expiry(now: i64, ttl_days: i64) -> (r: i64)
    requires
        representable(now + ttl_days * 86400),
        -1_000_000_000 <= ttl_days <= 1_000_000_000,
    ensures
        r == now + ttl_days * 86400,
{
    now + ttl_days * 86400
}

/// The lifetime of a session cookie: the seconds until the session
/// expires, none left when it already has.
pub fn cookie_max_age(expires_at: i64, now: i64) -> (r: i64)
    requires
        representable(expires_at as int),
        representable(now as int),
    ensures
        r == if expires_at - now < 0 { 0 } else { expires_at - now },
{
    let d = expires_at - now;
    if d < 0 { 0 } else { d }
}

/// Whether a character is in the URL-safe base64 alphabet.
pub open spec fn url_safe(c: char) -> bool {
    ('A' <= c && c <= 'Z') || ('a' <= c && c <= 'z') || ('0' <= c && c <= '9') || c == '-' || c == '_'
}

/// Tokens are URL-safe: `n` random bytes become `(4n + 2) / 3` characters
/// of the URL-safe base64 alphabet (a share token of 24 bytes, 192 bits, is
/// 32 characters).
pub proof fn law_tokens_are_url_safe(b: Seq<u8>)
    ensures
        base64_url(b).len() == (4 * b.len() + 2) / 3,
        forall|i: int| 0 <= i < base64_url(b).len() ==> url_safe(#[trigger] base64_url(b)[i]),
    decreases b.len(),
{
    if b.len() >= 3 {
        law_tokens_are_url_safe(b.skip(3));
        let head = seq![
            b64_char((b[0] / 4) as int),
            b64_char((b[0] % 4) * 16 + b[1] / 16),
            b64_char((b[1] % 16) * 4 + b[2] / 64),
            b64_char((b[2] % 64) as int),
        ];
        assert(base64_url(b) == head + base64_url(b.skip(3)));
        assert forall|i: int| 0 <= i < base64_url(b).len() implies url_safe(#[trigger] base64_url(b)[i]) by {
            if i >= 4 {
                assert(base64_url(b)[i] == base64_url(b.skip(3))[i - 4]);
            }
        }
    }
}

} // verus!
