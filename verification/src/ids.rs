//! Identifiers: the 128-bit values of UUIDs and their text form, rendered by
//! the `uuid` crate.

use vstd::prelude::*;

verus! {

/// The lower-case hexadecimal digit of a nibble.
pub open spec fn hex_digit(n: int) -> char {
    if n < 10 { ((n + 48) as u32) as char } else { ((n + 87) as u32) as char }
}

/// The `i`-th of the 32 nibbles of `v`, most significant first.
pub open spec fn nibble(v: u128, i: int) -> int {
    ((v >> ((124 - 4 * i) as u128)) & 0xf) as int
}

/// The hyphenated lower-case form of a UUID, `8-4-4-4-12` hex digits,
/// most significant digit first.
pub open spec fn uuid_text(v: u128) -> Seq<char> {
    Seq::new(36, |p: int|
        if p == 8 || p == 13 || p == 18 || p == 23 {
            '-'
        } else {
            let i = if p < 8 { p } else if p < 13 { p - 1 } else if p < 18 { p - 2 } else if p < 23 { p - 3 } else { p - 4 };
            hex_digit(nibble(v, i))
        })
}

/// The text of a UUID (`uuid::Uuid::from_u128(v).to_string()`).
#[verifier::external_body]
pub(crate) fn format_uuid(v: u128) -> (s: String)
    ensures
        s@ == uuid_text(v),
{
    uuid::Uuid::from_u128(v).to_string()
}

/// The name-based (version 5, SHA-1) UUID of `name` in namespace `ns`.
pub uninterp spec fn uuid_v5(ns: u128, name: Seq<u8>) -> u128;

/// `uuid::Uuid::new_v5(&Uuid::from_u128(ns), name)`, as its 128-bit value.
#[verifier::external_body]
pub(crate) fn new_uuid_v5(ns: u128, name: &[u8]) -> (r: u128)
    ensures
        r == uuid_v5(ns, name@),
{
    uuid::Uuid::new_v5(&uuid::Uuid::from_u128(ns), name).as_u128()
}

} // verus!
