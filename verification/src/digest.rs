//! SHA-256 digests and their hexadecimal text, from the `sha2` and `hex`
//! crates.

use vstd::prelude::*;

use crate::ids::hex_digit;

verus! {

/// The SHA-256 digest of a byte string.
pub uninterp spec fn sha256(bytes: Seq<u8>) -> Seq<u8>;

/// `<sha2::Sha256 as Digest>::digest`; a SHA-256 digest is 32 bytes long.
#[verifier::external_body]
pub(crate) fn sha256_digest(bytes: &[u8]) -> (r: Vec<u8>)
    ensures
        r@ == sha256(bytes@),
        r@.len() == 32,
{
    <sha2::Sha256 as sha2::Digest>::digest(bytes).to_vec()
}

/// Lower-case hexadecimal text of bytes, two digits per byte, high nibble
/// first.
pub open spec fn hex_text(bytes: Seq<u8>) -> Seq<char> {
    Seq::new(2 * bytes.len(), |i: int| hex_digit(if i % 2 == 0 { bytes[i / 2] / 16 } else { bytes[i / 2] % 16 } as int))
}

/// `hex::encode`: lower-case hexadecimal text of bytes.
#[verifier::external_body]
pub(crate) fn hex_encode(bytes: &[u8]) -> (r: String)
    ensures
        r@ == hex_text(bytes@),
{
    hex::encode(bytes)
}

/// The hexadecimal SHA-256 digest of a text's UTF-8 bytes.
pub open spec fn digest_text(s: Seq<char>) -> Seq<char> {
    hex_text(sha256(vstd::utf8::encode_utf8(s)))
}

/// The hexadecimal SHA-256 digest of a text's UTF-8 bytes.
pub fn sha256_hex(s: &str) -> (r: String)
    ensures
        r@ == digest_text(s@),
{
    let d = sha256_digest(s.as_bytes());
    hex_encode(d.as_slice())
}

} // verus!
