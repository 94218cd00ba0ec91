//! SHA-256 digests in hexadecimal notation.

use vstd::prelude::*;
use vstd::utf8::encode_utf8;

use sha2::Digest;

use crate::text;

verus! {

/// The SHA-256 digest of `bytes`.
pub uninterp spec fn sha256(bytes: Seq<u8>) -> Seq<u8>;

/// Calls `sha2::Sha256::digest`. Claims that its result depends on the bytes
/// alone, and that it is 32 bytes long.
#[verifier::external_body]
fn sha256_digest(bytes: &[u8]) -> (r: Vec<u8>)
    ensures
        r@ == sha256(bytes@),
        r@.len() == 32,
{
    sha2::Sha256::digest(bytes).to_vec()
}

/// Bytes in hexadecimal notation: two lower-case digits for each, the high one
/// first.
pub open spec fn hex_bytes(bytes: Seq<u8>) -> Seq<char>
    decreases bytes.len(),
{
    if bytes.len() == 0 {
        Seq::empty()
    } else {
        hex_bytes(bytes.drop_last()) + text::hex(bytes.last() as nat, 2)
    }
}

/// Calls `hex::encode`. Claims that it writes each byte as two lower-case
/// hexadecimal digits, in the order of the bytes.
#[verifier::external_body]
fn hex_encode(bytes: &[u8]) -> (r: String)
    ensures
        r@ == hex_bytes(bytes@),
{
    hex::encode(bytes)
}

/// The digest of `bytes` in hexadecimal notation.
pub open spec fn hex_digest(bytes: Seq<u8>) -> Seq<char> {
    hex_bytes(sha256(bytes))
}

/// `hex_digest`, executable.
pub fn sha256_hex(bytes: &[u8]) -> (r: String)
    ensures
        r@ == hex_digest(bytes@),
        r@.len() == 64,
{
    let digest = sha256_digest(bytes);
    let r = hex_encode(digest.as_slice());
    proof {
        hex_bytes_len(digest@);
    }
    r
}

/// The digest of a text in hexadecimal notation.
pub fn sha256_text(value: &str) -> (r: String)
    ensures
        r@ == hex_digest(encode_utf8(value@)),
        r@.len() == 64,
{
    sha256_hex(value.as_bytes())
}

/// Each byte takes two digits.
pub proof fn hex_bytes_len(bytes: Seq<u8>)
    ensures
        hex_bytes(bytes).len() == 2 * bytes.len(),
    decreases bytes.len(),
{
    if bytes.len() > 0 {
        hex_bytes_len(bytes.drop_last());
        reveal_with_fuel(text::hex, 3);
    }
}

} // verus!
