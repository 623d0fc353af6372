//! The SHA-256 digest, named but not restated, with a trusted binding to the
//! `sha2` crate and verified helpers over it.

use vstd::prelude::*;
use vstd::string::StringSliceAdditionalSpecFns;

use crate::hexstr::{hex_of, hex_encode};

verus! {

/// The SHA-256 digest of a byte string. The digest is a function of the
/// input bytes alone; its value is not restated here.
pub uninterp spec fn sha256_of(bytes: Seq<u8>) -> Seq<u8>;

/// The lower-case hex rendering of the SHA-256 digest of the UTF-8 bytes of
/// a string: how the catalog stores hashes of passwords and tokens.
pub open spec fn sha256_hex_of_chars(s: Seq<char>) -> Seq<char> {
    hex_of(sha256_of(vstd::utf8::encode_utf8(s)))
}

/// Relies on `sha2::Sha256` (through `Digest::digest`): a 32-byte digest that
/// depends on the input bytes alone.
#[verifier::external_body]
pub fn sha256_bytes(bytes: &[u8]) -> (r: Vec<u8>)
    ensures
        r@ == sha256_of(bytes@),
        r@.len() == 32,
{
    <sha2::Sha256 as sha2::Digest>::digest(bytes).as_slice().to_vec()
}

/// The lower-case hex rendering of the SHA-256 digest of a byte string.
pub fn sha256_hex(bytes: &[u8]) -> (r: String)
    ensures
        r@ == hex_of(sha256_of(bytes@)),
{
    let digest = sha256_bytes(bytes);
    hex_encode(digest.as_slice())
}

/// The lower-case hex rendering of the SHA-256 digest of a string's UTF-8
/// bytes.
pub fn sha256_hex_str(s: &str) -> (r: String)
    ensures
        r@ == sha256_hex_of_chars(s@),
{
    sha256_hex(s.as_bytes())
}

} // verus!
