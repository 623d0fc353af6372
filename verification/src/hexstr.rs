//! Lower-case hexadecimal encoding of byte strings, with an exact
//! specification, and trusted bindings to the `hex` crate.

use vstd::prelude::*;

verus! {

/// The lower-case hex digit for a value below sixteen.
pub open spec fn hex_digit(n: u8) -> char {
    if n == 0 {
        '0'
    } else if n == 1 {
        '1'
    } else if n == 2 {
        '2'
    } else if n == 3 {
        '3'
    } else if n == 4 {
        '4'
    } else if n == 5 {
        '5'
    } else if n == 6 {
        '6'
    } else if n == 7 {
        '7'
    } else if n == 8 {
        '8'
    } else if n == 9 {
        '9'
    } else if n == 10 {
        'a'
    } else if n == 11 {
        'b'
    } else if n == 12 {
        'c'
    } else if n == 13 {
        'd'
    } else if n == 14 {
        'e'
    } else {
        'f'
    }
}

/// Lower-case hex encoding: two digits for each byte, in order.
pub open spec fn hex_of(bytes: Seq<u8>) -> Seq<char>
    decreases bytes.len(),
{
    if bytes.len() == 0 {
        Seq::empty()
    } else {
        seq![hex_digit(bytes[0] / 16), hex_digit(bytes[0] % 16)] + hex_of(bytes.drop_first())
    }
}

/// Whether a character is a hex digit, upper or lower case.
pub open spec fn is_hex_digit_char(c: char) -> bool {
    ('0' <= c && c <= '9') || ('a' <= c && c <= 'f') || ('A' <= c && c <= 'F')
}

/// The value of a hex digit; meaningful only where `is_hex_digit_char` holds.
pub open spec fn hex_val(c: char) -> u8 {
    if '0' <= c && c <= '9' {
        (c as u8 - '0' as u8) as u8
    } else if 'a' <= c && c <= 'f' {
        (c as u8 - 'a' as u8 + 10) as u8
    } else if 'A' <= c && c <= 'F' {
        (c as u8 - 'A' as u8 + 10) as u8
    } else {
        0
    }
}

/// A string decodes as hex iff its length is even and every character is a
/// hex digit of either case.
pub open spec fn is_hex_seq(s: Seq<char>) -> bool {
    s.len() % 2 == 0 && (forall|i: int| 0 <= i < s.len() ==> is_hex_digit_char(s[i]))
}

/// The bytes encoded by a hex string; meaningful only where `is_hex_seq` holds.
pub open spec fn hex_bytes(s: Seq<char>) -> Seq<u8> {
    Seq::new((s.len() / 2) as nat, |i: int| (hex_val(s[2 * i]) * 16 + hex_val(s[2 * i + 1])) as u8)
}

/// What decoding a hex string yields: the bytes, or nothing for a malformed
/// string.
pub open spec fn hex_decode_of(s: Seq<char>) -> Option<Seq<u8>> {
    if is_hex_seq(s) {
        Some(hex_bytes(s))
    } else {
        None
    }
}

/// Encoding then decoding a digit pair recovers the byte.
proof fn lemma_hex_digit_roundtrip(b: u8)
    ensures
        is_hex_digit_char(hex_digit(b / 16)),
        is_hex_digit_char(hex_digit(b % 16)),
        hex_val(hex_digit(b / 16)) == b / 16,
        hex_val(hex_digit(b % 16)) == b % 16,
{
}

/// The hex encoding of a byte string is twice as long and made of hex digits.
pub proof fn lemma_hex_of_shape(bytes: Seq<u8>)
    ensures
        hex_of(bytes).len() == 2 * bytes.len(),
        forall|i: int| 0 <= i < hex_of(bytes).len() ==> is_hex_digit_char(#[trigger] hex_of(bytes)[i]),
    decreases bytes.len(),
{
    if bytes.len() > 0 {
        lemma_hex_digit_roundtrip(bytes[0]);
        lemma_hex_of_shape(bytes.drop_first());
    }
}

/// Decoding inverts encoding: `hex_decode_of` recovers exactly the bytes that
/// `hex_of` encoded.
pub proof fn lemma_hex_roundtrip(bytes: Seq<u8>)
    ensures
        hex_decode_of(hex_of(bytes)) == Some(bytes),
    decreases bytes.len(),
{
    lemma_hex_of_shape(bytes);
    let s = hex_of(bytes);
    if bytes.len() == 0 {
        assert(hex_bytes(s) =~= bytes);
    } else {
        lemma_hex_roundtrip(bytes.drop_first());
        lemma_hex_of_shape(bytes.drop_first());
        lemma_hex_digit_roundtrip(bytes[0]);
        let rest = hex_of(bytes.drop_first());
        assert(s == seq![hex_digit(bytes[0] / 16), hex_digit(bytes[0] % 16)] + rest);
        assert(hex_bytes(rest) =~= bytes.drop_first());
        assert forall|i: int| 0 <= i < hex_bytes(s).len() implies hex_bytes(s)[i] == bytes[i] by {
            if i > 0 {
                assert(s[2 * i] == rest[2 * (i - 1)]);
                assert(s[2 * i + 1] == rest[2 * (i - 1) + 1]);
                assert(hex_bytes(rest)[i - 1] == bytes.drop_first()[i - 1]);
            }
        }
        assert(hex_bytes(s) =~= bytes);
    }
}

/// Relies on `hex::encode`: encodes bytes as lower-case hex, two digits per
/// byte, in order.
#[verifier::external_body]
pub fn hex_encode(bytes: &[u8]) -> (r: String)
    ensures
        r@ == hex_of(bytes@),
{
    hex::encode(bytes)
}

/// Relies on `hex::decode`: succeeds exactly on even-length strings of hex
/// digits of either case, and returns the encoded bytes.
#[verifier::external_body]
pub fn hex_decode(s: &str) -> (r: Option<Vec<u8>>)
    ensures
        r matches Some(v) ==> hex_decode_of(s@) == Some(v@),
        r is None ==> hex_decode_of(s@) is None,
{
    hex::decode(s).ok()
}

} // verus!
