//! Text encodings at the service boundary: hex for the inbound challenge,
//! base58 for the outbound hash.
use vstd::prelude::*;

verus! {

/// A hex digit, in either case.
pub open spec fn is_hex_digit(c: char) -> bool {
    ('0' <= c && c <= '9') || ('a' <= c && c <= 'f') || ('A' <= c && c <= 'F')
}

/// The value of one hex digit.
pub open spec fn hex_digit_val(c: char) -> int
    recommends
        is_hex_digit(c),
{
    if '0' <= c && c <= '9' {
        c as int - '0' as int
    } else if 'a' <= c && c <= 'f' {
        10 + (c as int - 'a' as int)
    } else {
        10 + (c as int - 'A' as int)
    }
}

/// A string that hex-decodes: even length, hex digits throughout.
pub open spec fn valid_hex(s: Seq<char>) -> bool {
    &&& s.len() % 2 == 0
    &&& forall|k: int| 0 <= k < s.len() ==> is_hex_digit(#[trigger] s[k])
}

/// The byte spelled by the digit pair at positions `2k`, `2k + 1`.
pub open spec fn hex_byte_at(s: Seq<char>, k: int) -> u8
    recommends
        valid_hex(s),
        0 <= k < s.len() / 2,
{
    (hex_digit_val(s[2 * k]) * 16 + hex_digit_val(s[2 * k + 1])) as u8
}

/// The bytes a hex string decodes to, high digit of each pair first.
pub open spec fn hex_decoded(s: Seq<char>) -> Seq<u8> {
    Seq::new((s.len() / 2) as nat, |k: int| hex_byte_at(s, k))
}

/// Relies on hex::decode: it succeeds exactly on strings of even length made
/// of hex digits in either case, yielding one byte per digit pair with the
/// high digit first; the error detail is dropped here.
#[verifier::external_body]
pub fn decode_hex(s: &str) -> (r: Option<Vec<u8>>)
    ensures
        r is Some <==> valid_hex(s@),
        r is Some ==> r->Some_0@ == hex_decoded(s@),
{
    hex::decode(s).ok()
}

/// The base58 text of a byte string, as bs58 spells it with its default
/// (Bitcoin) alphabet.
pub uninterp spec fn base58_of(bytes: Seq<u8>) -> Seq<char>;

/// Relies on bs58::encode with the default alphabet: the text depends on the
/// input bytes alone.
#[verifier::external_body]
pub fn encode_base58(bytes: &[u8; 32]) -> (r: String)
    ensures
        r@ == base58_of(bytes@),
{
    bs58::encode(bytes).into_string()
}

} // verus!
