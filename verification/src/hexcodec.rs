//! Hexadecimal rendering of digests, and decoding of stored hash strings.
//!
//! The rendering is done by the `hex` crate behind trusted wrappers; the spec
//! functions here state exactly what those calls return, and the round-trip
//! lemma ties decoding back to encoding.

use vstd::prelude::*;
use crate::digits::dec_digit;

verus! {

/// The lowercase character for one hex digit value.
pub open spec fn hex_digit(d: nat) -> char {
    if d < 10 {
        dec_digit(d)
    } else if d == 10 {
        'a'
    } else if d == 11 {
        'b'
    } else if d == 12 {
        'c'
    } else if d == 13 {
        'd'
    } else if d == 14 {
        'e'
    } else {
        'f'
    }
}

/// The lowercase hex rendering of a byte sequence: two digits per byte, high
/// nibble first.
pub open spec fn hex_of(bytes: Seq<u8>) -> Seq<char>
    decreases bytes.len(),
{
    if bytes.len() == 0 {
        Seq::empty()
    } else {
        seq![hex_digit(bytes[0] as nat / 16), hex_digit(bytes[0] as nat % 16)] + hex_of(
            bytes.skip(1),
        )
    }
}

/// A hex digit character, either case.
pub open spec fn is_hex_digit_char(c: char) -> bool {
    (48 <= c as u32 && c as u32 <= 57) || (97 <= c as u32 && c as u32 <= 102) || (65 <= c as u32
        && c as u32 <= 70)
}

/// The value of a hex digit character.
pub open spec fn hex_char_val(c: char) -> nat {
    if 48 <= c as u32 && c as u32 <= 57 {
        (c as u32 - 48) as nat
    } else if 97 <= c as u32 && c as u32 <= 102 {
        (c as u32 - 87) as nat
    } else {
        (c as u32 - 55) as nat
    }
}

/// A well-formed hex string: even length, hex digits throughout.
pub open spec fn valid_hex(s: Seq<char>) -> bool {
    s.len() % 2 == 0 && (forall|i: int| 0 <= i < s.len() ==> is_hex_digit_char(#[trigger] s[i]))
}

/// The bytes denoted by a hex string, two characters per byte.
pub open spec fn decoded_hex(s: Seq<char>) -> Seq<u8>
    decreases s.len(),
{
    if s.len() < 2 {
        Seq::empty()
    } else {
        seq![(16 * hex_char_val(s[0]) + hex_char_val(s[1])) as u8] + decoded_hex(s.skip(2))
    }
}

proof fn lemma_hex_digit_value(d: nat)
    requires
        d < 16,
    ensures
        is_hex_digit_char(hex_digit(d)),
        hex_char_val(hex_digit(d)) == d,
{
}

/// Decoding inverts encoding: the hex rendering of any byte sequence is a
/// well-formed hex string, and denotes the bytes it was rendered from.
pub proof fn lemma_hex_round_trip(bytes: Seq<u8>)
    ensures
        valid_hex(hex_of(bytes)),
        decoded_hex(hex_of(bytes)) == bytes,
    decreases bytes.len(),
{
    if bytes.len() == 0 {
        assert(decoded_hex(hex_of(bytes)) =~= bytes);
    } else {
        let b = bytes[0];
        let hi = b as nat / 16;
        let lo = b as nat % 16;
        lemma_hex_digit_value(hi);
        lemma_hex_digit_value(lo);
        lemma_hex_round_trip(bytes.skip(1));
        let rest = hex_of(bytes.skip(1));
        assert(hex_of(bytes) =~= seq![hex_digit(hi), hex_digit(lo)] + rest);
        assert forall|i: int| 0 <= i < hex_of(bytes).len() implies is_hex_digit_char(
            #[trigger] hex_of(bytes)[i],
        ) by {
            if i >= 2 {
                assert(hex_of(bytes)[i] == rest[i - 2]);
            }
        }
        assert(hex_of(bytes).skip(2) =~= rest);
        assert(16 * hi + lo == b);
        assert(decoded_hex(hex_of(bytes)) =~= bytes);
    }
}

#[verifier::external_type_specification]
#[verifier::external_body]
pub struct ExFromHexError(hex::FromHexError);

/// Relies on hex::encode: two lowercase hex digits per byte, high nibble
/// first.
#[verifier::external_body]
pub(crate) fn hex_encode(bytes: &Vec<u8>) -> (r: String)
    ensures
        r@ == hex_of(bytes@),
{
    hex::encode(bytes)
}

/// Relies on hex::decode: it succeeds exactly on strings of even length made
/// of hex digits (either case), and then returns the bytes they denote.
#[verifier::external_body]
pub(crate) fn hex_decode(s: &str) -> (r: Result<Vec<u8>, hex::FromHexError>)
    ensures
        r is Ok <==> valid_hex(s@),
        r matches Ok(v) ==> v@ == decoded_hex(s@),
{
    hex::decode(s)
}

} // verus!
