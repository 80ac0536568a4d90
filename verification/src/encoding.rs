//! The canonical encoding of a block's fields and the digest over it.
//!
//! The fields are laid out as a compact JSON object with its keys in sorted
//! order and its strings escaped the way serde_json writes them, so that the
//! digest input is fixed and reproducible; SHA-256 over the UTF-8 bytes of
//! that text is the block digest.

use vstd::prelude::*;
use vstd::string::*;
use vstd::utf8::encode_utf8;
use crate::digits::{dec_nat, dec_int, push_dec_u64, push_dec_i64};
use crate::hexcodec::hex_digit;
use sha2::Digest;

verus! {

/// What one character of a string field contributes to the encoding: the
/// quote, the backslash and the control characters are escaped as serde_json
/// escapes them, every other character stands for itself.
pub open spec fn escaped_char(c: char) -> Seq<char> {
    if c == '"' {
        seq!['\\', '"']
    } else if c == '\\' {
        seq!['\\', '\\']
    } else if c as u32 == 8 {
        seq!['\\', 'b']
    } else if c as u32 == 9 {
        seq!['\\', 't']
    } else if c as u32 == 10 {
        seq!['\\', 'n']
    } else if c as u32 == 12 {
        seq!['\\', 'f']
    } else if c as u32 == 13 {
        seq!['\\', 'r']
    } else if (c as u32) < 32 {
        seq!['\\', 'u', '0', '0', hex_digit(c as u32 as nat / 16), hex_digit(c as u32 as nat % 16)]
    } else {
        seq![c]
    }
}

/// The escaped form of a string field, between its quotes.
pub open spec fn json_escaped(s: Seq<char>) -> Seq<char>
    decreases s.len(),
{
    if s.len() == 0 {
        Seq::empty()
    } else {
        escaped_char(s[0]) + json_escaped(s.skip(1))
    }
}

pub proof fn lemma_json_escaped_append(a: Seq<char>, b: Seq<char>)
    ensures
        json_escaped(a + b) == json_escaped(a) + json_escaped(b),
    decreases a.len(),
{
    if a.len() == 0 {
        assert(a + b =~= b);
        assert(json_escaped(a) + json_escaped(b) =~= json_escaped(b));
    } else {
        assert((a + b)[0] == a[0]);
        assert((a + b).skip(1) =~= a.skip(1) + b);
        lemma_json_escaped_append(a.skip(1), b);
        assert(json_escaped(a + b) =~= json_escaped(a) + json_escaped(b));
    }
}

pub proof fn lemma_json_escaped_singleton(c: char)
    ensures
        json_escaped(seq![c]) == escaped_char(c),
{
    let single = seq![c];
    assert(single.skip(1) =~= Seq::<char>::empty());
    assert(json_escaped(single.skip(1)) == Seq::<char>::empty());
    assert(json_escaped(single) =~= escaped_char(c));
}

fn hex_digit_exec(d: u32) -> (c: char)
    requires
        d < 16,
    ensures
        c == hex_digit(d as nat),
{
    if d == 0 {
        '0'
    } else if d == 1 {
        '1'
    } else if d == 2 {
        '2'
    } else if d == 3 {
        '3'
    } else if d == 4 {
        '4'
    } else if d == 5 {
        '5'
    } else if d == 6 {
        '6'
    } else if d == 7 {
        '7'
    } else if d == 8 {
        '8'
    } else if d == 9 {
        '9'
    } else if d == 10 {
        'a'
    } else if d == 11 {
        'b'
    } else if d == 12 {
        'c'
    } else if d == 13 {
        'd'
    } else if d == 14 {
        'e'
    } else {
        'f'
    }
}

fn push_escaped_char(c: char, out: &mut Vec<char>)
    ensures
        final(out)@ == old(out)@ + escaped_char(c),
{
    if c == '"' {
        out.push('\\');
        out.push('"');
    } else if c == '\\' {
        out.push('\\');
        out.push('\\');
    } else {
        let code: u32 = c as u32;
        if code == 8 {
            out.push('\\');
            out.push('b');
        } else if code == 9 {
            out.push('\\');
            out.push('t');
        } else if code == 10 {
            out.push('\\');
            out.push('n');
        } else if code == 12 {
            out.push('\\');
            out.push('f');
        } else if code == 13 {
            out.push('\\');
            out.push('r');
        } else if code < 32 {
            out.push('\\');
            out.push('u');
            out.push('0');
            out.push('0');
            out.push(hex_digit_exec(code / 16));
            out.push(hex_digit_exec(code % 16));
        } else {
            out.push(c);
        }
    }
    proof {
        assert(out@ =~= old(out)@ + escaped_char(c));
    }
}

/// Appends the escaped form of `s` to `out`.
fn push_escaped(s: &str, out: &mut Vec<char>)
    ensures
        final(out)@ == old(out)@ + json_escaped(s@),
{
    let len: usize = s.unicode_len();
    let mut i: usize = 0;
    while i < len
        invariant
            i <= len,
            len == s@.len(),
            out@ == old(out)@ + json_escaped(s@.take(i as int)),
        decreases len - i,
    {
        let c = s.get_char(i);
        push_escaped_char(c, out);
        i = i + 1;
        proof {
            lemma_json_escaped_append(s@.take(i as int - 1), seq![s@[i as int - 1]]);
            lemma_json_escaped_singleton(s@[i as int - 1]);
            assert(s@.take(i as int) =~= s@.take(i as int - 1) + seq![s@[i as int - 1]]);
            assert(out@ =~= old(out)@ + json_escaped(s@.take(i as int)));
        }
    }
    proof {
        assert(s@.take(len as int) =~= s@);
    }
}

/// Appends the characters of `s` to `out`.
fn push_str_chars(s: &str, out: &mut Vec<char>)
    ensures
        final(out)@ == old(out)@ + s@,
{
    let len: usize = s.unicode_len();
    let mut i: usize = 0;
    while i < len
        invariant
            i <= len,
            len == s@.len(),
            out@ == old(out)@ + s@.take(i as int),
        decreases len - i,
    {
        out.push(s.get_char(i));
        i = i + 1;
        proof {
            assert(s@.take(i as int) =~= s@.take(i as int - 1) + seq![s@[i as int - 1]]);
            assert(out@ =~= old(out)@ + s@.take(i as int));
        }
    }
    proof {
        assert(s@.take(len as int) =~= s@);
    }
}

/// The canonical digest input: a compact JSON object over the block's fields,
/// keys in sorted order.
pub open spec fn digest_input(
    id: u64,
    prev_block_hash: Seq<char>,
    data: Seq<char>,
    timestamp: i64,
    nonce: u64,
) -> Seq<char> {
    "{\"data\":\""@ + json_escaped(data) + "\",\"id\":"@ + dec_nat(id as nat) + ",\"nonce\":"@
        + dec_nat(nonce as nat) + ",\"prev_block_hash\":\""@ + json_escaped(prev_block_hash)
        + "\",\"timestamp\":"@ + dec_int(timestamp as int) + "}"@
}

/// Builds the canonical digest input for the given fields.
fn encode_fields(id: u64, prev_block_hash: &str, data: &str, timestamp: i64, nonce: u64) -> (r:
    Vec<char>)
    ensures
        r@ == digest_input(id, prev_block_hash@, data@, timestamp, nonce),
{
    let mut out: Vec<char> = Vec::new();
    push_str_chars("{\"data\":\"", &mut out);
    push_escaped(data, &mut out);
    push_str_chars("\",\"id\":", &mut out);
    push_dec_u64(id, &mut out);
    push_str_chars(",\"nonce\":", &mut out);
    push_dec_u64(nonce, &mut out);
    push_str_chars(",\"prev_block_hash\":\"", &mut out);
    push_escaped(prev_block_hash, &mut out);
    push_str_chars("\",\"timestamp\":", &mut out);
    push_dec_i64(timestamp, &mut out);
    push_str_chars("}", &mut out);
    out
}

/// What sha2's SHA-256 returns on a byte sequence.
pub uninterp spec fn sha256_of(bytes: Seq<u8>) -> Seq<u8>;

/// The digest that binds a block's fields: SHA-256 over the UTF-8 bytes of
/// the canonical digest input.
pub open spec fn field_digest(
    id: u64,
    prev_block_hash: Seq<char>,
    data: Seq<char>,
    timestamp: i64,
    nonce: u64,
) -> Seq<u8> {
    sha256_of(encode_utf8(digest_input(id, prev_block_hash, data, timestamp, nonce)))
}

/// Relies on sha2::Sha256 (SHA-256 of FIPS 180-4): a 32-byte digest that
/// depends on the input bytes alone.
#[verifier::external_body]
fn sha256_of_chars(input: &Vec<char>) -> (r: Vec<u8>)
    ensures
        r@ == sha256_of(encode_utf8(input@)),
        r@.len() == 32,
{
    let text: String = input.iter().collect();
    sha2::Sha256::digest(text.as_bytes()).to_vec()
}

/// Computes the digest that binds the given fields.
pub fn compute_field_digest(
    id: u64,
    prev_block_hash: &str,
    data: &str,
    timestamp: i64,
    nonce: u64,
) -> (r: Vec<u8>)
    ensures
        r@ == field_digest(id, prev_block_hash@, data@, timestamp, nonce),
        r@.len() == 32,
{
    let input = encode_fields(id, prev_block_hash, data, timestamp, nonce);
    sha256_of_chars(&input)
}

} // verus!
