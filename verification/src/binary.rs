//! Binary rendering of digest bytes and the proof-of-work difficulty test.
//!
//! Each byte is rendered as its full zero-padded 8-bit binary form before
//! concatenation; rendering without the padding would silently weaken the
//! difficulty target.

use vstd::prelude::*;
use vstd::string::*;

verus! {

/// The character for one binary digit.
pub open spec fn bit_char(d: nat) -> char {
    if d == 1 {
        '1'
    } else {
        '0'
    }
}

/// The zero-padded 8-bit binary rendering of one byte, most significant bit
/// first.
pub open spec fn bits_of_byte(b: u8) -> Seq<char> {
    seq![
        bit_char(b as nat / 128 % 2),
        bit_char(b as nat / 64 % 2),
        bit_char(b as nat / 32 % 2),
        bit_char(b as nat / 16 % 2),
        bit_char(b as nat / 8 % 2),
        bit_char(b as nat / 4 % 2),
        bit_char(b as nat / 2 % 2),
        bit_char(b as nat % 2),
    ]
}

/// The binary rendering of a byte sequence: the 8-bit renderings of its
/// bytes, concatenated in order.
pub open spec fn binary_of(bytes: Seq<u8>) -> Seq<char>
    decreases bytes.len(),
{
    if bytes.len() == 0 {
        Seq::empty()
    } else {
        bits_of_byte(bytes[0]) + binary_of(bytes.skip(1))
    }
}

pub proof fn lemma_binary_of_append(a: Seq<u8>, b: Seq<u8>)
    ensures
        binary_of(a + b) == binary_of(a) + binary_of(b),
    decreases a.len(),
{
    if a.len() == 0 {
        assert(a + b =~= b);
        assert(binary_of(a) + binary_of(b) =~= binary_of(b));
    } else {
        assert((a + b)[0] == a[0]);
        assert((a + b).skip(1) =~= a.skip(1) + b);
        lemma_binary_of_append(a.skip(1), b);
        assert(binary_of(a + b) =~= binary_of(a) + binary_of(b));
    }
}

pub proof fn lemma_binary_of_singleton(b: u8)
    ensures
        binary_of(seq![b]) == bits_of_byte(b),
{
    let single = seq![b];
    assert(single.skip(1) =~= Seq::<u8>::empty());
    assert(binary_of(single.skip(1)) == Seq::<char>::empty());
    assert(binary_of(single) =~= bits_of_byte(b));
}

fn push_bits_of_byte(out: &mut String, b: u8)
    ensures
        final(out)@ == old(out)@ + bits_of_byte(b),
{
    out.append(if b / 128 % 2 == 1 { "1" } else { "0" });
    out.append(if b / 64 % 2 == 1 { "1" } else { "0" });
    out.append(if b / 32 % 2 == 1 { "1" } else { "0" });
    out.append(if b / 16 % 2 == 1 { "1" } else { "0" });
    out.append(if b / 8 % 2 == 1 { "1" } else { "0" });
    out.append(if b / 4 % 2 == 1 { "1" } else { "0" });
    out.append(if b / 2 % 2 == 1 { "1" } else { "0" });
    out.append(if b % 2 == 1 { "1" } else { "0" });
    proof {
        reveal_strlit("0");
        reveal_strlit("1");
        assert(out@ =~= old(out)@ + bits_of_byte(b));
    }
}

/// The binary rendering of a digest, one zero-padded 8-bit group per byte,
/// as a string of `'0'` and `'1'` characters.
pub fn hash_to_binary_representation(hash: &[u8]) -> (r: String)
    ensures
        r@ == binary_of(hash@),
{
    let mut res: String = String::new();
    let n: usize = hash.len();
    let mut i: usize = 0;
    while i < n
        invariant
            i <= n,
            n == hash@.len(),
            res@ == binary_of(hash@.take(i as int)),
        decreases n - i,
    {
        push_bits_of_byte(&mut res, hash[i]);
        i = i + 1;
        proof {
            lemma_binary_of_append(hash@.take(i as int - 1), seq![hash@[i as int - 1]]);
            assert(hash@.take(i as int) =~= hash@.take(i as int - 1) + seq![hash@[i as int - 1]]);
            lemma_binary_of_singleton(hash@[i as int - 1]);
            assert(res@ =~= binary_of(hash@.take(i as int)));
        }
    }
    proof {
        assert(hash@.take(n as int) =~= hash@);
    }
    res
}

/// `p` is a prefix of `s`.
pub open spec fn has_prefix(s: Seq<char>, p: Seq<char>) -> bool {
    p.len() <= s.len() && s.subrange(0, p.len() as int) == p
}

/// The proof-of-work target: the required leading binary digits of a digest's
/// rendering, two zero bits here.
pub open spec fn difficulty_prefix() -> Seq<char> {
    seq!['0', '0']
}

/// The difficulty predicate: the binary rendering of the digest starts with
/// the difficulty prefix.
pub open spec fn meets_difficulty(digest: Seq<u8>) -> bool {
    has_prefix(binary_of(digest), difficulty_prefix())
}

/// Decides the difficulty predicate on a digest.
pub fn meets_difficulty_check(digest: &[u8]) -> (r: bool)
    ensures
        r == meets_difficulty(digest@),
{
    let bin = hash_to_binary_representation(digest);
    let s: &str = bin.as_str();
    let len: usize = s.unicode_len();
    if len < 2 {
        return false;
    }
    let r: bool = s.get_char(0) == '0' && s.get_char(1) == '0';
    proof {
        let b = binary_of(digest@);
        if r {
            assert(b.subrange(0, 2) =~= difficulty_prefix());
        } else if meets_difficulty(digest@) {
            assert(b[0] == b.subrange(0, 2)[0]);
            assert(b[1] == b.subrange(0, 2)[1]);
        }
    }
    r
}

} // verus!
