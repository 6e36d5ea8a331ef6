//! Hexadecimal encoding and decoding of byte strings, verified against a
//! spec-level model, with the round-trip and injectivity facts the HMAC tag
//! codec builds on.

use vstd::prelude::*;

verus! {

/// The lowercase hex digit for a value below 16.
pub open spec fn hex_digit_char(v: u8) -> char {
    seq!['0', '1', '2', '3', '4', '5', '6', '7', '8', '9', 'a', 'b', 'c', 'd', 'e', 'f'][v as int]
}

/// The two lowercase hex digits of a byte, high digit first.
pub open spec fn hex_of_byte(b: u8) -> Seq<char> {
    seq![hex_digit_char(b / 16), hex_digit_char(b % 16)]
}

/// The lowercase hex rendering of a byte string, two digits per byte.
pub open spec fn hex_of(bytes: Seq<u8>) -> Seq<char>
    decreases bytes.len(),
{
    if bytes.len() == 0 {
        Seq::empty()
    } else {
        hex_of(bytes.drop_last()) + hex_of_byte(bytes.last())
    }
}

/// A lowercase hex digit.
pub open spec fn is_lower_hex_digit(c: char) -> bool {
    ('0' <= c && c <= '9') || ('a' <= c && c <= 'f')
}

/// Any hex digit; decoding accepts both cases.
pub open spec fn is_hex_digit(c: char) -> bool {
    is_lower_hex_digit(c) || ('A' <= c && c <= 'F')
}

/// A decodable hex string: even length, hex digits throughout.
pub open spec fn is_valid_hex(s: Seq<char>) -> bool {
    &&& s.len() % 2 == 0
    &&& forall|i: int| 0 <= i < s.len() ==> is_hex_digit(#[trigger] s[i])
}

/// The value of one hex digit.
pub open spec fn hex_digit_value(c: char) -> u8
    recommends
        is_hex_digit(c),
{
    if '0' <= c && c <= '9' {
        (c as u32 - '0' as u32) as u8
    } else if 'a' <= c && c <= 'f' {
        (c as u32 - 'a' as u32 + 10) as u8
    } else {
        (c as u32 - 'A' as u32 + 10) as u8
    }
}

/// The byte a pair of hex digits stands for, high digit first.
pub open spec fn byte_of_hex_pair(hi: char, lo: char) -> u8
    recommends
        is_hex_digit(hi),
        is_hex_digit(lo),
{
    (hex_digit_value(hi) * 16 + hex_digit_value(lo)) as u8
}

/// The bytes a hex string stands for.
pub open spec fn hex_value_of(s: Seq<char>) -> Seq<u8>
    recommends
        is_valid_hex(s),
    decreases s.len(),
{
    if s.len() < 2 {
        Seq::empty()
    } else {
        hex_value_of(s.drop_last().drop_last()).push(
            byte_of_hex_pair(s[s.len() - 2], s[s.len() - 1]),
        )
    }
}

/// Encoding then decoding a digit gives the digit back, and encoded digits
/// are lowercase hex.
proof fn lemma_hex_digit_round_trip(v: u8)
    requires
        v < 16,
    ensures
        is_lower_hex_digit(hex_digit_char(v)),
        hex_digit_value(hex_digit_char(v)) == v,
{
}

/// Two lowercase hex digits with the same value are the same digit.
proof fn lemma_hex_digit_value_injective(c1: char, c2: char)
    requires
        is_lower_hex_digit(c1),
        is_lower_hex_digit(c2),
        hex_digit_value(c1) == hex_digit_value(c2),
    ensures
        c1 == c2,
{
}

/// The hex rendering of a byte string is twice its length, is made of
/// lowercase hex digits, and decodes back to the bytes it came from.
pub proof fn lemma_hex_of_round_trip(bytes: Seq<u8>)
    ensures
        hex_of(bytes).len() == 2 * bytes.len(),
        forall|i: int|
            0 <= i < hex_of(bytes).len() ==> is_lower_hex_digit(#[trigger] hex_of(bytes)[i]),
        is_valid_hex(hex_of(bytes)),
        hex_value_of(hex_of(bytes)) == bytes,
    decreases bytes.len(),
{
    if bytes.len() == 0 {
        assert(hex_value_of(hex_of(bytes)) =~= bytes);
    } else {
        let prefix = bytes.drop_last();
        let b = bytes.last();
        lemma_hex_of_round_trip(prefix);
        lemma_hex_digit_round_trip(b / 16);
        lemma_hex_digit_round_trip(b % 16);
        let s = hex_of(bytes);
        assert(s == hex_of(prefix) + hex_of_byte(b));
        assert forall|i: int| 0 <= i < s.len() implies is_lower_hex_digit(#[trigger] s[i]) by {
            if i < hex_of(prefix).len() {
                assert(s[i] == hex_of(prefix)[i]);
            } else {
                assert(s[i] == hex_of_byte(b)[i - hex_of(prefix).len()]);
            }
        }
        assert(s.drop_last().drop_last() =~= hex_of(prefix));
        assert(s[s.len() - 2] == hex_digit_char(b / 16));
        assert(s[s.len() - 1] == hex_digit_char(b % 16));
        assert(byte_of_hex_pair(s[s.len() - 2], s[s.len() - 1]) == b) by {
            assert(hex_digit_value(hex_digit_char(b / 16)) == b / 16);
            assert(hex_digit_value(hex_digit_char(b % 16)) == b % 16);
            assert((b / 16) * 16 + (b % 16) == b) by (nonlinear_arith);
        }
        assert(hex_value_of(s) =~= bytes);
    }
}

/// Lowercase hex strings of equal length that stand for the same bytes are
/// equal character for character: over lowercase digits, decoding is
/// injective.
pub proof fn lemma_lower_hex_injective(s1: Seq<char>, s2: Seq<char>)
    requires
        s1.len() == s2.len(),
        s1.len() % 2 == 0,
        forall|i: int| 0 <= i < s1.len() ==> is_lower_hex_digit(#[trigger] s1[i]),
        forall|i: int| 0 <= i < s2.len() ==> is_lower_hex_digit(#[trigger] s2[i]),
        hex_value_of(s1) == hex_value_of(s2),
    ensures
        s1 == s2,
    decreases s1.len(),
{
    if s1.len() == 0 {
        assert(s1 =~= s2);
    } else {
        let p1 = s1.drop_last().drop_last();
        let p2 = s2.drop_last().drop_last();
        assert(hex_value_of(s1).last() == byte_of_hex_pair(s1[s1.len() - 2], s1[s1.len() - 1]));
        assert(hex_value_of(s2).last() == byte_of_hex_pair(s2[s2.len() - 2], s2[s2.len() - 1]));
        assert(hex_value_of(s1).drop_last() =~= hex_value_of(p1));
        assert(hex_value_of(s2).drop_last() =~= hex_value_of(p2));
        lemma_lower_hex_injective(p1, p2);
        let hi1 = s1[s1.len() - 2];
        let lo1 = s1[s1.len() - 1];
        let hi2 = s2[s2.len() - 2];
        let lo2 = s2[s2.len() - 1];
        assert(hex_digit_value(hi1) == hex_digit_value(hi2) && hex_digit_value(lo1)
            == hex_digit_value(lo2)) by {
            assert(hex_digit_value(hi1) < 16 && hex_digit_value(lo1) < 16 && hex_digit_value(hi2)
                < 16 && hex_digit_value(lo2) < 16);
            assert(hex_digit_value(hi1) * 16 + hex_digit_value(lo1) == hex_digit_value(hi2) * 16
                + hex_digit_value(lo2) ==> hex_digit_value(hi1) == hex_digit_value(hi2)
                && hex_digit_value(lo1) == hex_digit_value(lo2)) by (nonlinear_arith)
                requires
                    hex_digit_value(hi1) < 16,
                    hex_digit_value(lo1) < 16,
                    hex_digit_value(hi2) < 16,
                    hex_digit_value(lo2) < 16,
            ;
        }
        lemma_hex_digit_value_injective(hi1, hi2);
        lemma_hex_digit_value_injective(lo1, lo2);
        assert(s1 =~= p1.push(hi1).push(lo1));
        assert(s2 =~= p2.push(hi2).push(lo2));
        assert(s1 =~= s2);
    }
}

pub fn hex_digit_exec(v: u8) -> (c: char)
    requires
        v < 16,
    ensures
        c == hex_digit_char(v),
{
    if v == 0 {
        '0'
    } else if v == 1 {
        '1'
    } else if v == 2 {
        '2'
    } else if v == 3 {
        '3'
    } else if v == 4 {
        '4'
    } else if v == 5 {
        '5'
    } else if v == 6 {
        '6'
    } else if v == 7 {
        '7'
    } else if v == 8 {
        '8'
    } else if v == 9 {
        '9'
    } else if v == 10 {
        'a'
    } else if v == 11 {
        'b'
    } else if v == 12 {
        'c'
    } else if v == 13 {
        'd'
    } else if v == 14 {
        'e'
    } else {
        'f'
    }
}

/// Renders a byte string as lowercase hex, two digits per byte.
pub fn hex_encode(bytes: &[u8]) -> (r: String)
    ensures
        r@ == hex_of(bytes@),
{
    let n = bytes.len();
    let mut out = String::new();
    let mut i: usize = 0;
    while i < n
        invariant
            i <= n,
            n == bytes@.len(),
            out@ == hex_of(bytes@.subrange(0, i as int)),
        decreases n - i,
    {
        let b = bytes[i];
        out.push(hex_digit_exec(b / 16));
        out.push(hex_digit_exec(b % 16));
        proof {
            let prefix = bytes@.subrange(0, i + 1);
            assert(prefix.drop_last() =~= bytes@.subrange(0, i as int));
            assert(prefix.last() == bytes@[i as int]);
        }
        i += 1;
    }
    proof {
        assert(bytes@.subrange(0, n as int) =~= bytes@);
    }
    out
}

fn hex_digit_of_char(c: char) -> (r: Option<u8>)
    ensures
        r is Some <==> is_hex_digit(c),
        r matches Some(v) ==> v == hex_digit_value(c) && v < 16,
{
    if '0' <= c && c <= '9' {
        Some((c as u32 as u8) - ('0' as u32 as u8))
    } else if 'a' <= c && c <= 'f' {
        Some((c as u32 as u8) - ('a' as u32 as u8) + 10)
    } else if 'A' <= c && c <= 'F' {
        Some((c as u32 as u8) - ('A' as u32 as u8) + 10)
    } else {
        None
    }
}

/// Decodes a hex string, accepting either case; fails on odd length or any
/// non-hex character.
pub fn hex_decode(s: &str) -> (r: Option<Vec<u8>>)
    ensures
        r is Some <==> is_valid_hex(s@),
        r matches Some(v) ==> v@ == hex_value_of(s@),
{
    let n = s.unicode_len();
    if n % 2 != 0 {
        return None;
    }
    let mut out: Vec<u8> = Vec::new();
    let mut i: usize = 0;
    while i < n
        invariant
            i <= n,
            i % 2 == 0,
            n % 2 == 0,
            n == s@.len(),
            forall|j: int| 0 <= j < i ==> is_hex_digit(#[trigger] s@[j]),
            out@ == hex_value_of(s@.subrange(0, i as int)),
        decreases n - i,
    {
        let hi = match hex_digit_of_char(s.get_char(i)) {
            Some(v) => v,
            None => {
                return None;
            },
        };
        let lo = match hex_digit_of_char(s.get_char(i + 1)) {
            Some(v) => v,
            None => {
                return None;
            },
        };
        out.push(hi * 16 + lo);
        proof {
            let prefix = s@.subrange(0, i + 2);
            assert(prefix.drop_last().drop_last() =~= s@.subrange(0, i as int));
            assert(prefix[prefix.len() - 2] == s@[i as int]);
            assert(prefix[prefix.len() - 1] == s@[i + 1]);
        }
        i += 2;
    }
    proof {
        assert(s@.subrange(0, n as int) =~= s@);
    }
    Some(out)
}

} // verus!
