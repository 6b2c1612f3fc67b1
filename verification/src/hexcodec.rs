//! Verified hexadecimal encoding and decoding of byte sequences.
//!
//! Encoding renders each byte as two lowercase hex digits; decoding
//! consumes pairs of hex digits and fails on odd length or on any
//! non-hex character.

use vstd::prelude::*;
use vstd::string::*;
use crate::text::{
    all_hex, char_hex_val, char_is_hex, char_of_nibble, hex_char_val, hex_digit_char, is_hex_char,
    push_char,
};

verus! {

/// The lowercase hex rendering of `b`: two digits per byte, in order.
pub open spec fn hex_str_of(b: Seq<u8>) -> Seq<char>
    decreases b.len(),
{
    if b.len() == 0 {
        Seq::empty()
    } else {
        hex_str_of(b.drop_last()).push(hex_digit_char(b.last() / 16)).push(
            hex_digit_char(b.last() % 16),
        )
    }
}

/// The bytes denoted by an even-length, all-hex character sequence:
/// one byte per digit pair.
pub open spec fn hex_bytes(s: Seq<char>) -> Seq<u8>
    recommends
        s.len() % 2 == 0,
        all_hex(s),
    decreases s.len(),
{
    if s.len() < 2 {
        Seq::empty()
    } else {
        hex_bytes(s.drop_last().drop_last()).push(
            (hex_char_val(s[s.len() - 2]) * 16 + hex_char_val(s[s.len() - 1])) as u8,
        )
    }
}

/// A standard hex decode: the bytes when the input has even length and
/// only hex digits, nothing otherwise.
pub open spec fn decode_hex_spec(s: Seq<char>) -> Option<Seq<u8>> {
    if s.len() % 2 == 0 && all_hex(s) {
        Some(hex_bytes(s))
    } else {
        None
    }
}

/// Renders bytes as a lowercase hex string.
pub fn to_hex_string(bytes: &[u8]) -> (r: String)
    ensures
        r@ == hex_str_of(bytes@),
{
    let n = bytes.len();
    let mut r = String::new();
    let mut i: usize = 0;
    while i < n
        invariant
            n == bytes@.len(),
            0 <= i <= n,
            r@ == hex_str_of(bytes@.subrange(0, i as int)),
        decreases n - i,
    {
        let b = bytes[i];
        proof {
            let t = bytes@.subrange(0, i as int + 1);
            assert(t.drop_last() =~= bytes@.subrange(0, i as int));
            assert(t.last() == bytes@[i as int]);
        }
        push_char(&mut r, char_of_nibble(b / 16));
        push_char(&mut r, char_of_nibble(b % 16));
        i = i + 1;
    }
    proof {
        assert(bytes@.subrange(0, n as int) =~= bytes@);
    }
    r
}

/// Decodes a hex string into bytes; `None` on odd length or on any
/// non-hex character.
pub fn hex_to_bytes(s: &str) -> (r: Option<Vec<u8>>)
    ensures
        r is Some <==> decode_hex_spec(s@) is Some,
        r matches Some(v) ==> v@ == hex_bytes(s@),
{
    let n = s.unicode_len();
    if n % 2 != 0 {
        return None;
    }
    let mut out: Vec<u8> = Vec::new();
    let mut i: usize = 0;
    while i < n
        invariant
            n == s@.len(),
            n % 2 == 0,
            0 <= i <= n,
            i % 2 == 0,
            all_hex(s@.subrange(0, i as int)),
            out@ == hex_bytes(s@.subrange(0, i as int)),
        decreases n - i,
    {
        let c1 = s.get_char(i);
        let c2 = s.get_char(i + 1);
        if !char_is_hex(c1) || !char_is_hex(c2) {
            proof {
                if is_hex_char(s@[i as int]) {
                    assert(!is_hex_char(s@[i as int + 1]));
                }
                assert(!all_hex(s@));
            }
            return None;
        }
        let b: u8 = char_hex_val(c1) * 16 + char_hex_val(c2);
        out.push(b);
        proof {
            let t = s@.subrange(0, i as int + 2);
            assert(t.drop_last().drop_last() =~= s@.subrange(0, i as int));
            assert(t[t.len() - 2] == s@[i as int]);
            assert(t[t.len() - 1] == s@[i as int + 1]);
            assert forall|j: int| 0 <= j < t.len() implies is_hex_char(t[j]) by {
                if j < i {
                    assert(is_hex_char(s@.subrange(0, i as int)[j]));
                }
            }
        }
        i = i + 2;
    }
    proof {
        assert(s@.subrange(0, n as int) =~= s@);
    }
    Some(out)
}

} // verus!
