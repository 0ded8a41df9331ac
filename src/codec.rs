//! The device's encoded text: each character is written as four hexadecimal
//! digits giving its 16-bit code.
use vstd::prelude::*;
use crate::scan::is_hex_digit;
use crate::text::{chars_of, string_of};

verus! {

/// The value of a hexadecimal digit.
pub open spec fn hex_value(c: char) -> u32 {
    if '0' <= c && c <= '9' {
        (c as u32 - '0' as u32) as u32
    } else if 'a' <= c && c <= 'f' {
        (c as u32 - 'a' as u32 + 10) as u32
    } else {
        (c as u32 - 'A' as u32 + 10) as u32
    }
}

/// Whether `v` is the code of a Unicode scalar value.
pub open spec fn is_scalar_value(v: u32) -> bool {
    v <= 0x10FFFF && !(0xD800 <= v && v <= 0xDFFF)
}

/// The value of four hexadecimal digits starting at `s[0]`.
pub open spec fn group_value(s: Seq<char>) -> u32 {
    (hex_value(s[0]) * 4096 + hex_value(s[1]) * 256 + hex_value(s[2]) * 16 + hex_value(s[3])) as u32
}

pub open spec fn is_group(s: Seq<char>) -> bool {
    s.len() >= 4 && is_hex_digit(s[0]) && is_hex_digit(s[1]) && is_hex_digit(s[2]) && is_hex_digit(s[3])
}

/// Decoded text: one character per leading group of four hexadecimal digits;
/// a group that is not the code of a scalar value gives none, and decoding
/// ends at the first place that holds no complete group.
pub open spec fn decoded(s: Seq<char>) -> Seq<char>
    decreases s.len(),
{
    if !is_group(s) {
        Seq::empty()
    } else {
        let v = group_value(s);
        let head = if is_scalar_value(v) { seq![v as char] } else { Seq::empty() };
        head + decoded(s.skip(4))
    }
}

/// Relies on `char::from_u32`: `Some` exactly for the code of a scalar value.
#[verifier::external_body]
fn char_from_code(v: u32) -> (r: Option<char>)
    ensures
        r == (if is_scalar_value(v) { Some(v as char) } else { None::<char> }),
{
    char::from_u32(v)
}

fn hex_digit_value(c: char) -> (r: Option<u32>)
    ensures
        r == (if is_hex_digit(c) { Some(hex_value(c)) } else { None::<u32> }),
{
    if '0' <= c && c <= '9' {
        Some((c as u32) - ('0' as u32))
    } else if 'a' <= c && c <= 'f' {
        Some((c as u32) - ('a' as u32) + 10)
    } else if 'A' <= c && c <= 'F' {
        Some((c as u32) - ('A' as u32) + 10)
    } else {
        None
    }
}

/// Decodes a buffer of encoded text.
pub fn decode_chars(t: &[char]) -> (r: Vec<char>)
    ensures
        r@ == decoded(t@),
{
    let mut out: Vec<char> = Vec::new();
    let mut i: usize = 0;
    assert(out@ + decoded(t@.subrange(0, t@.len() as int)) =~= decoded(t@)) by {
        assert(t@.subrange(0, t@.len() as int) =~= t@);
    }
    loop
        invariant
            i <= t@.len(),
            decoded(t@) == out@ + decoded(t@.subrange(i as int, t@.len() as int)),
        ensures
            out@ == decoded(t@),
        decreases t@.len() - i,
    {
        let ghost rest = t@.subrange(i as int, t@.len() as int);
        if t.len() - i < 4 {
            assert(decoded(rest) == Seq::<char>::empty());
            assert(out@ + decoded(rest) =~= out@);
            break;
        }
        let a = hex_digit_value(t[i]);
        let b = hex_digit_value(t[i + 1]);
        let c = hex_digit_value(t[i + 2]);
        let d = hex_digit_value(t[i + 3]);
        match (a, b, c, d) {
            (Some(a), Some(b), Some(c), Some(d)) => {
                let v = a * 4096 + b * 256 + c * 16 + d;
                assert(rest.skip(4) =~= t@.subrange(i + 4, t@.len() as int));
                let ghost before = out@;
                match char_from_code(v) {
                    Some(ch) => {
                        out.push(ch);
                    },
                    None => {},
                }
                assert(out@ + decoded(rest.skip(4)) =~= before + decoded(rest));
                i = i + 4;
            },
            _ => {
                assert(decoded(rest) == Seq::<char>::empty());
                assert(out@ + decoded(rest) =~= out@);
                break;
            },
        }
    }
    out
}

/// Decodes encoded text: see [`decoded`].
pub fn ucs2_to_uft8(text: &str) -> (r: String)
    ensures
        r@ == decoded(text@),
{
    let cs = chars_of(text);
    let out = decode_chars(cs.as_slice());
    string_of(out.as_slice())
}

/// The upper-case hexadecimal digit of `v`, below 16.
pub open spec fn hex_digit_of(v: u32) -> char {
    if v == 0 {
        '0'
    } else if v == 1 {
        '1'
    } else if v == 2 {
        '2'
    } else if v == 3 {
        '3'
    } else if v == 4 {
        '4'
    } else if v == 5 {
        '5'
    } else if v == 6 {
        '6'
    } else if v == 7 {
        '7'
    } else if v == 8 {
        '8'
    } else if v == 9 {
        '9'
    } else if v == 10 {
        'A'
    } else if v == 11 {
        'B'
    } else if v == 12 {
        'C'
    } else if v == 13 {
        'D'
    } else if v == 14 {
        'E'
    } else {
        'F'
    }
}

/// The four hexadecimal digits of the code of `c`, which is at most `0xFFFF`.
pub open spec fn encode_char(c: char) -> Seq<char> {
    let v = c as u32;
    seq![hex_digit_of(v / 4096), hex_digit_of((v / 256) % 16), hex_digit_of((v / 16) % 16), hex_digit_of(v % 16)]
}

/// Encoded text of `s`: four hexadecimal digits per character.
pub open spec fn encoded(s: Seq<char>) -> Seq<char>
    decreases s.len(),
{
    if s.len() == 0 {
        Seq::empty()
    } else {
        encode_char(s[0]) + encoded(s.drop_first())
    }
}

/// Every character of `s` has a code of at most `0xFFFF`.
pub open spec fn is_basic_plane(s: Seq<char>) -> bool {
    forall|i: int| 0 <= i < s.len() ==> (#[trigger] s[i]) as u32 <= 0xFFFF
}

proof fn lemma_hex_digit(v: u32)
    requires
        v < 16,
    ensures
        is_hex_digit(hex_digit_of(v)),
        hex_value(hex_digit_of(v)) == v,
{
}

proof fn lemma_decode_one(c: char, rest: Seq<char>)
    requires
        c as u32 <= 0xFFFF,
    ensures
        decoded(encode_char(c) + rest) == seq![c] + decoded(rest),
{
    let v = c as u32;
    let e = encode_char(c) + rest;
    lemma_hex_digit(v / 4096);
    lemma_hex_digit((v / 256) % 16);
    lemma_hex_digit((v / 16) % 16);
    lemma_hex_digit(v % 16);
    assert(e[0] == hex_digit_of(v / 4096));
    assert(e[1] == hex_digit_of((v / 256) % 16));
    assert(e[2] == hex_digit_of((v / 16) % 16));
    assert(e[3] == hex_digit_of(v % 16));
    assert(group_value(e) == v) by {
        assert((v / 4096) * 4096 + ((v / 256) % 16) * 256 + ((v / 16) % 16) * 16 + v % 16 == v) by (nonlinear_arith)
            requires v <= 0xFFFF;
    }
    assert(is_scalar_value(v));
    vstd::utf8::char_u32_cast(c, v);
    assert(e.skip(4) =~= rest);
}

/// Decoding the encoded text of characters of the basic plane gives them
/// back; a trailing group of fewer than four digits is dropped.
pub proof fn lemma_decode_encoded(s: Seq<char>, tail: Seq<char>)
    requires
        is_basic_plane(s),
        tail.len() < 4,
    ensures
        decoded(encoded(s) + tail) == s,
    decreases s.len(),
{
    if s.len() == 0 {
        assert(encoded(s) + tail =~= tail);
    } else {
        let rest = s.drop_first();
        assert(is_basic_plane(rest)) by {
            assert forall|i: int| 0 <= i < rest.len() implies (#[trigger] rest[i]) as u32 <= 0xFFFF by {
                assert(rest[i] == s[i + 1]);
            }
        }
        lemma_decode_encoded(rest, tail);
        assert(encoded(s) + tail =~= encode_char(s[0]) + (encoded(rest) + tail));
        lemma_decode_one(s[0], encoded(rest) + tail);
        assert(seq![s[0]] + rest =~= s);
    }
}

} // verus!
