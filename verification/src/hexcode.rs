//! Lower-case hexadecimal transport encoding for token payloads and tags.
//!
//! The encoding is canonical: exactly the digits `0-9a-f`, two per byte,
//! high nibble first. Decoding accepts only that alphabet, so every byte
//! sequence has exactly one accepted encoding.

use vstd::prelude::*;

verus! {

/// ASCII code of the lower-case hex digit for a nibble value.
pub open spec fn hex_digit(n: u8) -> u8
    recommends
        n < 16,
{
    if n < 10 {
        (0x30 + n) as u8
    } else {
        (0x57 + n) as u8
    }
}

/// Whether `c` is the ASCII code of a canonical (lower-case) hex digit.
pub open spec fn is_hex_char(c: u8) -> bool {
    (0x30 <= c && c <= 0x39) || (0x61 <= c && c <= 0x66)
}

/// Nibble value of a canonical hex digit.
pub open spec fn hex_val(c: u8) -> u8
    recommends
        is_hex_char(c),
{
    if 0x30 <= c && c <= 0x39 {
        (c - 0x30) as u8
    } else {
        (c - 0x57) as u8
    }
}

/// The hex encoding of a byte sequence: two digits per byte, high nibble first.
pub open spec fn hex_of(b: Seq<u8>) -> Seq<u8> {
    Seq::new(
        2 * b.len(),
        |i: int|
            if i % 2 == 0 {
                hex_digit(b[i / 2] / 16)
            } else {
                hex_digit(b[i / 2] % 16)
            },
    )
}

/// Every position holds a canonical hex digit.
pub open spec fn all_hex(s: Seq<u8>) -> bool {
    forall|i: int| 0 <= i < s.len() ==> is_hex_char(#[trigger] s[i])
}

/// The bytes denoted by an even-length, all-hex string.
pub open spec fn unhex_of(s: Seq<u8>) -> Seq<u8>
    recommends
        s.len() % 2 == 0,
        all_hex(s),
{
    Seq::new(s.len() / 2, |i: int| (16 * hex_val(s[2 * i]) + hex_val(s[2 * i + 1])) as u8)
}

/// Decoding inverts encoding: `unhex_of(hex_of(b)) == b`, and the encoding
/// is well-formed input for the decoder.
pub proof fn lemma_hex_roundtrip(b: Seq<u8>)
    ensures
        hex_of(b).len() == 2 * b.len(),
        all_hex(hex_of(b)),
        unhex_of(hex_of(b)) == b,
{
    assert forall|i: int| 0 <= i < hex_of(b).len() implies is_hex_char(#[trigger] hex_of(b)[i]) by {
        let v = b[i / 2];
        assert(v / 16 < 16);
        assert(v % 16 < 16);
    }
    assert forall|i: int| 0 <= i < b.len() implies unhex_of(hex_of(b))[i] == b[i] by {
        let v = b[i];
        assert(hex_of(b)[2 * i] == hex_digit(v / 16));
        assert(hex_of(b)[2 * i + 1] == hex_digit(v % 16));
        assert(hex_val(hex_digit(v / 16)) == v / 16);
        assert(hex_val(hex_digit(v % 16)) == v % 16);
        assert(16 * (v / 16) + v % 16 == v);
    }
    assert(unhex_of(hex_of(b)) =~= b);
}

/// Encoding inverts decoding on well-formed strings: `hex_of(unhex_of(s)) == s`.
/// Hence no two distinct well-formed strings denote the same bytes.
pub proof fn lemma_hex_of_unhex(s: Seq<u8>)
    requires
        s.len() % 2 == 0,
        all_hex(s),
    ensures
        hex_of(unhex_of(s)) == s,
{
    let u = unhex_of(s);
    assert(u.len() == s.len() / 2);
    assert forall|i: int| 0 <= i < s.len() implies hex_of(u)[i] == s[i] by {
        let j = i / 2;
        let a = hex_val(s[2 * j]);
        let b = hex_val(s[2 * j + 1]);
        assert(is_hex_char(s[2 * j]));
        assert(is_hex_char(s[2 * j + 1]));
        assert(a < 16 && b < 16);
        assert(u[j] == (16 * a + b) as u8);
        assert((16 * a + b) as u8 == 16 * a + b);
        assert((16 * a + b) / 16 == a as int);
        assert((16 * a + b) % 16 == b as int);
        if i % 2 == 0 {
            assert(i == 2 * j);
            assert(hex_of(u)[i] == hex_digit(u[j] / 16));
            assert(hex_digit(a) == s[2 * j]);
        } else {
            assert(i == 2 * j + 1);
            assert(hex_of(u)[i] == hex_digit(u[j] % 16));
            assert(hex_digit(b) == s[2 * j + 1]);
        }
    }
    assert(hex_of(u) =~= s);
}

/// Executable form of `hex_digit`.
fn hex_digit_x(n: u8) -> (r: u8)
    requires
        n < 16,
    ensures
        r == hex_digit(n),
{
    if n < 10 {
        0x30 + n
    } else {
        0x57 + n
    }
}

/// Executable form of `is_hex_char`.
pub fn is_hex_char_x(c: u8) -> (r: bool)
    ensures
        r == is_hex_char(c),
{
    (0x30 <= c && c <= 0x39) || (0x61 <= c && c <= 0x66)
}

/// Executable form of `hex_val`.
pub fn hex_val_x(c: u8) -> (r: u8)
    requires
        is_hex_char(c),
    ensures
        r == hex_val(c),
{
    if 0x30 <= c && c <= 0x39 {
        c - 0x30
    } else {
        c - 0x57
    }
}

/// Encode `b` as lower-case hex.
pub fn hex_encode(b: &Vec<u8>) -> (r: Vec<u8>)
    ensures
        r@ == hex_of(b@),
{
    let mut r: Vec<u8> = Vec::new();
    let mut i: usize = 0;
    while i < b.len()
        invariant
            i <= b.len(),
            r@ == hex_of(b@.take(i as int)),
        decreases b.len() - i,
    {
        let v = b[i];
        let hi = hex_digit_x(v / 16);
        let lo = hex_digit_x(v % 16);
        r.push(hi);
        r.push(lo);
        proof {
            assert(r@ =~= hex_of(b@.take(i + 1)));
        }
        i = i + 1;
    }
    proof {
        assert(b@.take(b@.len() as int) =~= b@);
    }
    r
}

/// Decode a canonical hex string; `None` when the length is odd or a byte
/// is outside the canonical alphabet.
pub fn hex_decode(s: &Vec<u8>) -> (r: Option<Vec<u8>>)
    ensures
        r is Some <==> (s@.len() % 2 == 0 && all_hex(s@)),
        r is Some ==> r->0@ == unhex_of(s@),
{
    if s.len() % 2 != 0 {
        return None;
    }
    let mut r: Vec<u8> = Vec::new();
    let mut i: usize = 0;
    while i < s.len()
        invariant
            i <= s.len(),
            i % 2 == 0,
            s@.len() % 2 == 0,
            forall|j: int| 0 <= j < i ==> is_hex_char(#[trigger] s@[j]),
            r@ == unhex_of(s@.take(i as int)),
        decreases s.len() - i,
    {
        let c0 = s[i];
        let c1 = s[i + 1];
        if !is_hex_char_x(c0) || !is_hex_char_x(c1) {
            return None;
        }
        let b = 16 * hex_val_x(c0) + hex_val_x(c1);
        r.push(b);
        proof {
            assert(r@ =~= unhex_of(s@.take(i + 2)));
        }
        i = i + 2;
    }
    proof {
        assert(s@.take(s@.len() as int) =~= s@);
    }
    Some(r)
}

} // verus!
