//! Byte-level helpers shared by the wire codecs and the cache: comparison
//! and cloning of byte vectors, lowercase hexadecimal digits, and the
//! little-endian byte layout of 64-bit integers.

use vstd::prelude::*;

verus! {

/// Equality of two byte vectors, proved against their sequence views.
pub fn bytes_eq(a: &Vec<u8>, b: &Vec<u8>) -> (r: bool)
    ensures
        r == (a@ == b@),
{
    if a.len() != b.len() {
        proof {
            assert(a@.len() != b@.len());
        }
        return false;
    }
    let mut i: usize = 0;
    while i < a.len()
        invariant
            i <= a@.len(),
            a@.len() == b@.len(),
            forall|j: int| 0 <= j < i ==> a@[j] == b@[j],
        decreases a@.len() - i,
    {
        if a[i] != b[i] {
            return false;
        }
        i = i + 1;
    }
    proof {
        assert(a@ =~= b@);
    }
    true
}

/// A copy of a byte vector with the same contents.
pub fn clone_bytes(a: &Vec<u8>) -> (r: Vec<u8>)
    ensures
        r@ == a@,
{
    let mut out: Vec<u8> = Vec::new();
    let mut i: usize = 0;
    while i < a.len()
        invariant
            i <= a@.len(),
            out@ == a@.subrange(0, i as int),
        decreases a@.len() - i,
    {
        out.push(a[i]);
        proof {
            assert(out@ =~= a@.subrange(0, i + 1 as int));
        }
        i = i + 1;
    }
    proof {
        assert(out@ =~= a@);
    }
    out
}

/// The bytes of `v` from `start` (inclusive) to `end` (exclusive).
pub fn sub_vec(v: &Vec<u8>, start: usize, end: usize) -> (r: Vec<u8>)
    requires
        start <= end <= v@.len(),
    ensures
        r@ == v@.subrange(start as int, end as int),
{
    let mut out: Vec<u8> = Vec::new();
    let mut i: usize = start;
    while i < end
        invariant
            start <= i <= end <= v@.len(),
            out@ == v@.subrange(start as int, i as int),
        decreases end - i,
    {
        out.push(v[i]);
        proof {
            assert(out@ =~= v@.subrange(start as int, i + 1 as int));
        }
        i = i + 1;
    }
    out
}

/// Whether `c` is a lowercase hexadecimal digit (ASCII `0`-`9` or `a`-`f`).
pub open spec fn is_hex_digit(c: u8) -> bool {
    (48 <= c && c <= 57) || (97 <= c && c <= 102)
}

/// The lowercase hexadecimal digit for a value below 16.
pub open spec fn hex_digit_of(n: u8) -> u8
    recommends
        n < 16,
{
    if n < 10 {
        (48 + n) as u8
    } else {
        (87 + n) as u8
    }
}

/// The value of a lowercase hexadecimal digit.
pub open spec fn hex_val(c: u8) -> u8
    recommends
        is_hex_digit(c),
{
    if c <= 57 {
        (c - 48) as u8
    } else {
        (c - 87) as u8
    }
}

/// The lowercase hexadecimal spelling of a byte sequence, two digits
/// (high nibble first) for each byte.
pub open spec fn hex_of(bs: Seq<u8>) -> Seq<u8> {
    Seq::new(
        bs.len() * 2,
        |i: int|
            if i % 2 == 0 {
                hex_digit_of(bs[i / 2] / 16)
            } else {
                hex_digit_of(bs[i / 2] % 16)
            },
    )
}

/// Whether every byte of `hs` is a lowercase hexadecimal digit.
pub open spec fn hex_seq_valid(hs: Seq<u8>) -> bool {
    forall|i: int| 0 <= i < hs.len() ==> is_hex_digit(#[trigger] hs[i])
}

/// The bytes spelled by a sequence of hexadecimal digits of even length.
pub open spec fn bytes_of_hex(hs: Seq<u8>) -> Seq<u8>
    recommends
        hs.len() % 2 == 0,
        hex_seq_valid(hs),
{
    Seq::new(
        hs.len() / 2,
        |i: int| (hex_val(hs[2 * i]) * 16 + hex_val(hs[2 * i + 1])) as u8,
    )
}

/// A digit below 16 spells a valid hexadecimal digit, and reading the digit
/// back yields the same value.
pub proof fn lemma_hex_digit_roundtrip(n: u8)
    requires
        n < 16,
    ensures
        is_hex_digit(hex_digit_of(n)),
        hex_val(hex_digit_of(n)) == n,
{
}

/// A valid hexadecimal digit has a value below 16, and spelling that value
/// yields the same digit.
pub proof fn lemma_hex_val_roundtrip(c: u8)
    requires
        is_hex_digit(c),
    ensures
        hex_val(c) < 16,
        hex_digit_of(hex_val(c)) == c,
{
}

/// The hexadecimal spelling of any byte sequence is made of valid digits.
pub proof fn lemma_hex_of_valid(bs: Seq<u8>)
    ensures
        hex_of(bs).len() == bs.len() * 2,
        hex_seq_valid(hex_of(bs)),
{
    assert forall|i: int| 0 <= i < hex_of(bs).len() implies is_hex_digit(#[trigger] hex_of(bs)[i]) by {
        let b = bs[i / 2];
        assert(b / 16 < 16);
        assert(b % 16 < 16);
    }
}

/// Reading the hexadecimal spelling of a byte sequence back yields the
/// original bytes.
pub proof fn lemma_bytes_of_hex_of(bs: Seq<u8>)
    ensures
        bytes_of_hex(hex_of(bs)) == bs,
{
    let hs = hex_of(bs);
    assert forall|i: int| 0 <= i < bs.len() implies bytes_of_hex(hs)[i] == bs[i] by {
        let b = bs[i];
        assert(hs[2 * i] == hex_digit_of(b / 16));
        assert(hs[2 * i + 1] == hex_digit_of(b % 16));
        lemma_hex_digit_roundtrip(b / 16);
        lemma_hex_digit_roundtrip(b % 16);
        assert((b / 16) * 16 + b % 16 == b) by (nonlinear_arith);
    }
    assert(bytes_of_hex(hs) =~= bs);
}

/// Spelling the bytes read from a valid even-length digit sequence yields
/// the original digits.
pub proof fn lemma_hex_of_bytes_of(hs: Seq<u8>)
    requires
        hs.len() % 2 == 0,
        hex_seq_valid(hs),
    ensures
        hex_of(bytes_of_hex(hs)) == hs,
{
    let bs = bytes_of_hex(hs);
    assert(bs.len() == hs.len() / 2);
    assert(hex_of(bs).len() == hs.len());
    assert forall|i: int| 0 <= i < hs.len() implies hex_of(bs)[i] == hs[i] by {
        let j = i / 2;
        let h0 = hs[2 * j];
        let h1 = hs[2 * j + 1];
        assert(is_hex_digit(h0));
        assert(is_hex_digit(h1));
        lemma_hex_val_roundtrip(h0);
        lemma_hex_val_roundtrip(h1);
        let b = bs[j];
        assert(b == hex_val(h0) * 16 + hex_val(h1));
        assert(b / 16 == hex_val(h0) && b % 16 == hex_val(h1)) by (nonlinear_arith)
            requires
                b == hex_val(h0) * 16 + hex_val(h1),
                hex_val(h0) < 16,
                hex_val(h1) < 16,
        ;
        if i % 2 == 0 {
            assert(i == 2 * j);
        } else {
            assert(i == 2 * j + 1);
        }
    }
    assert(hex_of(bs) =~= hs);
}

/// The hexadecimal digit (as an ASCII byte) for a value below 16.
pub fn hex_digit_char(n: u8) -> (r: u8)
    requires
        n < 16,
    ensures
        r == hex_digit_of(n),
{
    if n < 10 {
        48 + n
    } else {
        87 + n
    }
}

/// The value of one ASCII byte read as a lowercase hexadecimal digit, or
/// nothing if it is not one.
pub fn hex_digit_val(c: u8) -> (r: Option<u8>)
    ensures
        match r {
            Some(v) => is_hex_digit(c) && v == hex_val(c),
            None => !is_hex_digit(c),
        },
{
    if 48 <= c && c <= 57 {
        Some(c - 48)
    } else if 97 <= c && c <= 102 {
        Some(c - 87)
    } else {
        None
    }
}

/// The lowercase hexadecimal spelling of `bs`.
pub fn hex_encode(bs: &Vec<u8>) -> (r: Vec<u8>)
    ensures
        r@ == hex_of(bs@),
{
    let mut out: Vec<u8> = Vec::new();
    let mut i: usize = 0;
    while i < bs.len()
        invariant
            i <= bs@.len(),
            out@.len() == 2 * i,
            forall|j: int| 0 <= j < 2 * i ==> out@[j] == #[trigger] hex_of(bs@)[j],
        decreases bs@.len() - i,
    {
        let b = bs[i];
        out.push(hex_digit_char(b / 16));
        out.push(hex_digit_char(b % 16));
        proof {
            assert(hex_of(bs@)[2 * i as int] == hex_digit_of(b / 16));
            assert(hex_of(bs@)[2 * i as int + 1] == hex_digit_of(b % 16));
        }
        i = i + 1;
    }
    proof {
        assert(out@ =~= hex_of(bs@));
    }
    out
}

/// The bytes spelled by `hs`, or nothing if `hs` has odd length or a byte
/// that is not a lowercase hexadecimal digit.
pub fn hex_decode(hs: &Vec<u8>) -> (r: Option<Vec<u8>>)
    ensures
        match r {
            Some(v) => hs@.len() % 2 == 0 && hex_seq_valid(hs@) && v@ == bytes_of_hex(hs@),
            None => !(hs@.len() % 2 == 0 && hex_seq_valid(hs@)),
        },
{
    if hs.len() % 2 != 0 {
        return None;
    }
    let mut out: Vec<u8> = Vec::new();
    let mut i: usize = 0;
    let n: usize = hs.len();
    let half: usize = n / 2;
    while i < half
        invariant
            i <= half,
            n == hs@.len(),
            half == n / 2,
            hs@.len() % 2 == 0,
            out@.len() == i,
            forall|j: int| 0 <= j < 2 * i ==> is_hex_digit(#[trigger] hs@[j]),
            forall|j: int| 0 <= j < i ==> out@[j] == #[trigger] bytes_of_hex(hs@)[j],
        decreases half - i,
    {
        proof {
            assert(2 * i + 1 < n);
        }
        let c0 = hs[2 * i];
        let c1 = hs[2 * i + 1];
        let v0 = match hex_digit_val(c0) {
            Some(v) => v,
            None => {
                return None;
            },
        };
        let v1 = match hex_digit_val(c1) {
            Some(v) => v,
            None => {
                return None;
            },
        };
        out.push(v0 * 16 + v1);
        i = i + 1;
    }
    proof {
        assert(out@ =~= bytes_of_hex(hs@));
    }
    Some(out)
}

/// The eight bytes of `x`, least significant first.
pub open spec fn u64_le_bytes(x: u64) -> Seq<u8> {
    seq![
        (x & 0xff) as u8,
        ((x >> 8) & 0xff) as u8,
        ((x >> 16) & 0xff) as u8,
        ((x >> 24) & 0xff) as u8,
        ((x >> 32) & 0xff) as u8,
        ((x >> 40) & 0xff) as u8,
        ((x >> 48) & 0xff) as u8,
        ((x >> 56) & 0xff) as u8,
    ]
}

/// The 64-bit value whose little-endian bytes are `s`.
pub open spec fn u64_of_le_bytes(s: Seq<u8>) -> u64
    recommends
        s.len() == 8,
{
    (s[0] as u64) | ((s[1] as u64) << 8) | ((s[2] as u64) << 16) | ((s[3] as u64) << 24)
        | ((s[4] as u64) << 32) | ((s[5] as u64) << 40) | ((s[6] as u64) << 48)
        | ((s[7] as u64) << 56)
}

/// Reading the little-endian bytes of a value back yields the value.
pub proof fn lemma_u64_le_roundtrip(x: u64)
    ensures
        u64_of_le_bytes(u64_le_bytes(x)) == x,
{
    assert(((x & 0xff) as u8 as u64) | (((x >> 8) & 0xff) as u8 as u64) << 8
        | (((x >> 16) & 0xff) as u8 as u64) << 16 | (((x >> 24) & 0xff) as u8 as u64) << 24
        | (((x >> 32) & 0xff) as u8 as u64) << 32 | (((x >> 40) & 0xff) as u8 as u64) << 40
        | (((x >> 48) & 0xff) as u8 as u64) << 48 | (((x >> 56) & 0xff) as u8 as u64) << 56
        == x) by (bit_vector);
}

/// Writing the value read from eight little-endian bytes back yields the
/// same bytes.
pub proof fn lemma_u64_of_le_inverse(s: Seq<u8>)
    requires
        s.len() == 8,
    ensures
        u64_le_bytes(u64_of_le_bytes(s)) == s,
{
    let b0 = s[0];
    let b1 = s[1];
    let b2 = s[2];
    let b3 = s[3];
    let b4 = s[4];
    let b5 = s[5];
    let b6 = s[6];
    let b7 = s[7];
    let x = u64_of_le_bytes(s);
    assert((x & 0xff) as u8 == b0 && ((x >> 8) & 0xff) as u8 == b1 && ((x >> 16) & 0xff) as u8
        == b2 && ((x >> 24) & 0xff) as u8 == b3 && ((x >> 32) & 0xff) as u8 == b4 && ((x >> 40)
        & 0xff) as u8 == b5 && ((x >> 48) & 0xff) as u8 == b6 && ((x >> 56) & 0xff) as u8 == b7)
        by (bit_vector)
        requires
            x == (b0 as u64) | ((b1 as u64) << 8) | ((b2 as u64) << 16) | ((b3 as u64) << 24) | (
            (b4 as u64) << 32) | ((b5 as u64) << 40) | ((b6 as u64) << 48) | ((b7 as u64) << 56),
    ;
    assert(u64_le_bytes(x) =~= s);
}

/// The little-endian bytes of `x`.
pub fn u64_to_le_vec(x: u64) -> (r: Vec<u8>)
    ensures
        r@ == u64_le_bytes(x),
{
    let mut out: Vec<u8> = Vec::new();
    out.push((x & 0xff) as u8);
    out.push(((x >> 8) & 0xff) as u8);
    out.push(((x >> 16) & 0xff) as u8);
    out.push(((x >> 24) & 0xff) as u8);
    out.push(((x >> 32) & 0xff) as u8);
    out.push(((x >> 40) & 0xff) as u8);
    out.push(((x >> 48) & 0xff) as u8);
    out.push(((x >> 56) & 0xff) as u8);
    proof {
        assert(out@ =~= u64_le_bytes(x));
    }
    out
}

/// The value whose little-endian bytes are `v`.
pub fn u64_from_le_vec(v: &Vec<u8>) -> (r: u64)
    requires
        v@.len() == 8,
    ensures
        r == u64_of_le_bytes(v@),
{
    (v[0] as u64) | ((v[1] as u64) << 8) | ((v[2] as u64) << 16) | ((v[3] as u64) << 24)
        | ((v[4] as u64) << 32) | ((v[5] as u64) << 40) | ((v[6] as u64) << 48)
        | ((v[7] as u64) << 56)
}

} // verus!
