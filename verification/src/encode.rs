//! Verified binary-to-text encoders used in the token: lowercase hex for
//! the query hash, and unpadded base64url for the token segments.

use vstd::prelude::*;

verus! {

/// `(x*d + y) / d == x` and `(x*d + y) % d == y` when `0 <= y < d`.
proof fn lemma_mul_add_div_mod(x: int, y: int, d: int)
    requires
        0 <= x,
        0 <= y < d,
    ensures
        (x * d + y) / d == x,
        (x * d + y) % d == y,
{
    vstd::arithmetic::div_mod::lemma_fundamental_div_mod_converse(x * d + y, d, x, y);
}

/// The ASCII lowercase hex digit for a nibble.
pub open spec fn spec_hex_digit_lower(n: u8) -> u8 {
    if n < 10 {
        (0x30 + n) as u8
    } else {
        (0x57 + n) as u8  // 10 -> 'a' (0x61)
    }
}

/// Lowercase hex encoding: two digits for each byte, in order.
pub open spec fn spec_hex_lower(s: Seq<u8>) -> Seq<u8>
    decreases s.len(),
{
    if s.len() == 0 {
        Seq::empty()
    } else {
        seq![spec_hex_digit_lower(s[0] / 16), spec_hex_digit_lower(s[0] % 16)]
            + spec_hex_lower(s.drop_first())
    }
}

/// Lowercase hex encoding of a byte string.
pub fn hex_lower(data: &[u8]) -> (r: Vec<u8>)
    ensures
        r@ == spec_hex_lower(data@),
{
    let n = data.len();
    let mut out: Vec<u8> = Vec::new();
    let mut i: usize = 0;
    proof {
        assert(data@.take(0) =~= Seq::<u8>::empty());
        assert(spec_hex_lower(Seq::<u8>::empty()) =~= Seq::<u8>::empty());
    }
    while i < n
        invariant
            n == data@.len(),
            i <= n,
            out@ == spec_hex_lower(data@.take(i as int)),
        decreases n - i,
    {
        let b = data[i];
        let hi = b / 16;
        let lo = b % 16;
        out.push(if hi < 10 { 0x30 + hi } else { 0x57 + hi });
        out.push(if lo < 10 { 0x30 + lo } else { 0x57 + lo });
        proof {
            lemma_hex_lower_snoc(data@.take(i as int), data@[i as int]);
            assert(data@.take(i + 1) =~= data@.take(i as int).push(data@[i as int]));
            assert(out@ =~= spec_hex_lower(data@.take(i + 1)));
        }
        i += 1;
    }
    proof {
        assert(data@.take(n as int) =~= data@);
    }
    out
}

/// Extending the input by one byte extends the hex encoding by two digits.
proof fn lemma_hex_lower_snoc(s: Seq<u8>, b: u8)
    ensures
        spec_hex_lower(s.push(b)) == spec_hex_lower(s)
            + seq![spec_hex_digit_lower(b / 16), spec_hex_digit_lower(b % 16)],
    decreases s.len(),
{
    if s.len() == 0 {
        assert(s.push(b)[0] == b);
        assert(s.push(b).drop_first() =~= Seq::<u8>::empty());
        assert(spec_hex_lower(Seq::<u8>::empty()) =~= Seq::<u8>::empty());
        assert(spec_hex_lower(s.push(b)) =~= spec_hex_lower(s)
            + seq![spec_hex_digit_lower(b / 16), spec_hex_digit_lower(b % 16)]);
    } else {
        lemma_hex_lower_snoc(s.drop_first(), b);
        assert(s.push(b).drop_first() =~= s.drop_first().push(b));
        assert(s.push(b)[0] == s[0]);
        assert(spec_hex_lower(s.push(b)) =~= spec_hex_lower(s)
            + seq![spec_hex_digit_lower(b / 16), spec_hex_digit_lower(b % 16)]);
    }
}

/// The base64url alphabet character for a 6-bit value.
pub open spec fn spec_b64_char(n: u8) -> u8 {
    if n < 26 {
        (0x41 + n) as u8  // A-Z
    } else if n < 52 {
        (0x47 + n) as u8  // a-z
    } else if n < 62 {
        (n - 4) as u8  // 0-9 (0x30..0x39)
    } else if n == 62 {
        0x2d  // -
    } else {
        0x5f  // _
    }
}

/// Unpadded base64url encoding, three input bytes to four characters,
/// with two or three characters for a one- or two-byte tail.
pub open spec fn spec_b64url(s: Seq<u8>) -> Seq<u8>
    decreases s.len(),
{
    if s.len() == 0 {
        Seq::empty()
    } else if s.len() == 1 {
        seq![spec_b64_char(s[0] / 4), spec_b64_char(((s[0] % 4) * 16) as u8)]
    } else if s.len() == 2 {
        seq![
            spec_b64_char(s[0] / 4),
            spec_b64_char(((s[0] % 4) * 16 + s[1] / 16) as u8),
            spec_b64_char(((s[1] % 16) * 4) as u8),
        ]
    } else {
        seq![
            spec_b64_char(s[0] / 4),
            spec_b64_char(((s[0] % 4) * 16 + s[1] / 16) as u8),
            spec_b64_char(((s[1] % 16) * 4 + s[2] / 64) as u8),
            spec_b64_char((s[2] % 64) as u8),
        ] + spec_b64url(s.skip(3))
    }
}

/// Every character of a base64url encoding is ASCII and is not `.`,
/// so joining segments with `.` stays unambiguous.
pub proof fn lemma_b64url_ascii_no_dot(s: Seq<u8>)
    ensures
        forall|i: int|
            0 <= i < spec_b64url(s).len() ==> spec_b64url(s)[i] < 128 && spec_b64url(s)[i] != 0x2e,
    decreases s.len(),
{
    if s.len() > 2 {
        lemma_b64url_ascii_no_dot(s.skip(3));
        let e = seq![
            spec_b64_char(s[0] / 4),
            spec_b64_char(((s[0] % 4) * 16 + s[1] / 16) as u8),
            spec_b64_char(((s[1] % 16) * 4 + s[2] / 64) as u8),
            spec_b64_char((s[2] % 64) as u8),
        ];
        let rest = spec_b64url(s.skip(3));
        assert(spec_b64url(s) == e + rest);
        assert forall|i: int|
            0 <= i < spec_b64url(s).len() implies spec_b64url(s)[i] < 128 && spec_b64url(s)[i]
            != 0x2e by {
            if i < 4 {
                assert(spec_b64url(s)[i] == e[i]);
            } else {
                assert(spec_b64url(s)[i] == rest[i - 4]);
            }
        }
    }
}

/// Unpadded base64url encoding of a byte string.
pub fn b64url(data: &[u8]) -> (r: Vec<u8>)
    ensures
        r@ == spec_b64url(data@),
{
    let n = data.len();
    let mut out: Vec<u8> = Vec::new();
    let mut i: usize = 0;
    proof {
        assert(data@.skip(0) =~= data@);
    }
    while n - i >= 3
        invariant
            n == data@.len(),
            i <= n,
            spec_b64url(data@) == out@ + spec_b64url(data@.skip(i as int)),
        decreases n - i,
    {
        let b0 = data[i];
        let b1 = data[i + 1];
        let b2 = data[i + 2];
        out.push(b64_char(b0 / 4));
        out.push(b64_char((b0 % 4) * 16 + b1 / 16));
        out.push(b64_char((b1 % 16) * 4 + b2 / 64));
        out.push(b64_char(b2 % 64));
        proof {
            let rem = data@.skip(i as int);
            assert(rem.len() >= 3);
            assert(rem[0] == b0 && rem[1] == b1 && rem[2] == b2);
            assert(rem.skip(3) =~= data@.skip(i + 3));
            assert(spec_b64url(data@) =~= out@ + spec_b64url(data@.skip(i + 3)));
        }
        i += 3;
    }
    if n - i == 1 {
        let b0 = data[i];
        out.push(b64_char(b0 / 4));
        out.push(b64_char((b0 % 4) * 16));
        proof {
            let rem = data@.skip(i as int);
            assert(rem.len() == 1);
            assert(rem[0] == b0);
        }
    } else if n - i == 2 {
        let b0 = data[i];
        let b1 = data[i + 1];
        out.push(b64_char(b0 / 4));
        out.push(b64_char((b0 % 4) * 16 + b1 / 16));
        out.push(b64_char((b1 % 16) * 4));
        proof {
            let rem = data@.skip(i as int);
            assert(rem.len() == 2);
            assert(rem[0] == b0 && rem[1] == b1);
        }
    } else {
        proof {
            let rem = data@.skip(i as int);
            assert(rem.len() == 0);
            assert(spec_b64url(rem) =~= Seq::<u8>::empty());
        }
    }
    proof {
        assert(out@ =~= spec_b64url(data@));
    }
    out
}

/// The base64url alphabet character of a 6-bit value, as executable code.
fn b64_char(n: u8) -> (r: u8)
    requires
        n < 64,
    ensures
        r == spec_b64_char(n),
{
    if n < 26 {
        0x41 + n
    } else if n < 52 {
        0x47 + n
    } else if n < 62 {
        n - 4
    } else if n == 62 {
        0x2d
    } else {
        0x5f
    }
}

/// The 6-bit value a base64url character stands for.
pub open spec fn spec_b64_val(c: u8) -> u8 {
    if 0x41 <= c <= 0x5a {
        (c - 0x41) as u8
    } else if 0x61 <= c <= 0x7a {
        (c - 0x47) as u8
    } else if 0x30 <= c <= 0x39 {
        (c + 4) as u8
    } else if c == 0x2d {
        62
    } else {
        63
    }
}

/// Decoding a character it produced gives a 6-bit value back.
proof fn lemma_b64_char_val(n: u8)
    requires
        n < 64,
    ensures
        spec_b64_val(spec_b64_char(n)) == n,
{
}

/// The inverse of unpadded base64url encoding, four characters to three
/// bytes, with one or two bytes for a two- or three-character tail.
pub open spec fn spec_b64url_decode(s: Seq<u8>) -> Seq<u8>
    decreases s.len(),
{
    if s.len() < 2 {
        Seq::empty()
    } else if s.len() == 2 {
        seq![(spec_b64_val(s[0]) * 4 + spec_b64_val(s[1]) / 16) as u8]
    } else if s.len() == 3 {
        seq![
            (spec_b64_val(s[0]) * 4 + spec_b64_val(s[1]) / 16) as u8,
            ((spec_b64_val(s[1]) % 16) * 16 + spec_b64_val(s[2]) / 4) as u8,
        ]
    } else {
        seq![
            (spec_b64_val(s[0]) * 4 + spec_b64_val(s[1]) / 16) as u8,
            ((spec_b64_val(s[1]) % 16) * 16 + spec_b64_val(s[2]) / 4) as u8,
            ((spec_b64_val(s[2]) % 4) * 64 + spec_b64_val(s[3])) as u8,
        ] + spec_b64url_decode(s.skip(4))
    }
}

/// Decoding undoes encoding.
pub proof fn lemma_b64url_decode_encode(s: Seq<u8>)
    ensures
        spec_b64url_decode(spec_b64url(s)) == s,
    decreases s.len(),
{
    let e = spec_b64url(s);
    if s.len() == 0 {
        assert(spec_b64url_decode(e) =~= s);
    } else if s.len() == 1 {
        let c0: u8 = s[0] / 4;
        let c1: u8 = ((s[0] % 4) * 16) as u8;
        lemma_b64_char_val(c0);
        lemma_b64_char_val(c1);
        lemma_mul_add_div_mod((s[0] % 4) as int, 0, 16);
        assert(spec_b64_val(e[1]) / 16 == s[0] % 4);
        assert(spec_b64_val(e[0]) * 4 + spec_b64_val(e[1]) / 16 == (s[0] / 4) * 4 + s[0] % 4);
        assert((s[0] / 4) * 4 + s[0] % 4 == s[0]) by {
            vstd::arithmetic::div_mod::lemma_fundamental_div_mod(s[0] as int, 4);
        }
        assert(spec_b64url_decode(e) =~= s);
    } else if s.len() == 2 {
        let v0: u8 = s[0] / 4;
        let v1: u8 = ((s[0] % 4) * 16 + s[1] / 16) as u8;
        let v2: u8 = ((s[1] % 16) * 4) as u8;
        lemma_b64_char_val(v0);
        lemma_b64_char_val(v1);
        lemma_b64_char_val(v2);
        lemma_mul_add_div_mod((s[0] % 4) as int, (s[1] / 16) as int, 16);
        lemma_mul_add_div_mod((s[1] % 16) as int, 0, 4);
        assert(v1 / 16 == s[0] % 4 && v1 % 16 == s[1] / 16);
        assert(v2 / 4 == s[1] % 16);
        assert((s[0] / 4) * 4 + s[0] % 4 == s[0]) by {
            vstd::arithmetic::div_mod::lemma_fundamental_div_mod(s[0] as int, 4);
        }
        assert((s[1] / 16) * 16 + s[1] % 16 == s[1]) by {
            vstd::arithmetic::div_mod::lemma_fundamental_div_mod(s[1] as int, 16);
        }
        assert(spec_b64url_decode(e) =~= s);
    } else {
        lemma_b64url_decode_encode(s.skip(3));
        let v0: u8 = s[0] / 4;
        let v1: u8 = ((s[0] % 4) * 16 + s[1] / 16) as u8;
        let v2: u8 = ((s[1] % 16) * 4 + s[2] / 64) as u8;
        let v3: u8 = (s[2] % 64) as u8;
        lemma_b64_char_val(v0);
        lemma_b64_char_val(v1);
        lemma_b64_char_val(v2);
        lemma_b64_char_val(v3);
        lemma_mul_add_div_mod((s[0] % 4) as int, (s[1] / 16) as int, 16);
        lemma_mul_add_div_mod((s[1] % 16) as int, (s[2] / 64) as int, 4);
        assert(v1 / 16 == s[0] % 4 && v1 % 16 == s[1] / 16);
        assert(v2 / 4 == s[1] % 16 && v2 % 4 == s[2] / 64);
        assert((s[0] / 4) * 4 + s[0] % 4 == s[0]) by {
            vstd::arithmetic::div_mod::lemma_fundamental_div_mod(s[0] as int, 4);
        }
        assert((s[1] / 16) * 16 + s[1] % 16 == s[1]) by {
            vstd::arithmetic::div_mod::lemma_fundamental_div_mod(s[1] as int, 16);
        }
        assert((s[2] / 64) * 64 + s[2] % 64 == s[2]) by {
            vstd::arithmetic::div_mod::lemma_fundamental_div_mod(s[2] as int, 64);
        }
        let head = seq![
            spec_b64_char(s[0] / 4),
            spec_b64_char(((s[0] % 4) * 16 + s[1] / 16) as u8),
            spec_b64_char(((s[1] % 16) * 4 + s[2] / 64) as u8),
            spec_b64_char((s[2] % 64) as u8),
        ];
        let rest = spec_b64url(s.skip(3));
        assert(e == head + rest);
        assert(e.len() >= 4);
        if e.len() == 4 {
            assert(spec_b64url(s.skip(3)).len() == 0);
            assert(s.skip(3).len() == 0) by {
                if s.skip(3).len() > 0 {
                    assert(spec_b64url(s.skip(3)).len() > 0);
                }
            }
            assert(s.len() == 3);
            assert(e.skip(4) =~= Seq::<u8>::empty());
            assert(spec_b64url_decode(Seq::<u8>::empty()) =~= Seq::<u8>::empty());
            assert(spec_b64url_decode(e) =~= seq![s[0], s[1], s[2]] + s.skip(3));
            assert(seq![s[0], s[1], s[2]] + s.skip(3) =~= s);
        } else {
            assert(e.skip(4) =~= rest);
            assert(spec_b64url_decode(e) =~= seq![s[0], s[1], s[2]] + s.skip(3));
            assert(seq![s[0], s[1], s[2]] + s.skip(3) =~= s);
        }
    }
}

/// Base64url encoding is injective.
pub proof fn lemma_b64url_injective(a: Seq<u8>, b: Seq<u8>)
    requires
        spec_b64url(a) == spec_b64url(b),
    ensures
        a == b,
{
    lemma_b64url_decode_encode(a);
    lemma_b64url_decode_encode(b);
}

} // verus!
