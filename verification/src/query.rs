//! The query canonicalizer.
//!
//! A request's query parameters are an ordered sequence of (key, value)
//! pairs; order matters, because the canonical string is part of the
//! signed material. The canonical string is the percent-encoded
//! `key=value` pairs joined by `&`, in the given order. The same string
//! is both hashed into the signed token and sent on the wire, so the
//! signed bytes and the wire bytes cannot disagree.
//!
//! Encoding is RFC 3986 percent-encoding: unreserved bytes (letters,
//! digits, `-`, `.`, `_`, `~`) pass through; every other byte becomes
//! `%` followed by two uppercase hex digits. `=`, `&`, and `%` are all
//! escaped inside keys and values, which makes the canonical string
//! unambiguous: no two distinct parameter sequences share one.

use vstd::prelude::*;
use vstd::string::StringSliceAdditionalSpecFns;
use crate::text::ascii_to_string;

verus! {

/// Bytes that percent-encoding passes through unchanged.
pub open spec fn spec_is_unreserved(b: u8) -> bool {
    (0x41 <= b <= 0x5a)  // A-Z
    || (0x61 <= b <= 0x7a)  // a-z
    || (0x30 <= b <= 0x39)  // 0-9
    || b == 0x2d  // -
    || b == 0x2e  // .
    || b == 0x5f  // _
    || b == 0x7e  // ~
}

/// The ASCII uppercase hex digit for a nibble.
pub open spec fn spec_hex_digit(n: u8) -> u8 {
    if n < 10 {
        (0x30 + n) as u8
    } else {
        (0x37 + n) as u8  // 10 -> 'A' (0x41)
    }
}

/// The encoding of a single byte: itself if unreserved, else `%XX`.
pub open spec fn spec_encode_byte(b: u8) -> Seq<u8> {
    if spec_is_unreserved(b) {
        seq![b]
    } else {
        seq![0x25u8, spec_hex_digit(b / 16), spec_hex_digit(b % 16)]
    }
}

/// Percent-encoding of a byte sequence.
pub open spec fn spec_percent_encode(s: Seq<u8>) -> Seq<u8>
    decreases s.len(),
{
    if s.len() == 0 {
        Seq::empty()
    } else {
        spec_encode_byte(s[0]) + spec_percent_encode(s.drop_first())
    }
}

/// The canonical form of one pair: `encoded-key = encoded-value`.
pub open spec fn spec_canonical_pair(k: Seq<u8>, v: Seq<u8>) -> Seq<u8> {
    spec_percent_encode(k) + seq![0x3du8] + spec_percent_encode(v)
}

/// The canonical query string of an ordered parameter sequence:
/// the canonical pairs joined by `&`.
pub open spec fn spec_canonical_query(params: Seq<(Seq<u8>, Seq<u8>)>) -> Seq<u8>
    decreases params.len(),
{
    if params.len() == 0 {
        Seq::empty()
    } else if params.len() == 1 {
        spec_canonical_pair(params[0].0, params[0].1)
    } else {
        spec_canonical_pair(params[0].0, params[0].1) + seq![0x26u8] + spec_canonical_query(
            params.drop_first(),
        )
    }
}

/// The byte-level view of a parameter list given as strings.
pub open spec fn spec_params_bytes(params: Seq<(String, String)>) -> Seq<(Seq<u8>, Seq<u8>)> {
    params.map(
        |i: int, p: (String, String)|
            (vstd::utf8::encode_utf8(p.0@), vstd::utf8::encode_utf8(p.1@)),
    )
}

/// Pushing a pair extends the byte-level view by the pair's bytes.
pub proof fn lemma_params_bytes_push(ps: Seq<(String, String)>, p: (String, String))
    ensures
        spec_params_bytes(ps.push(p)) == spec_params_bytes(ps).push(
            (vstd::utf8::encode_utf8(p.0@), vstd::utf8::encode_utf8(p.1@)),
        ),
{
    assert(spec_params_bytes(ps.push(p)) =~= spec_params_bytes(ps).push(
        (vstd::utf8::encode_utf8(p.0@), vstd::utf8::encode_utf8(p.1@)),
    ));
}

/// Appending distributes over percent-encoding.
pub proof fn lemma_percent_encode_append(a: Seq<u8>, b: Seq<u8>)
    ensures
        spec_percent_encode(a + b) == spec_percent_encode(a) + spec_percent_encode(b),
    decreases a.len(),
{
    if a.len() == 0 {
        assert(a + b =~= b);
        assert(spec_percent_encode(a) + spec_percent_encode(b) =~= spec_percent_encode(b));
    } else {
        assert((a + b).drop_first() =~= a.drop_first() + b);
        lemma_percent_encode_append(a.drop_first(), b);
        assert(spec_percent_encode(a + b) =~= spec_percent_encode(a) + spec_percent_encode(b));
    }
}

/// The uppercase hex digit of a nibble, as executable code.
fn hex_digit(n: u8) -> (r: u8)
    requires
        n < 16,
    ensures
        r == spec_hex_digit(n),
{
    if n < 10 {
        0x30 + n
    } else {
        0x37 + n
    }
}

/// Appends the percent-encoding of `s` to `out`.
fn percent_encode_into(out: &mut Vec<u8>, s: &[u8])
    ensures
        final(out)@ == old(out)@ + spec_percent_encode(s@),
{
    let n = s.len();
    let mut i: usize = 0;
    proof {
        assert(s@.take(0) =~= Seq::<u8>::empty());
        assert(out@ + spec_percent_encode(s@.take(0)) =~= out@);
    }
    while i < n
        invariant
            n == s@.len(),
            i <= n,
            out@ == old(out)@ + spec_percent_encode(s@.take(i as int)),
        decreases n - i,
    {
        let b = s[i];
        if (0x41 <= b && b <= 0x5a) || (0x61 <= b && b <= 0x7a) || (0x30 <= b && b <= 0x39)
            || b == 0x2d || b == 0x2e || b == 0x5f || b == 0x7e {
            out.push(b);
        } else {
            out.push(0x25);
            out.push(hex_digit(b / 16));
            out.push(hex_digit(b % 16));
        }
        proof {
            lemma_percent_encode_append(s@.take(i as int), seq![s@[i as int]]);
            assert(s@.take(i + 1) =~= s@.take(i as int) + seq![s@[i as int]]);
            let x = s@[i as int];
            assert(seq![x].drop_first() =~= Seq::<u8>::empty());
            assert(spec_percent_encode(Seq::<u8>::empty()) =~= Seq::<u8>::empty());
            assert(spec_percent_encode(seq![x]) =~= spec_encode_byte(seq![x][0])
                + spec_percent_encode(seq![x].drop_first()));
            assert(spec_percent_encode(seq![x]) =~= spec_encode_byte(x));
            assert(out@ =~= old(out)@ + spec_percent_encode(s@.take(i + 1)));
        }
        i += 1;
    }
    proof {
        assert(s@.take(n as int) =~= s@);
    }
}

/// The canonical query string over an ordered parameter list, as raw
/// bytes. Zero parameters yield no binding at all — `None`, not an
/// empty string — since parameter-less requests are signed without a
/// query-hash claim.
pub fn canonical_query_bytes(params: &Vec<(String, String)>) -> (r: Option<Vec<u8>>)
    ensures
        params@.len() == 0 <==> r is None,
        r matches Some(v) ==> v@ == spec_canonical_query(spec_params_bytes(params@)),
{
    if params.len() == 0 {
        return None;
    }
    let mut out: Vec<u8> = Vec::new();
    let n = params.len();
    let mut i: usize = 0;
    proof {
        assert(spec_params_bytes(params@).take(0) =~= Seq::<(Seq<u8>, Seq<u8>)>::empty());
    }
    while i < n
        invariant
            n == params@.len(),
            0 < n,
            i <= n,
            out@ == spec_canonical_query(spec_params_bytes(params@).take(i as int)),
        decreases n - i,
    {
        if i > 0 {
            out.push(0x26);
        }
        let pair = &params[i];
        percent_encode_into(&mut out, pair.0.as_str().as_bytes());
        out.push(0x3d);
        percent_encode_into(&mut out, pair.1.as_str().as_bytes());
        proof {
            let pb = spec_params_bytes(params@);
            lemma_canonical_query_snoc(pb.take(i as int), pb[i as int]);
            assert(pb.take(i + 1).drop_last() =~= pb.take(i as int));
            assert(pb.take(i + 1) =~= pb.take(i as int).push(pb[i as int]));
            assert(out@ =~= spec_canonical_query(pb.take(i + 1)));
        }
        i += 1;
    }
    proof {
        assert(spec_params_bytes(params@).take(n as int) =~= spec_params_bytes(params@));
    }
    Some(out)
}

/// Extending a parameter list by one pair extends its canonical string
/// by `&` and the pair's canonical form (just the pair when it is first).
pub proof fn lemma_canonical_query_snoc(params: Seq<(Seq<u8>, Seq<u8>)>, p: (Seq<u8>, Seq<u8>))
    ensures
        params.len() == 0 ==> spec_canonical_query(params.push(p)) == spec_canonical_pair(
            p.0,
            p.1,
        ),
        params.len() > 0 ==> spec_canonical_query(params.push(p)) == spec_canonical_query(params)
            + seq![0x26u8] + spec_canonical_pair(p.0, p.1),
    decreases params.len(),
{
    if params.len() == 0 {
        assert(params.push(p)[0] == p);
        assert(params.push(p).len() == 1);
    } else {
        lemma_canonical_query_snoc(params.drop_first(), p);
        assert(params.push(p).drop_first() =~= params.drop_first().push(p));
        assert(params.push(p)[0] == params[0]);
        if params.len() == 1 {
            assert(spec_canonical_query(params.push(p)) =~= spec_canonical_query(params)
                + seq![0x26u8] + spec_canonical_pair(p.0, p.1));
        } else {
            assert(spec_canonical_query(params.push(p)) =~= spec_canonical_query(params)
                + seq![0x26u8] + spec_canonical_pair(p.0, p.1));
        }
    }
}

/// Every byte of a percent-encoded string is ASCII.
pub proof fn lemma_percent_encode_ascii(s: Seq<u8>)
    ensures
        forall|i: int| 0 <= i < spec_percent_encode(s).len() ==> spec_percent_encode(s)[i] < 128,
    decreases s.len(),
{
    if s.len() > 0 {
        lemma_percent_encode_ascii(s.drop_first());
        let e = spec_encode_byte(s[0]);
        let rest = spec_percent_encode(s.drop_first());
        assert(spec_percent_encode(s) == e + rest);
        assert forall|i: int|
            0 <= i < spec_percent_encode(s).len() implies spec_percent_encode(s)[i] < 128 by {
            if i < e.len() {
                assert(spec_percent_encode(s)[i] == e[i]);
            } else {
                assert(spec_percent_encode(s)[i] == rest[i - e.len()]);
            }
        }
    }
}

/// Every byte of a canonical query string is ASCII.
pub proof fn lemma_canonical_query_ascii(params: Seq<(Seq<u8>, Seq<u8>)>)
    ensures
        forall|i: int|
            0 <= i < spec_canonical_query(params).len() ==> spec_canonical_query(params)[i] < 128,
    decreases params.len(),
{
    if params.len() > 0 {
        lemma_percent_encode_ascii(params[0].0);
        lemma_percent_encode_ascii(params[0].1);
        let ek = spec_percent_encode(params[0].0);
        let ev = spec_percent_encode(params[0].1);
        let pair = spec_canonical_pair(params[0].0, params[0].1);
        assert(forall|i: int| 0 <= i < pair.len() ==> pair[i] < 128) by {
            assert(forall|i: int|
                0 <= i < pair.len() ==> pair[i] == if i < ek.len() {
                    ek[i]
                } else if i == ek.len() {
                    0x3du8
                } else {
                    ev[i - ek.len() - 1]
                });
        }
        if params.len() > 1 {
            lemma_canonical_query_ascii(params.drop_first());
            let rest = spec_canonical_query(params.drop_first());
            let whole = spec_canonical_query(params);
            assert(whole == pair + seq![0x26u8] + rest);
            assert forall|i: int| 0 <= i < whole.len() implies whole[i] < 128 by {
                if i < pair.len() {
                    assert(whole[i] == pair[i]);
                } else if i == pair.len() {
                    assert(whole[i] == 0x26u8);
                } else {
                    assert(whole[i] == rest[i - pair.len() - 1]);
                }
            }
        }
    }
}

/// The canonical query string as text, for building the request URL.
pub fn canonical_query_text(params: &Vec<(String, String)>) -> (r: Option<String>)
    ensures
        params@.len() == 0 <==> r is None,
        r matches Some(s) ==> {
            let c = spec_canonical_query(spec_params_bytes(params@));
            s@.len() == c.len() && forall|i: int| 0 <= i < c.len() ==> s@[i] == c[i] as char
        },
{
    match canonical_query_bytes(params) {
        None => None,
        Some(v) => {
            proof {
                lemma_canonical_query_ascii(spec_params_bytes(params@));
            }
            Some(ascii_to_string(v))
        },
    }
}

} // verus!
