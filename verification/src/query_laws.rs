//! Laws of the query canonicalizer.
//!
//! The canonical string is a function of the ordered parameter sequence
//! alone, and it is injective: two parameter sequences share a canonical
//! string only if they are equal. Injectivity rests on percent-encoding
//! being invertible and on `=` and `&` never appearing inside an encoded
//! key or value.

use vstd::prelude::*;
use crate::query::{
    spec_canonical_pair, spec_canonical_query, spec_encode_byte, spec_hex_digit,
    spec_is_unreserved, spec_percent_encode,
};

verus! {

/// The nibble an uppercase hex digit stands for.
pub open spec fn spec_hex_val(d: u8) -> u8 {
    if 0x30 <= d <= 0x39 {
        (d - 0x30) as u8
    } else {
        (d - 0x37) as u8
    }
}

/// The inverse of percent-encoding: `%XX` groups become the byte they
/// spell, every other byte stands for itself.
pub open spec fn spec_percent_decode(s: Seq<u8>) -> Seq<u8>
    decreases s.len(),
{
    if s.len() == 0 {
        Seq::empty()
    } else if s[0] == 0x25 {
        if s.len() >= 3 {
            seq![(16 * spec_hex_val(s[1]) + spec_hex_val(s[2])) as u8] + spec_percent_decode(
                s.skip(3),
            )
        } else {
            Seq::empty()
        }
    } else {
        seq![s[0]] + spec_percent_decode(s.drop_first())
    }
}

/// Decoding undoes encoding.
pub proof fn lemma_percent_decode_encode(s: Seq<u8>)
    ensures
        spec_percent_decode(spec_percent_encode(s)) == s,
    decreases s.len(),
{
    if s.len() == 0 {
        assert(spec_percent_decode(spec_percent_encode(s)) =~= s);
    } else {
        lemma_percent_decode_encode(s.drop_first());
        let b = s[0];
        let e = spec_encode_byte(b);
        let rest = spec_percent_encode(s.drop_first());
        let whole = spec_percent_encode(s);
        assert(whole == e + rest);
        if spec_is_unreserved(b) {
            assert(whole[0] == b);
            assert(whole[0] != 0x25);
            assert(whole.drop_first() =~= rest);
            assert(spec_percent_decode(whole) =~= seq![b] + s.drop_first());
            assert(seq![b] + s.drop_first() =~= s);
        } else {
            assert(whole[0] == 0x25);
            assert(whole.len() >= 3);
            assert(whole[1] == spec_hex_digit(b / 16));
            assert(whole[2] == spec_hex_digit(b % 16));
            assert(spec_hex_val(spec_hex_digit(b / 16)) == b / 16);
            assert(spec_hex_val(spec_hex_digit(b % 16)) == b % 16);
            assert(16 * (b / 16) + b % 16 == b);
            assert(whole.skip(3) =~= rest);
            assert(spec_percent_decode(whole) =~= seq![b] + s.drop_first());
            assert(seq![b] + s.drop_first() =~= s);
        }
    }
}

/// Percent-encoding is injective.
pub proof fn lemma_percent_encode_injective(a: Seq<u8>, b: Seq<u8>)
    requires
        spec_percent_encode(a) == spec_percent_encode(b),
    ensures
        a == b,
{
    lemma_percent_decode_encode(a);
    lemma_percent_decode_encode(b);
}

/// Neither `=` (0x3d) nor `&` (0x26) occurs in a percent-encoded string.
pub proof fn lemma_percent_encode_no_separator(s: Seq<u8>)
    ensures
        forall|i: int|
            0 <= i < spec_percent_encode(s).len() ==> spec_percent_encode(s)[i] != 0x3d
                && spec_percent_encode(s)[i] != 0x26,
    decreases s.len(),
{
    if s.len() > 0 {
        lemma_percent_encode_no_separator(s.drop_first());
        let e = spec_encode_byte(s[0]);
        let rest = spec_percent_encode(s.drop_first());
        assert(spec_percent_encode(s) == e + rest);
        assert forall|i: int|
            0 <= i < spec_percent_encode(s).len() implies spec_percent_encode(s)[i] != 0x3d
            && spec_percent_encode(s)[i] != 0x26 by {
            if i < e.len() {
                assert(spec_percent_encode(s)[i] == e[i]);
            } else {
                assert(spec_percent_encode(s)[i] == rest[i - e.len()]);
            }
        }
    }
}

/// `&` (0x26) does not occur in the canonical form of a single pair.
pub proof fn lemma_canonical_pair_no_amp(k: Seq<u8>, v: Seq<u8>)
    ensures
        forall|i: int|
            0 <= i < spec_canonical_pair(k, v).len() ==> spec_canonical_pair(k, v)[i] != 0x26,
{
    lemma_percent_encode_no_separator(k);
    lemma_percent_encode_no_separator(v);
    let ek = spec_percent_encode(k);
    let ev = spec_percent_encode(v);
    let pair = spec_canonical_pair(k, v);
    assert forall|i: int| 0 <= i < pair.len() implies pair[i] != 0x26 by {
        if i < ek.len() {
            assert(pair[i] == ek[i]);
        } else if i == ek.len() {
            assert(pair[i] == 0x3du8);
        } else {
            assert(pair[i] == ev[i - ek.len() - 1]);
        }
    }
}

/// The canonical form of a pair determines the pair.
pub proof fn lemma_canonical_pair_injective(k1: Seq<u8>, v1: Seq<u8>, k2: Seq<u8>, v2: Seq<u8>)
    requires
        spec_canonical_pair(k1, v1) == spec_canonical_pair(k2, v2),
    ensures
        k1 == k2,
        v1 == v2,
{
    lemma_percent_encode_no_separator(k1);
    lemma_percent_encode_no_separator(k2);
    let a = spec_percent_encode(k1);
    let b = spec_percent_encode(v1);
    let c = spec_percent_encode(k2);
    let d = spec_percent_encode(v2);
    let whole = spec_canonical_pair(k1, v1);
    assert(whole == a + seq![0x3du8] + b);
    assert(whole == c + seq![0x3du8] + d);
    assert(whole.len() == a.len() + 1 + b.len());
    assert(whole.len() == c.len() + 1 + d.len());
    // The first `=` sits right after the encoded key on both readings,
    // so the key encodings have equal length.
    if a.len() < c.len() {
        assert(whole[a.len() as int] == 0x3du8);
        assert(whole[a.len() as int] == c[a.len() as int]);
        assert(false);
    }
    if c.len() < a.len() {
        assert(whole[c.len() as int] == 0x3du8);
        assert(whole[c.len() as int] == a[c.len() as int]);
        assert(false);
    }
    assert(a.len() == c.len());
    assert forall|i: int| 0 <= i < a.len() implies a[i] == c[i] by {
        assert(whole[i] == a[i]);
        assert(whole[i] == c[i]);
    }
    assert(a =~= c);
    assert(b.len() == d.len());
    assert forall|i: int| 0 <= i < b.len() implies b[i] == d[i] by {
        assert(whole[a.len() + 1 + i] == b[i]);
        assert(whole[a.len() + 1 + i] == d[i]);
    }
    assert(b =~= d);
    lemma_percent_encode_injective(k1, k2);
    lemma_percent_encode_injective(v1, v2);
}

/// A non-empty parameter sequence has a non-empty canonical string.
pub proof fn lemma_canonical_query_nonempty(params: Seq<(Seq<u8>, Seq<u8>)>)
    requires
        params.len() > 0,
    ensures
        spec_canonical_query(params).len() > 0,
{
    let pair = spec_canonical_pair(params[0].0, params[0].1);
    assert(pair.len() >= 1);
}

/// The canonical query string determines the parameter sequence: no two
/// distinct ordered parameter sequences share one, so any change to any
/// single key or value changes the canonical string.
pub proof fn lemma_canonical_query_injective(p: Seq<(Seq<u8>, Seq<u8>)>, q: Seq<(Seq<u8>, Seq<u8>)>)
    requires
        spec_canonical_query(p) == spec_canonical_query(q),
    ensures
        p == q,
    decreases p.len(),
{
    let whole = spec_canonical_query(p);
    if p.len() == 0 {
        if q.len() > 0 {
            lemma_canonical_query_nonempty(q);
        }
        assert(p =~= q);
    } else if q.len() == 0 {
        lemma_canonical_query_nonempty(p);
    } else {
        let pp = spec_canonical_pair(p[0].0, p[0].1);
        let qp = spec_canonical_pair(q[0].0, q[0].1);
        lemma_canonical_pair_no_amp(p[0].0, p[0].1);
        lemma_canonical_pair_no_amp(q[0].0, q[0].1);
        if p.len() == 1 && q.len() == 1 {
            lemma_canonical_pair_injective(p[0].0, p[0].1, q[0].0, q[0].1);
            assert(p =~= q);
        } else if p.len() == 1 {
            // q's canonical string holds a `&` right after its first pair;
            // p's holds none at all.
            let rest = spec_canonical_query(q.drop_first());
            assert(whole == qp + seq![0x26u8] + rest);
            assert(whole[qp.len() as int] == 0x26u8);
            assert(whole[qp.len() as int] == pp[qp.len() as int]);
            assert(false);
        } else if q.len() == 1 {
            let rest = spec_canonical_query(p.drop_first());
            assert(whole == pp + seq![0x26u8] + rest);
            assert(whole[pp.len() as int] == 0x26u8);
            assert(whole[pp.len() as int] == qp[pp.len() as int]);
            assert(false);
        } else {
            let prest = spec_canonical_query(p.drop_first());
            let qrest = spec_canonical_query(q.drop_first());
            assert(whole == pp + seq![0x26u8] + prest);
            assert(whole == qp + seq![0x26u8] + qrest);
            // The first `&` sits right after the first pair on both
            // readings, so the first pairs have equal length.
            if pp.len() < qp.len() {
                assert(whole[pp.len() as int] == 0x26u8);
                assert(whole[pp.len() as int] == qp[pp.len() as int]);
                assert(false);
            }
            if qp.len() < pp.len() {
                assert(whole[qp.len() as int] == 0x26u8);
                assert(whole[qp.len() as int] == pp[qp.len() as int]);
                assert(false);
            }
            assert(pp.len() == qp.len());
            assert forall|i: int| 0 <= i < pp.len() implies pp[i] == qp[i] by {
                assert(whole[i] == pp[i]);
                assert(whole[i] == qp[i]);
            }
            assert(pp =~= qp);
            lemma_canonical_pair_injective(p[0].0, p[0].1, q[0].0, q[0].1);
            assert(prest.len() == qrest.len());
            assert forall|i: int| 0 <= i < prest.len() implies prest[i] == qrest[i] by {
                assert(whole[pp.len() + 1 + i] == prest[i]);
                assert(whole[pp.len() + 1 + i] == qrest[i]);
            }
            assert(prest =~= qrest);
            lemma_canonical_query_injective(p.drop_first(), q.drop_first());
            assert(p[0] == q[0]);
            assert(p.len() == q.len());
            assert forall|i: int| 0 <= i < p.len() implies p[i] == q[i] by {
                if i > 0 {
                    assert(p[i] == p.drop_first()[i - 1]);
                    assert(q[i] == q.drop_first()[i - 1]);
                }
            }
            assert(p =~= q);
        }
    }
}

/// The canonical string depends on nothing but the ordered parameter
/// sequence: equal sequences canonicalize equally.
pub proof fn lemma_canonical_query_deterministic(
    p: Seq<(Seq<u8>, Seq<u8>)>,
    q: Seq<(Seq<u8>, Seq<u8>)>,
)
    requires
        p == q,
    ensures
        spec_canonical_query(p) == spec_canonical_query(q),
{
}

} // verus!
