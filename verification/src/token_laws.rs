//! Laws of the token signer.
//!
//! Given the credentials and the query binding, the token is a function
//! of the nonce alone — and an injective one: two signings that drew
//! different nonces produce different tokens. Since every signing draws
//! a fresh random nonce, tokens do not repeat. Injectivity rests on the
//! claims serialization being invertible (JSON escaping undone, the
//! nonce sits between fixed delimiters) and on base64url segments
//! containing no dot.

use vstd::prelude::*;
use vstd::utf8::encode_utf8;
use crate::encode::{lemma_b64url_ascii_no_dot, lemma_b64url_injective, spec_b64url};
use crate::query::spec_hex_digit;
use crate::query_laws::spec_hex_val;
use crate::token::{
    spec_escape_byte, spec_header_bytes, spec_json_escape, spec_payload, spec_signing_input,
    spec_token,
};

verus! {

/// The inverse of JSON string-body escaping.
pub open spec fn spec_json_unescape(s: Seq<u8>) -> Seq<u8>
    decreases s.len(),
{
    if s.len() == 0 {
        Seq::empty()
    } else if s[0] == 0x5c {
        if s.len() >= 2 && s[1] == 0x22 {
            seq![0x22u8] + spec_json_unescape(s.skip(2))
        } else if s.len() >= 2 && s[1] == 0x5c {
            seq![0x5cu8] + spec_json_unescape(s.skip(2))
        } else if s.len() >= 6 && s[1] == 0x75 {
            seq![(16 * spec_hex_val(s[4]) + spec_hex_val(s[5])) as u8] + spec_json_unescape(
                s.skip(6),
            )
        } else {
            Seq::empty()
        }
    } else {
        seq![s[0]] + spec_json_unescape(s.drop_first())
    }
}

/// Unescaping undoes escaping.
pub proof fn lemma_json_unescape_escape(s: Seq<u8>)
    ensures
        spec_json_unescape(spec_json_escape(s)) == s,
    decreases s.len(),
{
    if s.len() == 0 {
        assert(spec_json_unescape(spec_json_escape(s)) =~= s);
    } else {
        lemma_json_unescape_escape(s.drop_first());
        let b = s[0];
        let e = spec_escape_byte(b);
        let rest = spec_json_escape(s.drop_first());
        let whole = spec_json_escape(s);
        assert(whole == e + rest);
        if b == 0x22 {
            assert(whole[0] == 0x5c && whole[1] == 0x22);
            assert(whole.skip(2) =~= rest);
            assert(spec_json_unescape(whole) =~= seq![b] + s.drop_first());
        } else if b == 0x5c {
            assert(whole[0] == 0x5c && whole[1] == 0x5c);
            assert(whole.skip(2) =~= rest);
            assert(spec_json_unescape(whole) =~= seq![b] + s.drop_first());
        } else if b < 0x20 {
            assert(whole[0] == 0x5c && whole[1] == 0x75);
            assert(whole.len() >= 6);
            assert(whole[4] == spec_hex_digit(b / 16));
            assert(whole[5] == spec_hex_digit(b % 16));
            assert(spec_hex_val(spec_hex_digit(b / 16)) == b / 16);
            assert(spec_hex_val(spec_hex_digit(b % 16)) == b % 16);
            assert(16 * (b / 16) + b % 16 == b) by {
                vstd::arithmetic::div_mod::lemma_fundamental_div_mod(b as int, 16);
            }
            assert(whole.skip(6) =~= rest);
            assert(spec_json_unescape(whole) =~= seq![b] + s.drop_first());
        } else {
            assert(whole[0] == b);
            assert(whole[0] != 0x5c);
            assert(whole.drop_first() =~= rest);
            assert(spec_json_unescape(whole) =~= seq![b] + s.drop_first());
        }
        assert(seq![b] + s.drop_first() =~= s);
    }
}

/// JSON escaping is injective.
pub proof fn lemma_json_escape_injective(a: Seq<u8>, b: Seq<u8>)
    requires
        spec_json_escape(a) == spec_json_escape(b),
    ensures
        a == b,
{
    lemma_json_unescape_escape(a);
    lemma_json_unescape_escape(b);
}

/// Two equal sequences of the form `pre + mid + suf` with equal fixed
/// affixes have equal middles.
proof fn lemma_strip_affixes(pre: Seq<u8>, a: Seq<u8>, b: Seq<u8>, suf: Seq<u8>)
    requires
        pre + a + suf == pre + b + suf,
    ensures
        a == b,
{
    let w1 = pre + a + suf;
    let w2 = pre + b + suf;
    assert(w1.len() == w2.len());
    assert(a.len() == b.len());
    assert forall|i: int| 0 <= i < a.len() implies a[i] == b[i] by {
        assert(w1[pre.len() + i] == a[i]);
        assert(w2[pre.len() + i] == b[i]);
    }
    assert(a =~= b);
}

/// In `h + [.] + p + [.] + t` with `p` dot-free, the middle segment is
/// recovered: two such strings with the same `h` and equal in full have
/// equal middles.
proof fn lemma_middle_segment(
    h: Seq<u8>,
    p1: Seq<u8>,
    t1: Seq<u8>,
    p2: Seq<u8>,
    t2: Seq<u8>,
)
    requires
        h + seq![0x2eu8] + p1 + seq![0x2eu8] + t1 == h + seq![0x2eu8] + p2 + seq![0x2eu8] + t2,
        forall|i: int| 0 <= i < p1.len() ==> p1[i] != 0x2e,
        forall|i: int| 0 <= i < p2.len() ==> p2[i] != 0x2e,
    ensures
        p1 == p2,
{
    let w1 = h + seq![0x2eu8] + p1 + seq![0x2eu8] + t1;
    let w2 = h + seq![0x2eu8] + p2 + seq![0x2eu8] + t2;
    if p1.len() < p2.len() {
        let j: int = h.len() as int + 1 + p1.len() as int;
        assert(w1[j] == 0x2eu8);
        assert(w2[j] == p2[p1.len() as int]);
        assert(false);
    }
    if p2.len() < p1.len() {
        let j: int = h.len() as int + 1 + p2.len() as int;
        assert(w2[j] == 0x2eu8);
        assert(w1[j] == p1[p2.len() as int]);
        assert(false);
    }
    assert(p1.len() == p2.len());
    assert forall|i: int| 0 <= i < p1.len() implies p1[i] == p2[i] by {
        assert(w1[h.len() + 1 + i] == p1[i]);
        assert(w2[h.len() + 1 + i] == p2[i]);
    }
    assert(p1 =~= p2);
}

/// With the credentials and query binding fixed, the token determines
/// the nonce: two signings agree on the token only if they drew the
/// same nonce. Contrapositive: distinct nonces give distinct tokens.
pub proof fn lemma_token_determines_nonce(
    access: Seq<u8>,
    secret: Seq<u8>,
    n1: Seq<u8>,
    n2: Seq<u8>,
    query: Option<Seq<u8>>,
)
    requires
        spec_token(access, secret, n1, query) == spec_token(access, secret, n2, query),
    ensures
        n1 == n2,
{
    let h = spec_b64url(spec_header_bytes());
    let pay1 = spec_payload(access, n1, query);
    let pay2 = spec_payload(access, n2, query);
    let p1 = spec_b64url(pay1);
    let p2 = spec_b64url(pay2);
    let si1 = spec_signing_input(access, n1, query);
    let si2 = spec_signing_input(access, n2, query);
    let t1 = spec_b64url(crate::crypto::spec_hmac_sha512(secret, si1));
    let t2 = spec_b64url(crate::crypto::spec_hmac_sha512(secret, si2));
    lemma_b64url_ascii_no_dot(pay1);
    lemma_b64url_ascii_no_dot(pay2);
    assert(spec_token(access, secret, n1, query) =~= h + seq![0x2eu8] + p1 + seq![0x2eu8] + t1);
    assert(spec_token(access, secret, n2, query) =~= h + seq![0x2eu8] + p2 + seq![0x2eu8] + t2);
    lemma_middle_segment(h, p1, t1, p2, t2);
    lemma_b64url_injective(pay1, pay2);
    // The payloads are `pre + escaped-nonce + suf` with fixed affixes.
    let pre = encode_utf8("{\"access_key\":\""@) + spec_json_escape(access) + encode_utf8(
        "\",\"nonce\":\""@,
    );
    let suf = match query {
        None => encode_utf8("\"}"@),
        Some(q) => encode_utf8("\",\"query_hash\":\""@) + crate::encode::spec_hex_lower(
            crate::crypto::spec_sha512(q),
        ) + encode_utf8("\",\"query_hash_alg\":\"SHA512\"}"@),
    };
    assert(pay1 =~= pre + spec_json_escape(n1) + suf);
    assert(pay2 =~= pre + spec_json_escape(n2) + suf);
    lemma_strip_affixes(pre, spec_json_escape(n1), spec_json_escape(n2), suf);
    lemma_json_escape_injective(n1, n2);
}

/// Distinct nonces give distinct tokens, whatever the credentials and
/// query binding: the nonce makes every signed token unique.
pub proof fn lemma_distinct_nonces_distinct_tokens(
    access: Seq<u8>,
    secret: Seq<u8>,
    n1: Seq<u8>,
    n2: Seq<u8>,
    query: Option<Seq<u8>>,
)
    requires
        n1 != n2,
    ensures
        spec_token(access, secret, n1, query) != spec_token(access, secret, n2, query),
{
    if spec_token(access, secret, n1, query) == spec_token(access, secret, n2, query) {
        lemma_token_determines_nonce(access, secret, n1, n2, query);
    }
}

} // verus!
