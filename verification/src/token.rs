//! The token signer.
//!
//! A signed token asserts `{access_key, nonce}` and, when the request
//! carries query parameters, `{query_hash, query_hash_alg}`. The claims
//! are serialized as a JSON object, and the token is laid out as three
//! unpadded base64url segments joined by dots: header, claims, and an
//! HMAC-SHA-512 tag over the first two segments under the secret key —
//! so the server can check both who issued the token and exactly which
//! parameter bytes it was issued for.
//!
//! Every byte of the token is pinned down by `spec_token` below, except
//! the digest values themselves, which are named in [`crate::crypto`].

use vstd::prelude::*;
use vstd::utf8::encode_utf8;
use crate::credentials::{CredentialStore, Credentials};
use crate::crypto::{hmac_sha512, new_nonce, sha512, spec_hmac_sha512, spec_sha512};
use crate::errors::{ErrorKind, ResponseError};
use crate::encode::{b64url, hex_lower, spec_b64url, spec_hex_lower};
use crate::query::spec_hex_digit;
use crate::text::{ascii_to_string, spec_ascii_chars};

verus! {

/// A signed bearer token. Callers never parse it; they only attach it
/// to the `Authorization` header. A fresh one is made for every request.
pub struct SignedToken {
    pub value: String,
}

/// The escaping of one byte inside a JSON string: `"` and `\` get a
/// backslash, control bytes become `\u00XX`, all else passes through.
pub open spec fn spec_escape_byte(b: u8) -> Seq<u8> {
    if b == 0x22 {
        seq![0x5cu8, 0x22u8]
    } else if b == 0x5c {
        seq![0x5cu8, 0x5cu8]
    } else if b < 0x20 {
        seq![0x5cu8, 0x75u8, 0x30u8, 0x30u8, spec_hex_digit(b / 16), spec_hex_digit(b % 16)]
    } else {
        seq![b]
    }
}

/// JSON string-body escaping of a UTF-8 byte sequence. Only ASCII bytes
/// are ever escaped, so this is sound on multi-byte characters.
pub open spec fn spec_json_escape(s: Seq<u8>) -> Seq<u8>
    decreases s.len(),
{
    if s.len() == 0 {
        Seq::empty()
    } else {
        spec_escape_byte(s[0]) + spec_json_escape(s.drop_first())
    }
}

/// Appending distributes over JSON escaping.
pub proof fn lemma_json_escape_append(a: Seq<u8>, b: Seq<u8>)
    ensures
        spec_json_escape(a + b) == spec_json_escape(a) + spec_json_escape(b),
    decreases a.len(),
{
    if a.len() == 0 {
        assert(a + b =~= b);
        assert(spec_json_escape(a) + spec_json_escape(b) =~= spec_json_escape(b));
    } else {
        assert((a + b).drop_first() =~= a.drop_first() + b);
        lemma_json_escape_append(a.drop_first(), b);
        assert(spec_json_escape(a + b) =~= spec_json_escape(a) + spec_json_escape(b));
    }
}

/// Appends the JSON escaping of `s` to `out`.
fn json_escape_into(out: &mut Vec<u8>, s: &[u8])
    ensures
        final(out)@ == old(out)@ + spec_json_escape(s@),
{
    let n = s.len();
    let mut i: usize = 0;
    proof {
        assert(s@.take(0) =~= Seq::<u8>::empty());
        assert(out@ + spec_json_escape(s@.take(0)) =~= out@);
    }
    while i < n
        invariant
            n == s@.len(),
            i <= n,
            out@ == old(out)@ + spec_json_escape(s@.take(i as int)),
        decreases n - i,
    {
        let b = s[i];
        if b == 0x22 {
            out.push(0x5c);
            out.push(0x22);
        } else if b == 0x5c {
            out.push(0x5c);
            out.push(0x5c);
        } else if b < 0x20 {
            out.push(0x5c);
            out.push(0x75);
            out.push(0x30);
            out.push(0x30);
            let hi = b / 16;
            let lo = b % 16;
            out.push(if hi < 10 { 0x30 + hi } else { 0x37 + hi });
            out.push(if lo < 10 { 0x30 + lo } else { 0x37 + lo });
        } else {
            out.push(b);
        }
        proof {
            let x = s@[i as int];
            lemma_json_escape_append(s@.take(i as int), seq![x]);
            assert(s@.take(i + 1) =~= s@.take(i as int) + seq![x]);
            assert(seq![x].drop_first() =~= Seq::<u8>::empty());
            assert(spec_json_escape(Seq::<u8>::empty()) =~= Seq::<u8>::empty());
            assert(spec_json_escape(seq![x]) =~= spec_escape_byte(seq![x][0])
                + spec_json_escape(seq![x].drop_first()));
            assert(spec_json_escape(seq![x]) =~= spec_escape_byte(x));
            assert(out@ =~= old(out)@ + spec_json_escape(s@.take(i + 1)));
        }
        i += 1;
    }
    proof {
        assert(s@.take(n as int) =~= s@);
    }
}

/// The token header: a JSON object naming the signature algorithm.
pub open spec fn spec_header_bytes() -> Seq<u8> {
    encode_utf8("{\"alg\":\"HS512\",\"typ\":\"JWT\"}"@)
}

/// The serialized claims: the access key and nonce always, and when a
/// canonical query string is bound, its SHA-512 digest in lowercase hex
/// together with the digest algorithm's name.
pub open spec fn spec_payload(access: Seq<u8>, nonce: Seq<u8>, query: Option<Seq<u8>>) -> Seq<u8> {
    encode_utf8("{\"access_key\":\""@) + spec_json_escape(access) + encode_utf8(
        "\",\"nonce\":\""@,
    ) + spec_json_escape(nonce) + match query {
        None => encode_utf8("\"}"@),
        Some(q) => encode_utf8("\",\"query_hash\":\""@) + spec_hex_lower(spec_sha512(q))
            + encode_utf8("\",\"query_hash_alg\":\"SHA512\"}"@),
    }
}

/// The first two token segments: base64url of header and claims, dotted.
pub open spec fn spec_signing_input(
    access: Seq<u8>,
    nonce: Seq<u8>,
    query: Option<Seq<u8>>,
) -> Seq<u8> {
    spec_b64url(spec_header_bytes()) + seq![0x2eu8] + spec_b64url(
        spec_payload(access, nonce, query),
    )
}

/// The whole token: signing input, a dot, and the base64url of the
/// HMAC-SHA-512 tag over the signing input under the secret key.
pub open spec fn spec_token(
    access: Seq<u8>,
    secret: Seq<u8>,
    nonce: Seq<u8>,
    query: Option<Seq<u8>>,
) -> Seq<u8> {
    let si = spec_signing_input(access, nonce, query);
    si + seq![0x2eu8] + spec_b64url(spec_hmac_sha512(secret, si))
}

/// The view of an optional byte vector.
pub open spec fn spec_query_view(query: Option<&Vec<u8>>) -> Option<Seq<u8>> {
    match query {
        Some(q) => Some(q@),
        None => None,
    }
}

/// Serializes the claims object.
fn build_payload(access: &str, nonce: &str, query: Option<&Vec<u8>>) -> (r: Vec<u8>)
    ensures
        r@ == spec_payload(encode_utf8(access@), encode_utf8(nonce@), spec_query_view(query)),
{
    let mut out: Vec<u8> = Vec::new();
    out.extend_from_slice("{\"access_key\":\"".as_bytes());
    json_escape_into(&mut out, access.as_bytes());
    out.extend_from_slice("\",\"nonce\":\"".as_bytes());
    json_escape_into(&mut out, nonce.as_bytes());
    match query {
        None => {
            out.extend_from_slice("\"}".as_bytes());
        },
        Some(q) => {
            out.extend_from_slice("\",\"query_hash\":\"".as_bytes());
            let digest = sha512(q.as_slice());
            let hex = hex_lower(digest.as_slice());
            out.extend_from_slice(hex.as_slice());
            out.extend_from_slice("\",\"query_hash_alg\":\"SHA512\"}".as_bytes());
        },
    }
    proof {
        assert(out@ =~= spec_payload(
            encode_utf8(access@),
            encode_utf8(nonce@),
            spec_query_view(query),
        ));
    }
    out
}

/// Signs a token for the given credentials, nonce, and optional
/// canonical query string. Deterministic: every byte of the result is
/// `spec_token` of the inputs.
pub fn sign_with_nonce(creds: &Credentials, nonce: &str, query: Option<&Vec<u8>>) -> (r: Vec<u8>)
    ensures
        r@ == spec_token(
            encode_utf8(creds.access_key@),
            encode_utf8(creds.secret_key@),
            encode_utf8(nonce@),
            spec_query_view(query),
        ),
{
    let payload = build_payload(creds.access_key.as_str(), nonce, query);
    let h64 = b64url("{\"alg\":\"HS512\",\"typ\":\"JWT\"}".as_bytes());
    let p64 = b64url(payload.as_slice());
    let mut token: Vec<u8> = Vec::new();
    token.extend_from_slice(h64.as_slice());
    token.push(0x2e);
    token.extend_from_slice(p64.as_slice());
    proof {
        assert(token@ =~= spec_signing_input(
            encode_utf8(creds.access_key@),
            encode_utf8(nonce@),
            spec_query_view(query),
        ));
    }
    let tag = hmac_sha512(creds.secret_key.as_str().as_bytes(), token.as_slice());
    let t64 = b64url(tag.as_slice());
    token.push(0x2e);
    token.extend_from_slice(t64.as_slice());
    proof {
        assert(token@ =~= spec_token(
            encode_utf8(creds.access_key@),
            encode_utf8(creds.secret_key@),
            encode_utf8(nonce@),
            spec_query_view(query),
        ));
    }
    token
}

/// Every byte of a token is ASCII.
pub proof fn lemma_token_ascii(
    access: Seq<u8>,
    secret: Seq<u8>,
    nonce: Seq<u8>,
    query: Option<Seq<u8>>,
)
    ensures
        forall|i: int|
            0 <= i < spec_token(access, secret, nonce, query).len() ==> spec_token(
                access,
                secret,
                nonce,
                query,
            )[i] < 128,
{
    let si = spec_signing_input(access, nonce, query);
    let h = spec_b64url(spec_header_bytes());
    let p = spec_b64url(spec_payload(access, nonce, query));
    let t = spec_b64url(spec_hmac_sha512(secret, si));
    crate::encode::lemma_b64url_ascii_no_dot(spec_header_bytes());
    crate::encode::lemma_b64url_ascii_no_dot(spec_payload(access, nonce, query));
    crate::encode::lemma_b64url_ascii_no_dot(spec_hmac_sha512(secret, si));
    let whole = spec_token(access, secret, nonce, query);
    assert(whole =~= h + seq![0x2eu8] + p + seq![0x2eu8] + t);
    assert forall|i: int| 0 <= i < whole.len() implies whole[i] < 128 by {
        if i < h.len() {
            assert(whole[i] == h[i]);
        } else if i == h.len() {
            assert(whole[i] == 0x2eu8);
        } else if i < h.len() + 1 + p.len() {
            assert(whole[i] == p[i - h.len() - 1]);
        } else if i == h.len() + 1 + p.len() {
            assert(whole[i] == 0x2eu8);
        } else {
            assert(whole[i] == t[i - (h.len() + 1 + p.len()) - 1]);
        }
    }
}

/// Signs a fresh token: draws a new nonce and signs with it. Callers
/// learn that the result is `spec_token` for *some* 36-character nonce —
/// a different one on every call, which is exactly why no two tokens
/// repeat.
pub fn sign_token(creds: &Credentials, query: Option<&Vec<u8>>) -> (r: SignedToken)
    ensures
        exists|nonce: Seq<char>|
            nonce.len() == 36 && r.value@ == spec_ascii_chars(
                spec_token(
                    encode_utf8(creds.access_key@),
                    encode_utf8(creds.secret_key@),
                    encode_utf8(nonce),
                    spec_query_view(query),
                ),
            ),
{
    let nonce = new_nonce();
    let bytes = sign_with_nonce(creds, nonce.as_str(), query);
    proof {
        lemma_token_ascii(
            encode_utf8(creds.access_key@),
            encode_utf8(creds.secret_key@),
            encode_utf8(nonce@),
            spec_query_view(query),
        );
    }
    let value = ascii_to_string(bytes);
    proof {
        let tok = spec_token(
            encode_utf8(creds.access_key@),
            encode_utf8(creds.secret_key@),
            encode_utf8(nonce@),
            spec_query_view(query),
        );
        assert(value@ =~= spec_ascii_chars(tok));
    }
    SignedToken { value }
}

/// Signs a fresh token with the store's credential pair: the one
/// failure is an unconfigured store, detected before any token is
/// built. Signing itself does no I/O and cannot fail.
pub fn sign_for(store: &CredentialStore, query: Option<&Vec<u8>>) -> (r: Result<
    SignedToken,
    ResponseError,
>)
    ensures
        store.is_configured() <==> r is Ok,
        r matches Err(e) ==> e.kind == ErrorKind::LocalMissingCredentials,
        r matches Ok(t) ==> exists|nonce: Seq<char>|
            nonce.len() == 36 && t.value@ == spec_ascii_chars(
                spec_token(
                    encode_utf8(store.spec_access_key().unwrap()),
                    encode_utf8(store.spec_secret_key().unwrap()),
                    encode_utf8(nonce),
                    spec_query_view(query),
                ),
            ),
{
    match store.credentials() {
        Ok(creds) => Ok(sign_token(&creds, query)),
        Err(e) => Err(e),
    }
}

/// The `Authorization` header value carrying a signed token.
pub fn authorization_value(token: &SignedToken) -> (r: String)
    ensures
        r@ == "Bearer "@ + token.value@,
{
    let mut r = "Bearer ".to_owned();
    r.append(token.value.as_str());
    r
}

} // verus!
