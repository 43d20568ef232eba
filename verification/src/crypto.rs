//! Trusted wrappers for the cryptographic primitives the signer uses.
//!
//! The digests themselves are outside code; their results are only named
//! here, never restated. Everything built on top of them — hex and
//! base64url encoding, claim assembly, the token layout — is verified.

use vstd::prelude::*;
use sha2::Digest;
use hmac::Mac;

verus! {

/// The SHA-512 digest of a byte sequence; 64 bytes.
pub uninterp spec fn spec_sha512(data: Seq<u8>) -> Seq<u8>;

/// The HMAC-SHA-512 tag over a message under a key; 64 bytes.
pub uninterp spec fn spec_hmac_sha512(key: Seq<u8>, msg: Seq<u8>) -> Seq<u8>;

/// Relies on `sha2::Sha512`: the digest depends on the input alone and
/// is 64 bytes long.
#[verifier::external_body]
pub fn sha512(data: &[u8]) -> (r: Vec<u8>)
    ensures
        r@ == spec_sha512(data@),
        r@.len() == 64,
{
    sha2::Sha512::digest(data).to_vec()
}

/// Relies on `hmac::Hmac<sha2::Sha512>`: the tag depends on the key and
/// message alone and is 64 bytes long; HMAC accepts keys of any length.
#[verifier::external_body]
pub fn hmac_sha512(key: &[u8], msg: &[u8]) -> (r: Vec<u8>)
    ensures
        r@ == spec_hmac_sha512(key@, msg@),
        r@.len() == 64,
{
    let mut mac = <hmac::Hmac<sha2::Sha512> as hmac::KeyInit>::new_from_slice(key)
        .expect("HMAC accepts keys of any length");
    mac.update(msg);
    mac.finalize().into_bytes().to_vec()
}

/// Relies on `uuid::Uuid::new_v4` and its `Display` form: a fresh random
/// version-4 UUID, rendered as 36 ASCII characters (hyphenated lowercase
/// hex). The value is random, so nothing relates two calls.
#[verifier::external_body]
pub fn new_nonce() -> (r: String)
    ensures
        r@.len() == 36,
        forall|i: int| 0 <= i < r@.len() ==> (r@[i] as u32) < 128,
{
    uuid::Uuid::new_v4().to_string()
}

} // verus!
