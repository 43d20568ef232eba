//! The canonicalizer: exact canonical strings, the no-binding rule for
//! empty parameter lists, percent-encoding of reserved bytes, stability,
//! and injectivity on concrete inputs.

use sha2::Digest;
use upbit_client::query::{canonical_query_bytes, canonical_query_text};

fn pairs(ps: &[(&str, &str)]) -> Vec<(String, String)> {
    ps.iter().map(|(k, v)| (k.to_string(), v.to_string())).collect()
}

#[test]
fn canonical_of_two_plain_pairs() {
    let params = pairs(&[("market", "KRW-ETH"), ("count", "10")]);
    let text = canonical_query_text(&params).unwrap();
    assert_eq!(text, "market=KRW-ETH&count=10");
}

#[test]
fn canonical_preserves_insertion_order() {
    let ab = canonical_query_text(&pairs(&[("a", "1"), ("b", "2")])).unwrap();
    let ba = canonical_query_text(&pairs(&[("b", "2"), ("a", "1")])).unwrap();
    assert_eq!(ab, "a=1&b=2");
    assert_eq!(ba, "b=2&a=1");
    assert_ne!(ab, ba);
}

#[test]
fn empty_parameter_list_gives_no_binding() {
    let params: Vec<(String, String)> = Vec::new();
    assert!(canonical_query_bytes(&params).is_none());
    assert!(canonical_query_text(&params).is_none());
}

#[test]
fn reserved_bytes_are_percent_encoded() {
    let params = pairs(&[("q", "a b&c=d")]);
    let text = canonical_query_text(&params).unwrap();
    assert_eq!(text, "q=a%20b%26c%3Dd");
}

#[test]
fn unreserved_bytes_pass_through() {
    let params = pairs(&[("k-._~", "AZaz09")]);
    let text = canonical_query_text(&params).unwrap();
    assert_eq!(text, "k-._~=AZaz09");
}

#[test]
fn multibyte_text_is_encoded_bytewise() {
    // The Hangul syllable U+C6D0 is the three UTF-8 bytes EC 9B 90.
    let params = pairs(&[("c", "\u{c6d0}")]);
    let text = canonical_query_text(&params).unwrap();
    assert_eq!(text, "c=%EC%9B%90");
}

#[test]
fn canonical_is_stable_across_calls() {
    let params = pairs(&[("uuid", "9f432943-54e0-40b7-825f-b6fec8b42b79")]);
    let once = canonical_query_text(&params).unwrap();
    let twice = canonical_query_text(&params).unwrap();
    assert_eq!(once, twice);
}

#[test]
fn changing_one_value_changes_the_canonical_string() {
    let base = canonical_query_text(&pairs(&[("a", "1"), ("b", "2")])).unwrap();
    let key_changed = canonical_query_text(&pairs(&[("a", "1"), ("c", "2")])).unwrap();
    let value_changed = canonical_query_text(&pairs(&[("a", "1"), ("b", "3")])).unwrap();
    assert_ne!(base, key_changed);
    assert_ne!(base, value_changed);
}

#[test]
fn split_pairs_do_not_collide() {
    // ("a", "1&b=2") must not canonicalize like ("a", "1") + ("b", "2").
    let joined = canonical_query_text(&pairs(&[("a", "1&b=2")])).unwrap();
    let split = canonical_query_text(&pairs(&[("a", "1"), ("b", "2")])).unwrap();
    assert_ne!(joined, split);
}

#[test]
fn distinct_parameter_sets_give_distinct_digests() {
    let one = canonical_query_bytes(&pairs(&[("a", "1"), ("b", "2")])).unwrap();
    let other = canonical_query_bytes(&pairs(&[("a", "1"), ("b", "3")])).unwrap();
    let same = canonical_query_bytes(&pairs(&[("a", "1"), ("b", "2")])).unwrap();
    let d1 = sha2::Sha512::digest(&one);
    let d2 = sha2::Sha512::digest(&other);
    let d3 = sha2::Sha512::digest(&same);
    assert_ne!(d1, d2);
    assert_eq!(d1, d3);
}
