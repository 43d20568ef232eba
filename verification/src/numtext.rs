//! Verified decimal rendering of the integers that go into query
//! parameters.

use vstd::prelude::*;
use crate::text::{ascii_to_string, spec_ascii_chars};

verus! {

/// The decimal digits of a non-negative integer, most significant first.
pub open spec fn spec_udec(n: nat) -> Seq<u8>
    decreases n,
{
    if n < 10 {
        seq![(0x30 + n) as u8]
    } else {
        spec_udec(n / 10) + seq![(0x30 + (n % 10)) as u8]
    }
}

/// The decimal rendering of an integer: a `-` sign when negative.
pub open spec fn spec_idec(n: int) -> Seq<u8> {
    if n < 0 {
        seq![0x2du8] + spec_udec((-n) as nat)
    } else {
        spec_udec(n as nat)
    }
}

/// Every byte of a decimal rendering is ASCII.
pub proof fn lemma_udec_ascii(n: nat)
    ensures
        forall|i: int| 0 <= i < spec_udec(n).len() ==> spec_udec(n)[i] < 128,
    decreases n,
{
    if n >= 10 {
        lemma_udec_ascii(n / 10);
        let e = spec_udec(n / 10);
        let d = seq![(0x30 + (n % 10)) as u8];
        assert(spec_udec(n) == e + d);
        assert forall|i: int| 0 <= i < spec_udec(n).len() implies spec_udec(n)[i] < 128 by {
            if i < e.len() {
                assert(spec_udec(n)[i] == e[i]);
            } else {
                assert(spec_udec(n)[i] == d[i - e.len()]);
            }
        }
    }
}

/// Every byte of a signed decimal rendering is ASCII.
pub proof fn lemma_idec_ascii(n: int)
    ensures
        forall|i: int| 0 <= i < spec_idec(n).len() ==> spec_idec(n)[i] < 128,
{
    if n < 0 {
        lemma_udec_ascii((-n) as nat);
        let d = spec_udec((-n) as nat);
        assert(spec_idec(n) == seq![0x2du8] + d);
        assert forall|i: int| 0 <= i < spec_idec(n).len() implies spec_idec(n)[i] < 128 by {
            if i == 0 {
                assert(spec_idec(n)[i] == 0x2du8);
            } else {
                assert(spec_idec(n)[i] == d[i - 1]);
            }
        }
    } else {
        lemma_udec_ascii(n as nat);
    }
}

/// The decimal text's characters encode back to the decimal bytes.
pub proof fn lemma_idec_chars_bytes(n: int)
    ensures
        vstd::utf8::encode_utf8(spec_ascii_chars(spec_idec(n))) == spec_idec(n),
{
    lemma_idec_ascii(n);
    crate::text::lemma_ascii_chars_bytes(spec_idec(n));
}

/// The decimal digits of a non-negative integer, as bytes.
fn u64_dec(n: u64) -> (r: Vec<u8>)
    ensures
        r@ == spec_udec(n as nat),
    decreases n,
{
    if n < 10 {
        let mut r: Vec<u8> = Vec::new();
        r.push(0x30 + n as u8);
        proof {
            assert(r@ =~= spec_udec(n as nat));
        }
        r
    } else {
        let mut r = u64_dec(n / 10);
        r.push(0x30 + (n % 10) as u8);
        proof {
            assert(r@ =~= spec_udec(n as nat));
        }
        r
    }
}

/// The decimal text of a non-negative integer.
pub fn u64_text(n: u64) -> (r: String)
    ensures
        r@ == spec_ascii_chars(spec_udec(n as nat)),
{
    let v = u64_dec(n);
    proof {
        lemma_udec_ascii(n as nat);
    }
    let r = ascii_to_string(v);
    proof {
        assert(r@ =~= spec_ascii_chars(spec_udec(n as nat)));
    }
    r
}

/// The decimal text of a signed integer.
pub fn i32_text(n: i32) -> (r: String)
    ensures
        r@ == spec_ascii_chars(spec_idec(n as int)),
{
    if n >= 0 {
        let r = u64_text(n as u64);
        proof {
            assert(r@ =~= spec_ascii_chars(spec_idec(n as int)));
        }
        r
    } else {
        let m: u64 = (-(n as i64)) as u64;
        let mut v: Vec<u8> = Vec::new();
        v.push(0x2d);
        let digits = u64_dec(m);
        v.extend_from_slice(digits.as_slice());
        proof {
            assert(v@ =~= spec_idec(n as int));
            lemma_udec_ascii(m as nat);
            assert(forall|i: int| 0 <= i < v@.len() ==> v@[i] < 128);
        }
        let r = ascii_to_string(v);
        proof {
            assert(r@ =~= spec_ascii_chars(spec_idec(n as int)));
        }
        r
    }
}

/// The wire text of a boolean.
pub fn bool_text(b: bool) -> (r: String)
    ensures
        b ==> r@ == "true"@,
        !b ==> r@ == "false"@,
{
    if b {
        "true".to_owned()
    } else {
        "false".to_owned()
    }
}

} // verus!
