//! A verified parser for the timestamp format the API uses:
//! `YYYY-MM-DDTHH:MM:SS` followed by a `+HH:MM` / `-HH:MM` offset
//! (the colon may be absent). Dates are held as plain calendar fields
//! with the offset in minutes; nothing here consults a time zone
//! database or the clock.

use vstd::prelude::*;
use vstd::utf8::encode_utf8;

verus! {

/// A calendar timestamp with a fixed offset from UTC.
#[derive(Debug, Clone, Copy, PartialEq, Eq, Structural)]
pub struct DateTimeValue {
    pub year: u16,
    /// 1 to 12.
    pub month: u8,
    /// 1 to 31.
    pub day: u8,
    /// 0 to 23.
    pub hour: u8,
    /// 0 to 59.
    pub minute: u8,
    /// 0 to 59.
    pub second: u8,
    /// Offset from UTC in minutes; negative west of Greenwich.
    pub offset_minutes: i16,
}

/// An ASCII decimal digit.
pub open spec fn spec_is_digit(b: u8) -> bool {
    0x30 <= b <= 0x39
}

/// The value of an ASCII decimal digit.
pub open spec fn spec_digit(b: u8) -> int {
    b - 0x30
}

/// The value of two ASCII decimal digits.
pub open spec fn spec_two_digits(a: u8, b: u8) -> int {
    spec_digit(a) * 10 + spec_digit(b)
}

/// The timestamp grammar: date, `T`, time, then a signed offset with or
/// without a colon, every coded field within its calendar range.
pub open spec fn spec_datetime_wellformed(s: Seq<u8>) -> bool {
    &&& (s.len() == 24 || s.len() == 25)
    &&& spec_is_digit(s[0]) && spec_is_digit(s[1]) && spec_is_digit(s[2]) && spec_is_digit(s[3])
    &&& s[4] == 0x2d  // -
    &&& spec_is_digit(s[5]) && spec_is_digit(s[6])
    &&& s[7] == 0x2d  // -
    &&& spec_is_digit(s[8]) && spec_is_digit(s[9])
    &&& s[10] == 0x54  // T
    &&& spec_is_digit(s[11]) && spec_is_digit(s[12])
    &&& s[13] == 0x3a  // :
    &&& spec_is_digit(s[14]) && spec_is_digit(s[15])
    &&& s[16] == 0x3a  // :
    &&& spec_is_digit(s[17]) && spec_is_digit(s[18])
    &&& (s[19] == 0x2b || s[19] == 0x2d)  // + or -
    &&& spec_is_digit(s[20]) && spec_is_digit(s[21])
    &&& (if s.len() == 25 {
        s[22] == 0x3a && spec_is_digit(s[23]) && spec_is_digit(s[24])
    } else {
        spec_is_digit(s[22]) && spec_is_digit(s[23])
    })
    &&& 1 <= spec_two_digits(s[5], s[6]) <= 12
    &&& 1 <= spec_two_digits(s[8], s[9]) <= 31
    &&& spec_two_digits(s[11], s[12]) <= 23
    &&& spec_two_digits(s[14], s[15]) <= 59
    &&& spec_two_digits(s[17], s[18]) <= 59
    &&& spec_two_digits(s[20], s[21]) <= 23
    &&& (if s.len() == 25 {
        spec_two_digits(s[23], s[24]) <= 59
    } else {
        spec_two_digits(s[22], s[23]) <= 59
    })
}

/// The fields a well-formed timestamp encodes.
pub open spec fn spec_datetime_value(s: Seq<u8>) -> DateTimeValue {
    let year = spec_digit(s[0]) * 1000 + spec_digit(s[1]) * 100 + spec_two_digits(s[2], s[3]);
    let off_hh = spec_two_digits(s[20], s[21]);
    let off_mm = if s.len() == 25 {
        spec_two_digits(s[23], s[24])
    } else {
        spec_two_digits(s[22], s[23])
    };
    let magnitude = off_hh * 60 + off_mm;
    DateTimeValue {
        year: year as u16,
        month: spec_two_digits(s[5], s[6]) as u8,
        day: spec_two_digits(s[8], s[9]) as u8,
        hour: spec_two_digits(s[11], s[12]) as u8,
        minute: spec_two_digits(s[14], s[15]) as u8,
        second: spec_two_digits(s[17], s[18]) as u8,
        offset_minutes: if s[19] == 0x2b {
            magnitude as i16
        } else {
            (-magnitude) as i16
        },
    }
}

/// Reads two ASCII digits as a number.
fn two_digits(a: u8, b: u8) -> (r: u8)
    requires
        spec_is_digit(a),
        spec_is_digit(b),
    ensures
        r == spec_two_digits(a, b),
{
    (a - 0x30) * 10 + (b - 0x30)
}

/// Whether a byte is an ASCII decimal digit.
fn is_digit(b: u8) -> (r: bool)
    ensures
        r == spec_is_digit(b),
{
    0x30 <= b && b <= 0x39
}

/// Parses a timestamp. Succeeds exactly on well-formed input, and the
/// fields are exactly the encoded ones; nothing defaults.
pub fn parse_datetime(s: &str) -> (r: Option<DateTimeValue>)
    ensures
        r is Some <==> spec_datetime_wellformed(encode_utf8(s@)),
        r matches Some(v) ==> v == spec_datetime_value(encode_utf8(s@)),
{
    let b = s.as_bytes();
    let n = b.len();
    if n != 24 && n != 25 {
        return None;
    }
    let digits_ok = is_digit(b[0]) && is_digit(b[1]) && is_digit(b[2]) && is_digit(b[3])
        && is_digit(b[5]) && is_digit(b[6]) && is_digit(b[8]) && is_digit(b[9]) && is_digit(b[11])
        && is_digit(b[12]) && is_digit(b[14]) && is_digit(b[15]) && is_digit(b[17]) && is_digit(
        b[18],
    ) && is_digit(b[20]) && is_digit(b[21]);
    let seps_ok = b[4] == 0x2d && b[7] == 0x2d && b[10] == 0x54 && b[13] == 0x3a && b[16] == 0x3a
        && (b[19] == 0x2b || b[19] == 0x2d);
    let tail_ok = if n == 25 {
        b[22] == 0x3a && is_digit(b[23]) && is_digit(b[24])
    } else {
        is_digit(b[22]) && is_digit(b[23])
    };
    if !(digits_ok && seps_ok && tail_ok) {
        return None;
    }
    let month = two_digits(b[5], b[6]);
    let day = two_digits(b[8], b[9]);
    let hour = two_digits(b[11], b[12]);
    let minute = two_digits(b[14], b[15]);
    let second = two_digits(b[17], b[18]);
    let off_hh = two_digits(b[20], b[21]);
    let off_mm = if n == 25 {
        two_digits(b[23], b[24])
    } else {
        two_digits(b[22], b[23])
    };
    if !(1 <= month && month <= 12 && 1 <= day && day <= 31 && hour <= 23 && minute <= 59
        && second <= 59 && off_hh <= 23 && off_mm <= 59) {
        return None;
    }
    let year: u16 = (b[0] - 0x30) as u16 * 1000 + (b[1] - 0x30) as u16 * 100 + two_digits(
        b[2],
        b[3],
    ) as u16;
    let magnitude: i16 = off_hh as i16 * 60 + off_mm as i16;
    let offset_minutes: i16 = if b[19] == 0x2b {
        magnitude
    } else {
        -magnitude
    };
    Some(DateTimeValue { year, month, day, hour, minute, second, offset_minutes })
}

} // verus!
