//! The device's date-time as plain calendar fields, and its fixed 8-byte
//! wire encoding. The driver never interprets the values beyond their
//! ranges; converting to and from the host's clock is the caller's work.

use vstd::prelude::*;
use crate::error::Error;

verus! {

/// A calendar timestamp as the device stores it.
#[derive(Debug, Clone, Copy, PartialEq, Eq, Structural)]
pub struct DateTime {
    pub year: u16,
    /// 1 through 12.
    pub month: u8,
    /// 1 through 31.
    pub day: u8,
    /// 1 (Monday) through 7 (Sunday).
    pub weekday: u8,
    pub hour: u8,
    pub minute: u8,
    pub second: u8,
}

/// Every field within its calendar range.
pub open spec fn spec_datetime_valid(d: DateTime) -> bool {
    &&& 1 <= d.month <= 12
    &&& 1 <= d.day <= 31
    &&& 1 <= d.weekday <= 7
    &&& d.hour <= 23
    &&& d.minute <= 59
    &&& d.second <= 59
}

/// The 8-byte wire form: weekday, hour, minute, second, then the year in
/// two big-endian bytes, month and day.
pub open spec fn spec_datetime_encode(d: DateTime) -> Seq<u8> {
    seq![
        d.weekday,
        d.hour,
        d.minute,
        d.second,
        (d.year / 0x100) as u8,
        (d.year % 0x100) as u8,
        d.month,
        d.day,
    ]
}

pub open spec fn spec_datetime_decode(b: Seq<u8>) -> Result<DateTime, Error>
    recommends
        b.len() >= 8,
{
    let d = DateTime {
        year: (b[4] * 0x100 + b[5]) as u16,
        month: b[6],
        day: b[7],
        weekday: b[0],
        hour: b[1],
        minute: b[2],
        second: b[3],
    };
    if spec_datetime_valid(d) {
        Ok(d)
    } else {
        Err(Error::Domain)
    }
}

pub fn datetime_valid(d: &DateTime) -> (r: bool)
    ensures
        r == spec_datetime_valid(*d),
{
    1 <= d.month && d.month <= 12 && 1 <= d.day && d.day <= 31 && 1 <= d.weekday && d.weekday <= 7
        && d.hour <= 23 && d.minute <= 59 && d.second <= 59
}

/// Encodes a timestamp into its 8-byte wire form.
pub fn vec_from_datetime(d: &DateTime) -> (r: Vec<u8>)
    ensures
        r@ == spec_datetime_encode(*d),
{
    let mut r: Vec<u8> = Vec::new();
    r.push(d.weekday);
    r.push(d.hour);
    r.push(d.minute);
    r.push(d.second);
    r.push((d.year / 0x100) as u8);
    r.push((d.year % 0x100) as u8);
    r.push(d.month);
    r.push(d.day);
    proof {
        assert(r@ =~= spec_datetime_encode(*d));
    }
    r
}

/// Decodes an 8-byte reply into a timestamp, failing on any field outside
/// its calendar range.
pub fn datetime_from_vec(data: &[u8]) -> (r: Result<DateTime, Error>)
    ensures
        data@.len() >= 8 ==> r == spec_datetime_decode(data@),
        data@.len() < 8 ==> r == Err::<DateTime, Error>(Error::Protocol(0x74)),
{
    if data.len() < 8 {
        return Err(Error::Protocol(0x74));
    }
    let d = DateTime {
        year: (data[4] as u16) * 0x100 + (data[5] as u16),
        month: data[6],
        day: data[7],
        weekday: data[0],
        hour: data[1],
        minute: data[2],
        second: data[3],
    };
    if datetime_valid(&d) {
        Ok(d)
    } else {
        Err(Error::Domain)
    }
}

/// Decoding inverts encoding on every valid timestamp.
pub proof fn lemma_datetime_roundtrip(d: DateTime)
    requires
        spec_datetime_valid(d),
    ensures
        spec_datetime_decode(spec_datetime_encode(d)) == Ok::<DateTime, Error>(d),
{
    let b = spec_datetime_encode(d);
    assert(b[4] * 0x100 + b[5] == d.year);
}

} // verus!
