//! Decoding of the fields that several device protocols share.

use vstd::prelude::*;

use crate::time::{lemma_from_civil_bounds, spec_from_civil, Timestamp};

verus! {

/// The 16-bit number whose high byte is `high` and whose low byte is `low`.
pub open spec fn spec_u16_from_bytes(high: u8, low: u8) -> u16 {
    (high as int * 256 + low as int) as u16
}

/// Joins two bytes into a 16-bit number, `high` being the more significant.
pub fn u16_from_bytes(high: u8, low: u8) -> (value: u16)
    ensures
        value == spec_u16_from_bytes(high, low),
        value as int == high as int * 256 + low as int,
        value / 256 == high,
        value % 256 == low,
{
    high as u16 * 256 + low as u16
}

/// Whether bit `n` of a flags byte is set, bit 0 being the least
/// significant.
pub open spec fn spec_flag(flags: u8, n: u8) -> bool {
    (flags >> n) & 1 == 1
}

/// Whether bit `n` of a flags byte is set.
pub fn flag(flags: u8, n: u8) -> (set: bool)
    requires
        n < 8,
    ensures
        set == spec_flag(flags, n),
{
    (flags >> n) & 1 == 1
}

/// The timestamp that a 7-byte date and time field spells: a year in two
/// bytes, then month, day, hour, minute and second in one byte each.
/// `le` tells whether the year's low byte comes first.
pub open spec fn spec_naive_date_time_from_bytes(bytes: Seq<u8>, le: bool) -> Option<Timestamp> {
    if bytes.len() < 7 {
        None
    } else {
        let year = if le {
            spec_u16_from_bytes(bytes[1], bytes[0])
        } else {
            spec_u16_from_bytes(bytes[0], bytes[1])
        };
        spec_from_civil(
            year as int,
            bytes[2] as int,
            bytes[3] as int,
            bytes[4] as int,
            bytes[5] as int,
            bytes[6] as int,
        )
    }
}

/// Reads a timestamp from 7 bytes that hold, in this order, year, month,
/// day, hour, minute and second, the year in 2 bytes with the high byte
/// first. `None` where there are fewer than 7 bytes or they name no second
/// of the calendar. Bytes after the seventh are not read.
pub fn naive_date_time_from_be_bytes(bytes: &[u8]) -> (t: Option<Timestamp>)
    ensures
        t == spec_naive_date_time_from_bytes(bytes@, false),
        t matches Some(x) ==> -0x1_0000_0000_0000 < x.secs < 0x1_0000_0000_0000,
{
    naive_date_time_from_bytes(bytes, false)
}

/// Reads a timestamp from 7 bytes that hold, in this order, year, month,
/// day, hour, minute and second, the year in 2 bytes with the low byte
/// first. `None` where there are fewer than 7 bytes or they name no second
/// of the calendar. Bytes after the seventh are not read.
pub fn naive_date_time_from_le_bytes(bytes: &[u8]) -> (t: Option<Timestamp>)
    ensures
        t == spec_naive_date_time_from_bytes(bytes@, true),
        t matches Some(x) ==> -0x1_0000_0000_0000 < x.secs < 0x1_0000_0000_0000,
{
    naive_date_time_from_bytes(bytes, true)
}

/// Reads a timestamp from a 7-byte date and time field; `le` tells whether
/// the year's low byte comes first.
pub fn naive_date_time_from_bytes(bytes: &[u8], le: bool) -> (t: Option<Timestamp>)
    ensures
        t == spec_naive_date_time_from_bytes(bytes@, le),
        t matches Some(x) ==> -0x1_0000_0000_0000 < x.secs < 0x1_0000_0000_0000,
{
    if bytes.len() < 7 {
        return None;
    }
    let year = if le {
        u16_from_bytes(bytes[1], bytes[0])
    } else {
        u16_from_bytes(bytes[0], bytes[1])
    };
    Timestamp::from_civil(year, bytes[2], bytes[3], bytes[4], bytes[5], bytes[6])
}

/// The two byte orders of the year differ by a swap of the first two bytes
/// and in nothing else.
pub proof fn lemma_byte_orders_differ_by_swap(bytes: Seq<u8>)
    requires
        bytes.len() >= 2,
    ensures
        spec_naive_date_time_from_bytes(bytes, true) == spec_naive_date_time_from_bytes(
            bytes.update(0, bytes[1]).update(1, bytes[0]),
            false,
        ),
{
}

/// A timestamp read from a date and time field lies between the year 0
/// and the year 65 536, and on a whole second.
pub proof fn lemma_decoded_timestamp_bounds(bytes: Seq<u8>, le: bool)
    requires
        spec_naive_date_time_from_bytes(bytes, le) is Some,
    ensures
        -62_200_000_000 < spec_naive_date_time_from_bytes(bytes, le).unwrap().secs
            < 2_010_000_000_000,
        spec_naive_date_time_from_bytes(bytes, le).unwrap().nanos == 0,
{
    let year = if le {
        spec_u16_from_bytes(bytes[1], bytes[0])
    } else {
        spec_u16_from_bytes(bytes[0], bytes[1])
    };
    lemma_from_civil_bounds(
        year as int,
        bytes[2] as int,
        bytes[3] as int,
        bytes[4] as int,
        bytes[5] as int,
        bytes[6] as int,
    );
}

} // verus!
