//! Change-log timestamps.
//!
//! A record of the log carries a composite 64-bit timestamp: the high 32
//! bits count seconds since the Unix epoch, the low 32 bits are an ordinal
//! that orders the records written within one second.
//!
//! The ordinal is a counter, not a measure of time. Decoding nevertheless
//! scales it by one million and calls the result nanoseconds, as if the
//! ordinal counted milliseconds, and cuts the product to 32 bits. Consumers
//! of the log rely on the values that come out, so the arithmetic is fixed
//! bit for bit, also where the sub-second part that it gives is none that
//! a calendar time can have.

use chrono::{DateTime, NaiveDateTime};
use vstd::prelude::*;

verus! {

/// Two to the power of 32: the weight of the high half of a composite
/// timestamp.
pub const WORD: i64 = 0x1_0000_0000;

/// A calendar time: whole seconds since the Unix epoch, negative before
/// it, and the nanoseconds past that second.
#[derive(Clone, Copy, Debug, PartialEq, Eq, Structural)]
pub struct Timestamp {
    pub seconds: i64,
    pub nanoseconds: u32,
}

/// The seconds packed in the high half of a composite timestamp, read as
/// a signed number.
pub open spec fn composite_seconds(raw: i64) -> int {
    raw / WORD
}

/// The ordinal packed in the low half of a composite timestamp.
pub open spec fn composite_ordinal(raw: i64) -> int {
    (raw % WORD) as int
}

/// The nanoseconds that a composite timestamp decodes to: its ordinal
/// times one million, cut to 32 bits.
pub open spec fn composite_nanoseconds(raw: i64) -> int {
    (composite_ordinal(raw) * 1_000_000) % (WORD as int)
}

/// The calendar time that a composite timestamp decodes to.
pub open spec fn decoded_time(raw: i64) -> Timestamp {
    Timestamp {
        seconds: composite_seconds(raw) as i64,
        nanoseconds: composite_nanoseconds(raw) as u32,
    }
}

/// The number that a 32-bit word stands for when its top bit is read as a
/// sign.
pub open spec fn signed(word: u32) -> int {
    if word < 0x8000_0000 {
        word as int
    } else {
        word - WORD
    }
}

/// The composite timestamp with `time` as its high half and `increment`
/// as its low half.
pub open spec fn composite(time: u32, increment: u32) -> int {
    signed(time) * WORD + increment
}

/// Packs the two halves of a replication timestamp into its composite
/// form. A count of seconds with the top bit set comes out negative, as
/// it does when the eight bytes are read as one signed number.
pub fn pack(time: u32, increment: u32) -> (raw: i64)
    ensures
        raw == composite(time, increment),
        composite_seconds(raw) == signed(time),
        composite_ordinal(raw) == increment,
{
    let bits: u64 = ((time as u64) << 32) | (increment as u64);
    let raw: i64 = #[verifier::truncate] (bits as i64);
    assert(raw / 0x1_0000_0000 == signed(time) && raw % 0x1_0000_0000 == increment)
        by (bit_vector)
        requires
            bits == ((time as u64) << 32) | (increment as u64),
            raw == bits as i64,
    ;
    raw
}

/// Decodes a composite timestamp: the seconds are `timestamp >> 32`, with
/// the sign kept, and the nanoseconds are the low 32 bits times one
/// million, cut to 32 bits.
pub fn timestamp_to_datetime(timestamp: i64) -> (at: Timestamp)
    ensures
        at == decoded_time(timestamp),
        at.seconds == composite_seconds(timestamp),
        at.nanoseconds == composite_nanoseconds(timestamp),
        at.fits_composite(),
{
    let seconds: i64 = timestamp >> 32;
    let ordinal: i64 = timestamp & 0xFFFF_FFFF;
    assert(seconds == timestamp / 0x1_0000_0000 && ordinal == timestamp % 0x1_0000_0000
        && 0 <= ordinal <= 0xFFFF_FFFF) by (bit_vector)
        requires
            seconds == timestamp >> 32,
            ordinal == timestamp & 0xFFFF_FFFF,
    ;
    let scaled: i64 = ordinal * 1_000_000;
    let nanoseconds: u32 = #[verifier::truncate] (scaled as u32);
    assert(nanoseconds == scaled % 0x1_0000_0000) by (bit_vector)
        requires
            nanoseconds == scaled as u32,
            0 <= scaled,
    ;
    Timestamp { seconds, nanoseconds }
}

/// A composite timestamp put together as `(seconds << 32) | ordinal`
/// decodes to those seconds, and to the ordinal times one million as its
/// nanoseconds, as long as the seconds fit in the high half and the
/// product in 32 bits.
pub proof fn lemma_timestamp_round_trip(seconds: i64, ordinal: u32, raw: i64)
    requires
        -0x8000_0000 <= seconds < 0x8000_0000,
        ordinal * 1_000_000 < WORD,
        raw == (seconds << 32) | (ordinal as i64),
    ensures
        decoded_time(raw).seconds == seconds,
        decoded_time(raw).nanoseconds == ordinal * 1_000_000,
{
    assert(raw / 0x1_0000_0000 == seconds && raw % 0x1_0000_0000 == ordinal) by (bit_vector)
        requires
            -0x8000_0000 <= seconds < 0x8000_0000,
            raw == (seconds << 32) | (ordinal as i64),
    ;
}

/// The time that the two halves of a replication timestamp decode to,
/// said without the composite form: the seconds are the high half read
/// with its sign, the nanoseconds the low half times one million, cut to
/// 32 bits.
pub proof fn lemma_decoded_halves(time: u32, increment: u32)
    ensures
        decoded_time(composite(time, increment) as i64).seconds == signed(time),
        decoded_time(composite(time, increment) as i64).nanoseconds == (increment * 1_000_000)
            % (WORD as int),
        decoded_time(composite(time, increment) as i64).fits_composite(),
{
    let raw = composite(time, increment);
    assert(raw as i64 == raw);
    assert(raw / (WORD as int) == signed(time) && raw % (WORD as int) == increment);
}

/// `chrono::NaiveDateTime`: a date and a time of day without a time zone.
/// Nothing of what is inside a value is known here.
#[verifier::external_type_specification]
#[verifier::external_body]
pub struct ExNaiveDateTime(NaiveDateTime);

impl Timestamp {
    /// Whether the seconds fit in the high half of a composite timestamp.
    /// Every decoded time has such seconds.
    pub open spec fn fits_composite(&self) -> bool {
        -0x8000_0000 <= self.seconds < 0x8000_0000
    }

    /// Whether the sub-second part is one that a calendar time can have:
    /// less than a second, or less than two within the last second of a
    /// minute, where it stands for a leap second.
    pub open spec fn has_calendar_nanoseconds(&self) -> bool {
        self.nanoseconds < 1_000_000_000 || (self.nanoseconds < 2_000_000_000 && self.seconds % 60
            == 59)
    }

    /// This time as a `chrono` date and time of day in UTC. There is none
    /// where the sub-second part is none that a calendar time can have,
    /// which is so of a decoded time whose ordinal was 1000 or more and
    /// whose second does not end a minute.
    pub fn to_naive_utc(&self) -> (made: Option<NaiveDateTime>)
        ensures
            self.fits_composite() ==> (made is Some <==> self.has_calendar_nanoseconds()),
    {
        utc_from_timestamp(self.seconds, self.nanoseconds)
    }
}

/// `chrono::DateTime::from_timestamp`, whose result is handed on without
/// its time zone, which is UTC. Trusted: for seconds that fit in 32 bits,
/// all of which lie within the years that `chrono` can hold, it makes a
/// date and time exactly where the nanoseconds are below one thousand
/// million, or below two thousand million in a second that ends a minute.
/// Nothing is claimed of seconds beyond 32 bits.
#[verifier::external_body]
fn utc_from_timestamp(seconds: i64, nanoseconds: u32) -> (made: Option<NaiveDateTime>)
    ensures
        -0x8000_0000 <= seconds < 0x8000_0000 ==> (made is Some <==> (nanoseconds < 1_000_000_000
            || (nanoseconds < 2_000_000_000 && seconds % 60 == 59))),
{
    match DateTime::from_timestamp(seconds, nanoseconds) {
        Some(made) => Some(made.naive_utc()),
        None => None,
    }
}

} // verus!
