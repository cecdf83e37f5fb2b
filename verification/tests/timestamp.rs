use chrono::{DateTime, Datelike, Timelike};
use oplog::timestamp::{pack, timestamp_to_datetime, Timestamp};

#[test]
fn composite_decodes_to_seconds_and_nanoseconds() {
    let at = timestamp_to_datetime(1479419535 << 32);
    assert_eq!(at, Timestamp { seconds: 1479419535, nanoseconds: 0 });
    let at = timestamp_to_datetime((1479419535 << 32) | 999);
    assert_eq!(at, Timestamp { seconds: 1479419535, nanoseconds: 999_000_000 });
}

#[test]
fn zero_decodes_to_the_epoch() {
    assert_eq!(timestamp_to_datetime(0), Timestamp { seconds: 0, nanoseconds: 0 });
}

#[test]
fn ordinal_is_scaled_by_a_million() {
    assert_eq!(timestamp_to_datetime(1), Timestamp { seconds: 0, nanoseconds: 1_000_000 });
    assert_eq!(timestamp_to_datetime(4294), Timestamp { seconds: 0, nanoseconds: 4_294_000_000 });
}

#[test]
fn scaled_ordinal_is_cut_to_32_bits() {
    assert_eq!(timestamp_to_datetime(4295), Timestamp { seconds: 0, nanoseconds: 32704 });
    assert_eq!(
        timestamp_to_datetime(0xFFFF_FFFF),
        Timestamp { seconds: 0, nanoseconds: 4293967296 }
    );
}

#[test]
fn negative_composite_decodes_to_seconds_before_the_epoch() {
    assert_eq!(timestamp_to_datetime(-1), Timestamp { seconds: -1, nanoseconds: 4293967296 });
    assert_eq!(timestamp_to_datetime(-1 << 32), Timestamp { seconds: -1, nanoseconds: 0 });
    assert_eq!(
        timestamp_to_datetime(i64::MIN),
        Timestamp { seconds: -2147483648, nanoseconds: 0 }
    );
    assert_eq!(
        timestamp_to_datetime(i64::MAX),
        Timestamp { seconds: 2147483647, nanoseconds: 4293967296 }
    );
}

#[test]
fn round_trip_of_seconds_and_ordinal() {
    for seconds in [-2147483648i64, -86400, -1, 0, 1, 1479419535, 2147483647] {
        for ordinal in [0u32, 1, 2, 999, 1000, 4294] {
            let at = timestamp_to_datetime((seconds << 32) | ordinal as i64);
            assert_eq!(at.seconds, seconds);
            assert_eq!(at.nanoseconds as u64, ordinal as u64 * 1_000_000);
        }
    }
}

#[test]
fn halves_are_packed_high_and_low() {
    assert_eq!(pack(0, 0), 0);
    assert_eq!(pack(0, 1), 1);
    assert_eq!(pack(1, 0), 1 << 32);
    assert_eq!(pack(1479419535, 0), 1479419535 << 32);
    assert_eq!(pack(1479419535, 3), (1479419535 << 32) | 3);
    assert_eq!(pack(0x7FFF_FFFF, 0xFFFF_FFFF), i64::MAX);
}

#[test]
fn packed_seconds_with_the_top_bit_set_are_negative() {
    assert_eq!(pack(0x8000_0000, 0), i64::MIN);
    assert_eq!(pack(0xFFFF_FFFF, 0xFFFF_FFFF), -1);
    assert_eq!(pack(0xFFFF_FFFF, 0), -1 << 32);
}

#[test]
fn calendar_time_of_a_decoded_timestamp() {
    let at = timestamp_to_datetime(1479419535 << 32).to_naive_utc().unwrap();
    assert_eq!(at, DateTime::from_timestamp(1479419535, 0).unwrap().naive_utc());
    assert_eq!((at.year(), at.month(), at.day()), (2016, 11, 17));
    assert_eq!((at.hour(), at.minute(), at.second()), (21, 52, 15));
    assert_eq!(at.and_utc().timestamp(), 1479419535);
}

#[test]
fn calendar_time_keeps_the_nanoseconds() {
    let at = Timestamp { seconds: 1479419535, nanoseconds: 999_000_000 };
    let made = at.to_naive_utc().unwrap().and_utc();
    assert_eq!(made.timestamp(), 1479419535);
    assert_eq!(made.timestamp_subsec_nanos(), 999_000_000);
}

#[test]
fn calendar_time_before_the_epoch() {
    let at = Timestamp { seconds: -2147483648, nanoseconds: 0 };
    let made = at.to_naive_utc().unwrap();
    assert_eq!((made.year(), made.month(), made.day()), (1901, 12, 13));
    let at = Timestamp { seconds: 2147483647, nanoseconds: 0 };
    let made = at.to_naive_utc().unwrap();
    assert_eq!((made.year(), made.month(), made.day()), (2038, 1, 19));
}

#[test]
fn no_calendar_time_for_a_full_second_of_nanoseconds() {
    assert!(Timestamp { seconds: 0, nanoseconds: 999_999_999 }.to_naive_utc().is_some());
    assert!(Timestamp { seconds: 0, nanoseconds: 1_000_000_000 }.to_naive_utc().is_none());
    assert!(Timestamp { seconds: 58, nanoseconds: 1_000_000_000 }.to_naive_utc().is_none());
    assert!(Timestamp { seconds: 60, nanoseconds: 1_500_000_000 }.to_naive_utc().is_none());
    assert!(timestamp_to_datetime(1000).to_naive_utc().is_none());
    assert!(timestamp_to_datetime(999).to_naive_utc().is_some());
}

#[test]
fn leap_second_at_the_end_of_a_minute() {
    assert!(Timestamp { seconds: 59, nanoseconds: 1_000_000_000 }.to_naive_utc().is_some());
    assert!(Timestamp { seconds: 59, nanoseconds: 1_999_999_999 }.to_naive_utc().is_some());
    assert!(Timestamp { seconds: 59, nanoseconds: 2_000_000_000 }.to_naive_utc().is_none());
    assert!(Timestamp { seconds: 1479419579, nanoseconds: 1_000_000_000 }
        .to_naive_utc()
        .is_some());
    assert!(Timestamp { seconds: -1, nanoseconds: 1_500_000_000 }.to_naive_utc().is_some());
    assert!(Timestamp { seconds: -2, nanoseconds: 1_500_000_000 }.to_naive_utc().is_none());
    assert!(Timestamp { seconds: -61, nanoseconds: 1_500_000_000 }.to_naive_utc().is_some());
    assert!(Timestamp { seconds: -60, nanoseconds: 1_500_000_000 }.to_naive_utc().is_none());
}
