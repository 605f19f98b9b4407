use gpu_charts::utils::{
    bytes_to_uuid, exponential_backoff, parse_timestamp_micros, parse_timestamp_millis, uuid_to_bytes, Delay,
};

#[test]
fn test_timestamp_parsing() {
    let millis = 1609459200000u64; // 2021-01-01 00:00:00 UTC
    let (seconds, nanos) = parse_timestamp_millis(millis);
    assert_eq!(seconds, 1609459200);
    assert_eq!(nanos, 0);

    let millis_with_fraction = 1609459200123u64;
    let (seconds, nanos) = parse_timestamp_millis(millis_with_fraction);
    assert_eq!(seconds, 1609459200);
    assert_eq!(nanos, 123_000_000);
}

#[test]
fn utils_test_uuid_conversion() {
    let uuid_str = "550e8400-e29b-41d4-a716-446655440000";
    let bytes = uuid_to_bytes(uuid_str).unwrap();
    let uuid = bytes_to_uuid(&bytes);
    assert_eq!(uuid.to_string(), uuid_str);
}

#[test]
fn test_exponential_backoff() {
    let max = Delay::from_secs(60);

    assert_eq!(exponential_backoff(0, max), Delay::from_secs(1));
    assert_eq!(exponential_backoff(1, max), Delay::from_secs(2));
    assert_eq!(exponential_backoff(2, max), Delay::from_secs(4));
    assert_eq!(exponential_backoff(10, max), Delay::from_secs(60)); // capped at max
}

#[test]
fn backoff_exponent_stops_at_ten() {
    let max = Delay::from_secs(100_000);
    assert_eq!(exponential_backoff(10, max), Delay::from_secs(1024));
    assert_eq!(exponential_backoff(11, max), Delay::from_secs(1024));
    assert_eq!(exponential_backoff(u32::MAX, max), Delay::from_secs(1024));
}

#[test]
fn backoff_respects_sub_second_cap() {
    let max = Delay { secs: 0, nanos: 500_000_000 };
    assert_eq!(exponential_backoff(0, max), max);
    let max = Delay { secs: 2, nanos: 1 };
    assert_eq!(exponential_backoff(1, max), Delay::from_secs(2));
    assert_eq!(exponential_backoff(2, max), max);
}

#[test]
fn micro_timestamps_split_into_seconds_and_nanos() {
    assert_eq!(parse_timestamp_micros(1_609_459_200_123_456), (1_609_459_200, 123_456_000));
    assert_eq!(parse_timestamp_micros(999_999), (0, 999_999_000));
}

#[test]
fn seconds_wrap_to_thirty_two_bits() {
    // 2^32 seconds and 5 ms after the epoch.
    assert_eq!(parse_timestamp_millis(4_294_967_296_005), (0, 5_000_000));
    assert_eq!(parse_timestamp_millis(u64::MAX), (((u64::MAX / 1000) % (1u64 << 32)) as u32, 615_000_000));
}

#[test]
fn malformed_uuid_text_is_refused() {
    assert!(uuid_to_bytes("not-a-uuid").is_err());
    let bytes = uuid_to_bytes("6ba7b810-9dad-11d1-80b4-00c04fd430c8").unwrap();
    assert_eq!(bytes[0], 0x6b);
    assert_eq!(bytes[15], 0xc8);
}
