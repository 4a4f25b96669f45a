use spotify_backend::cache::{cache_stamps, cache_stamps_at, now_text, token_from_row, token_obtained_text, token_round_trip, CacheError};
use spotify_backend::time::{can_add_seconds, plus_seconds, UtcTime, MAX_TIMESTAMP, MIN_TIMESTAMP};
use spotify_backend::types::TokenResponse;

fn token(expires_in: i64, at: Option<UtcTime>) -> TokenResponse {
    TokenResponse {
        access_token: "a".to_string(),
        token_type: "Bearer".to_string(),
        expires_in,
        refresh_token: None,
        scope: String::new(),
        obtained_at: at,
    }
}

fn at(secs: i64, nanos: u32) -> UtcTime {
    UtcTime { secs, nanos }
}

#[test]
fn expiry_with_margin() {
    let t = token(3600, Some(at(1_000, 0)));
    assert!(t.can_check_expiry());
    assert!(!t.is_expired_at(at(1_000, 0)));
    assert!(!t.is_expired_at(at(4_539, 999_999_999)));
    assert!(t.is_expired_at(at(4_540, 0)));
    assert!(t.is_expired_at(at(9_999, 0)));
}

#[test]
fn expiry_keeps_nanoseconds() {
    let t = token(120, Some(at(0, 500)));
    assert!(!t.is_expired_at(at(60, 499)));
    assert!(t.is_expired_at(at(60, 500)));
}

#[test]
fn token_without_obtained_instant_is_expired() {
    let t = token(3600, None);
    assert!(t.can_check_expiry());
    assert!(t.is_expired_at(at(0, 0)));
    assert!(t.is_expired());
}

#[test]
fn short_token_expired_at_once() {
    let t = token(30, Some(at(100, 0)));
    assert!(t.is_expired_at(at(100, 0)));
}

#[test]
fn expiry_checks_that_would_panic() {
    assert!(!token(i64::MIN, Some(at(0, 0))).can_check_expiry());
    assert!(!token(i64::MAX, Some(at(0, 0))).can_check_expiry());
    assert!(!token(3600, Some(at(MAX_TIMESTAMP, 0))).can_check_expiry());
    assert!(token(60, Some(at(MAX_TIMESTAMP, 0))).can_check_expiry());
}

#[test]
fn plus_seconds_matches_chrono() {
    let cases = [(0i64, 0u32, 5i64), (1_700_000_000, 123, -86_400), (-100, 999_999_999, 3)];
    for (s, n, d) in cases {
        let t = at(s, n);
        assert!(can_add_seconds(t, d));
        let r = plus_seconds(t, d);
        let c = chrono::DateTime::from_timestamp(s, n).unwrap() + chrono::TimeDelta::seconds(d);
        assert_eq!((r.secs, r.nanos), (c.timestamp(), c.timestamp_subsec_nanos()));
    }
}

#[test]
fn plus_seconds_leaves_leap_second() {
    let leap = at(1_483_228_799, 1_500_000_000);
    let r = plus_seconds(leap, 1);
    assert_eq!((r.secs, r.nanos), (1_483_228_800, 500_000_000));
    let r = plus_seconds(leap, -1);
    assert_eq!((r.secs, r.nanos), (1_483_228_799, 500_000_000));
    let r = plus_seconds(leap, 0);
    assert_eq!((r.secs, r.nanos), (1_483_228_799, 1_500_000_000));
}

#[test]
fn range_limits() {
    assert!(at(MIN_TIMESTAMP, 0).is_wf());
    assert!(!at(MIN_TIMESTAMP - 1, 0).is_wf());
    assert!(!at(MAX_TIMESTAMP + 1, 0).is_wf());
    assert!(at(59, 1_000_000_000).is_wf());
    assert!(!at(58, 1_000_000_000).is_wf());
    assert!(at(-1, 1_500_000_000).is_wf());
    assert!(!can_add_seconds(at(MAX_TIMESTAMP, 0), 1));
    assert!(chrono::DateTime::from_timestamp(MAX_TIMESTAMP + 1, 0).is_none());
    assert!(chrono::DateTime::from_timestamp(MIN_TIMESTAMP, 0).is_some());
}

#[test]
fn token_rows() {
    let t = token_from_row(
        "acc".to_string(),
        "Bearer".to_string(),
        3600,
        Some("ref".to_string()),
        "s".to_string(),
        "2024-01-02T03:04:05+00:00",
    )
    .unwrap();
    assert_eq!(t.obtained_at, Some(at(1_704_164_645, 0)));
    assert_eq!(token_obtained_text(&t), "2024-01-02T03:04:05+00:00");
    let bad = token_from_row(String::new(), String::new(), 0, None, String::new(), "yesterday");
    assert_eq!(bad.unwrap_err(), CacheError::BadObtainedAt);
    let shifted = token_from_row(String::new(), String::new(), 0, None, String::new(), "2024-01-02T05:04:05+02:00").unwrap();
    assert_eq!(shifted.obtained_at, Some(at(1_704_164_645, 0)));
}

#[test]
fn cache_stamp_texts() {
    let (e, c) = cache_stamps_at(at(0, 0), 90);
    assert_eq!(e, "1970-01-01T00:01:30+00:00");
    assert_eq!(c, "1970-01-01T00:00:00+00:00");
    assert!(cache_stamps(3600).is_some());
    assert!(cache_stamps(i64::MAX).is_none());
    assert!(now_text().ends_with("+00:00"));
}

#[test]
fn token_rows_round_trip() {
    for t in [at(0, 0), at(1_700_000_000, 123_456_789), at(1_483_228_799, 1_250_000_000), at(-62_167_219_200, 5_000)] {
        let tok = token(3600, Some(t));
        let back = token_round_trip(tok.clone()).unwrap();
        assert_eq!(back.obtained_at, Some(t));
        assert_eq!(back.access_token, tok.access_token);
    }
}

#[test]
fn plus_seconds_near_the_edges() {
    let r = plus_seconds(at(MAX_TIMESTAMP - 10, 7), 10);
    assert_eq!((r.secs, r.nanos), (MAX_TIMESTAMP, 7));
    let r = plus_seconds(at(MIN_TIMESTAMP + 10, 7), -10);
    assert_eq!((r.secs, r.nanos), (MIN_TIMESTAMP, 7));
    assert!(chrono::DateTime::from_timestamp(MIN_TIMESTAMP - 1, 0).is_none());
    assert!(chrono::DateTime::from_timestamp(MAX_TIMESTAMP, 999_999_999).is_some());
}

#[test]
fn unstamped_token_reads_back_with_store_instant() {
    let back = token_round_trip(token(3600, None)).unwrap();
    let t = back.obtained_at.expect("stamped when stored");
    assert!(t.secs > 1_600_000_000);
    assert_eq!(back.expires_in, 3600);
}

use spotify_backend::cache::{cache_stamps_for, token_obtained_text_at, token_round_trip_at};

#[test]
fn cache_stamps_for_given_instant() {
    let (e, c) = cache_stamps_for(at(0, 0), 3600).unwrap();
    assert_eq!(e, "1970-01-01T01:00:00+00:00");
    assert_eq!(c, "1970-01-01T00:00:00+00:00");
    let (e, _) = cache_stamps_for(at(100, 5_000), -100).unwrap();
    assert_eq!(e, "1970-01-01T00:00:00.000005+00:00");
    assert!(cache_stamps_for(at(MAX_TIMESTAMP, 0), 1).is_none());
    assert!(cache_stamps_for(at(0, 0), i64::MAX).is_none());
}

#[test]
fn token_stored_at_given_instant() {
    let now = at(1_704_164_645, 0);
    assert_eq!(token_obtained_text_at(&token(3600, None), now), "2024-01-02T03:04:05+00:00");
    assert_eq!(token_obtained_text_at(&token(3600, Some(at(0, 0))), now), "1970-01-01T00:00:00+00:00");
    let back = token_round_trip_at(token(3600, None), now).unwrap();
    assert_eq!(back.obtained_at, Some(now));
    let back = token_round_trip_at(token(7, Some(at(5, 0))), now).unwrap();
    assert_eq!(back.obtained_at, Some(at(5, 0)));
    assert_eq!(back.expires_in, 7);
}
