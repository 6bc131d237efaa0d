use ferrishare::timestamp::{expired_at, liveness_at};
use ferrishare::{has_expired, Liveness, StatusCode, Timestamp};

#[test]
fn parse_reads_seconds_and_nanoseconds() {
    assert_eq!(
        Timestamp::parse("2023-11-14T22:13:20+00:00"),
        Ok(Timestamp { secs: 1_700_000_000, nanos: 0 })
    );
    assert_eq!(
        Timestamp::parse("2023-11-14T22:13:20.25Z"),
        Ok(Timestamp { secs: 1_700_000_000, nanos: 250_000_000 })
    );
    assert_eq!(
        Timestamp::parse("2023-11-15T00:13:20+02:00"),
        Ok(Timestamp { secs: 1_700_000_000, nanos: 0 })
    );
}

#[test]
fn parse_rejects_what_is_no_timestamp() {
    assert!(Timestamp::parse("").is_err());
    assert!(Timestamp::parse("yesterday").is_err());
    assert!(Timestamp::parse("2023-11-14 22:13:20").is_err());
    assert!(Timestamp::parse("2023-13-14T22:13:20Z").is_err());
}

#[test]
fn text_of_an_instant() {
    assert_eq!(
        Timestamp::new(1_700_000_000, 0).to_rfc3339(),
        Some("2023-11-14T22:13:20+00:00".to_string())
    );
    assert_eq!(
        Timestamp::new(1_700_000_000, 5_000_000).to_rfc3339(),
        Some("2023-11-14T22:13:20.005+00:00".to_string())
    );
    assert_eq!(Timestamp::new(i64::MAX, 0).to_rfc3339(), None);
    assert_eq!(Timestamp::new(0, 2_000_000_000).to_rfc3339(), None);
}

#[test]
fn display_of_an_instant() {
    assert_eq!(
        Timestamp::new(1_700_000_000, 0).to_display(),
        Some("(Tue Nov 14 22:13:20 2023)".to_string())
    );
    assert_eq!(Timestamp::new(i64::MIN, 0).to_display(), None);
}

#[test]
fn text_round_trip() {
    let t = Timestamp::new(1_700_000_000, 123_456_789);
    let text = t.to_rfc3339().unwrap();
    assert_eq!(Timestamp::parse(&text), Ok(t));
}

#[test]
fn order_of_instants() {
    let a = Timestamp::new(10, 5);
    let b = Timestamp::new(10, 6);
    let c = Timestamp::new(11, 0);
    assert!(a.is_before(&b));
    assert!(b.is_before(&c));
    assert!(a.is_before(&c));
    assert!(!a.is_before(&a));
    assert!(!c.is_before(&a));
    assert!(Timestamp::new(-1, 999_999_999).is_before(&Timestamp::new(0, 0)));
}

#[test]
fn rounding_to_the_second() {
    assert_eq!(Timestamp::new(10, 499_999_999).round_to_second(), Some(Timestamp::new(10, 0)));
    assert_eq!(Timestamp::new(10, 500_000_000).round_to_second(), Some(Timestamp::new(11, 0)));
    assert_eq!(Timestamp::new(10, 0).round_to_second(), Some(Timestamp::new(10, 0)));
    assert_eq!(Timestamp::new(-5, 900_000_000).round_to_second(), Some(Timestamp::new(-4, 0)));
    assert_eq!(Timestamp::new(i64::MAX, 500_000_000).round_to_second(), None);
    assert_eq!(
        Timestamp::new(i64::MAX, 1).round_to_second(),
        Some(Timestamp::new(i64::MAX, 0))
    );
}

#[test]
fn adding_spans() {
    let t = Timestamp::new(1_000, 7);
    assert_eq!(t.checked_add_hours(1), Some(Timestamp::new(4_600, 7)));
    assert_eq!(t.checked_add_hours(24), Some(Timestamp::new(87_400, 7)));
    assert_eq!(t.checked_add_hours(168), Some(Timestamp::new(605_800, 7)));
    assert_eq!(t.checked_add_days(1), Some(Timestamp::new(87_400, 7)));
    assert_eq!(t.checked_add_days(30), Some(Timestamp::new(2_593_000, 7)));
    assert_eq!(t.checked_add_seconds(-1_001), Some(Timestamp::new(-1, 7)));
    assert_eq!(t.checked_add_seconds(i64::MAX), None);
    assert_eq!(t.checked_add_hours(i64::MAX), None);
    assert_eq!(t.checked_add_days(i64::MIN), None);
    assert_eq!(
        Timestamp::new(-3_600, 0).checked_add_hours(i64::MAX / 3600),
        Some(Timestamp::new(i64::MAX / 3600 * 3600 - 3600, 0))
    );
    assert_eq!(Timestamp::new(i64::MAX, 0).checked_add_hours(1), None);
}

#[test]
fn a_record_is_live_until_its_expiry_has_passed() {
    let expiry = Timestamp::new(1_700_000_000, 0);
    assert!(!expired_at(&expiry, &Timestamp::new(1_699_999_999, 999_999_999)));
    assert!(!expired_at(&expiry, &expiry));
    assert!(expired_at(&expiry, &Timestamp::new(1_700_000_000, 1)));
    assert!(expired_at(&expiry, &Timestamp::new(1_700_000_001, 0)));
}

#[test]
fn has_expired_reads_the_stored_text() {
    let text = "2023-11-14T22:13:20+00:00";
    assert_eq!(has_expired(text, &Timestamp::new(1_700_000_000, 0)).ok(), Some(false));
    assert_eq!(has_expired(text, &Timestamp::new(1_700_000_000, 1)).ok(), Some(true));
    assert_eq!(has_expired(text, &Timestamp::new(1_600_000_000, 0)).ok(), Some(false));
}

#[test]
fn has_expired_reports_a_corrupt_text() {
    let e = has_expired("not a timestamp", &Timestamp::new(0, 0)).unwrap_err();
    assert_eq!(e.status_code, StatusCode::INTERNAL_SERVER_ERROR);
    assert_eq!(e.message, Timestamp::parse("not a timestamp").unwrap_err());
    assert!(!e.message.is_empty());
}

#[test]
fn liveness_of_a_stored_text() {
    let text = "2023-11-14T22:13:20+00:00";
    assert_eq!(liveness_at(text, &Timestamp::new(1_700_000_000, 0)), Liveness::Live);
    assert_eq!(liveness_at(text, &Timestamp::new(1_700_000_100, 0)), Liveness::Expired);
    assert_eq!(liveness_at("", &Timestamp::new(1_700_000_100, 0)), Liveness::Corrupt);
}

#[test]
fn leap_second_keeps_its_place_in_the_order() {
    let leap = Timestamp::parse("2016-12-31T23:59:60Z").unwrap();
    assert_eq!(leap, Timestamp::new(1_483_228_799, 1_000_000_000));
    let before = Timestamp::parse("2016-12-31T23:59:59.5Z").unwrap();
    let after = Timestamp::parse("2017-01-01T00:00:00Z").unwrap();
    assert!(before.is_before(&leap));
    assert!(leap.is_before(&after));
    assert_eq!(leap.to_rfc3339(), Some("2016-12-31T23:59:60+00:00".to_string()));
}
