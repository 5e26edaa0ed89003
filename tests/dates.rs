use rssbot::chrono_utils::{parse_datetime, Timestamp};

const OCT_02_1500: i64 = 1727881200;

#[test]
fn rfc2822_date_parses() {
    let t = parse_datetime("Wed, 02 Oct 2024 15:00:00 +0000").unwrap();
    assert_eq!(t, Timestamp { secs: OCT_02_1500, nanos: 0 });
}

#[test]
fn rfc3339_date_parses() {
    let t = parse_datetime("2024-10-02T15:00:00Z").unwrap();
    assert_eq!(t, Timestamp { secs: OCT_02_1500, nanos: 0 });
}

#[test]
fn plain_pattern_date_parses() {
    let t = parse_datetime("2024-10-02 15:00:00").unwrap();
    assert_eq!(t, Timestamp { secs: OCT_02_1500, nanos: 0 });
}

#[test]
fn fractional_pattern_date_parses() {
    let t = parse_datetime("2024-10-02 15:00:00.250").unwrap();
    assert_eq!(t, Timestamp { secs: OCT_02_1500, nanos: 250_000_000 });
}

#[test]
fn all_formats_denote_the_same_second() {
    let inputs = [
        "Wed, 02 Oct 2024 15:00:00 +0000",
        "2024-10-02T15:00:00Z",
        "2024-10-02 15:00:00",
        "2024-10-02 15:00:00.250",
    ];
    for s in inputs {
        assert_eq!(parse_datetime(s).unwrap().secs, OCT_02_1500, "{}", s);
    }
}

#[test]
fn offsets_are_normalised_to_utc() {
    let t = parse_datetime("Wed, 02 Oct 2024 17:00:00 +0200").unwrap();
    assert_eq!(t, Timestamp { secs: OCT_02_1500, nanos: 0 });
    let u = parse_datetime("2024-10-02T10:00:00-05:00").unwrap();
    assert_eq!(u, Timestamp { secs: OCT_02_1500, nanos: 0 });
}

#[test]
fn not_a_date_fails_to_parse() {
    assert_eq!(parse_datetime("not-a-date"), None);
    assert_eq!(parse_datetime(""), None);
}

#[test]
fn timestamp_order_and_max() {
    let a = Timestamp { secs: 10, nanos: 5 };
    let b = Timestamp { secs: 10, nanos: 6 };
    let c = Timestamp { secs: 9, nanos: 999 };
    assert!(b.is_after(&a));
    assert!(!a.is_after(&b));
    assert!(!a.is_after(&a));
    assert!(a.is_after(&c));
    assert_eq!(a.max(b), b);
    assert_eq!(c.max(a), a);
}
