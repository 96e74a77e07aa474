use a2a_rust::time::Timestamp;

fn at(secs: i64, nanos: u32) -> Timestamp {
    Timestamp::from_parts(secs, nanos).unwrap()
}

#[test]
fn epoch_is_written_in_utc() {
    assert_eq!(at(0, 0).to_rfc3339(), "1970-01-01T00:00:00Z");
    assert_eq!(at(1714564800, 0).to_rfc3339(), "2024-05-01T12:00:00Z");
}

#[test]
fn fraction_is_written_with_the_digits_it_needs() {
    assert_eq!(at(0, 500_000_000).to_rfc3339(), "1970-01-01T00:00:00.500Z");
    assert_eq!(at(0, 1).to_rfc3339(), "1970-01-01T00:00:00.000000001Z");
    assert_eq!(at(-1, 250_000).to_rfc3339(), "1969-12-31T23:59:59.000250Z");
}

#[test]
fn parts_are_kept() {
    let t = at(-5, 17);
    assert_eq!(t.secs(), -5);
    assert_eq!(t.nanos(), 17);
    assert_eq!(t, at(-5, 17));
    assert_ne!(t, at(-5, 18));
}

#[test]
fn instant_out_of_range_is_no_instant() {
    assert_eq!(Timestamp::from_parts(i64::MAX, 0), None);
    assert_eq!(Timestamp::from_parts(i64::MIN, 0), None);
    assert_eq!(Timestamp::from_parts(0, 2_000_000_000), None);
    assert_eq!(Timestamp::from_parts(0, 1_000_000_000), None);
}

#[test]
fn leap_second_is_an_instant() {
    let leap = at(59, 1_500_000_000);
    assert_eq!(leap.to_rfc3339(), "1970-01-01T00:00:60.500Z");
}

#[test]
fn text_is_read_and_brought_to_utc() {
    assert_eq!(Timestamp::parse_rfc3339("1970-01-01T00:00:01.5Z"), Some(at(1, 500_000_000)));
    assert_eq!(Timestamp::parse_rfc3339("2024-01-02T03:04:05+01:00"), Some(at(1704161045, 0)));
    assert_eq!(Timestamp::parse_rfc3339("2024-05-01T12:00:00Z"), Some(at(1714564800, 0)));
}

#[test]
fn text_that_is_no_instant_is_not_read() {
    assert_eq!(Timestamp::parse_rfc3339(""), None);
    assert_eq!(Timestamp::parse_rfc3339("yesterday"), None);
    assert_eq!(Timestamp::parse_rfc3339("2024-13-01T00:00:00Z"), None);
    assert_eq!(Timestamp::parse_rfc3339("2024-05-01T12:00:00"), None);
}

#[test]
fn written_instant_is_read_back() {
    for t in [at(0, 0), at(1_700_000_000, 123_456_789), at(-86_400, 999_999_999)] {
        let text = t.to_rfc3339();
        assert_eq!(Timestamp::parse_rfc3339(&text), Some(t));
        assert!(t.reads_back_exec());
    }
    assert!(Timestamp::now().reads_back_exec());
}

#[test]
fn now_is_after_2020_and_well_formed() {
    let a = Timestamp::now();
    let b = Timestamp::now();
    assert!(a.secs() > 1_577_836_800);
    assert!(a.nanos() < 1_000_000_000);
    assert!(b.nanos() < 1_000_000_000);
    assert!(b.secs() >= a.secs());
    assert_eq!(Timestamp::from_parts(a.secs(), a.nanos()), Some(a));
}
