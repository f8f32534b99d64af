use crud_sqlite::timestamp::Timestamp;

#[test]
fn canonical_text_of_a_whole_second() {
    let at = Timestamp { secs: 1431648000, nanos: 0 };
    assert_eq!(at.to_rfc3339(), Some("2015-05-15T00:00:00+00:00".to_string()));
}

#[test]
fn canonical_text_keeps_fractions() {
    let at = Timestamp { secs: 1431648000, nanos: 500_000_000 };
    assert_eq!(at.to_rfc3339(), Some("2015-05-15T00:00:00.500+00:00".to_string()));
    let fine = Timestamp { secs: 0, nanos: 1 };
    assert_eq!(fine.to_rfc3339(), Some("1970-01-01T00:00:00.000000001+00:00".to_string()));
}

#[test]
fn instant_outside_the_calendar_has_no_text() {
    assert_eq!(Timestamp { secs: i64::MAX, nanos: 0 }.to_rfc3339(), None);
    assert_eq!(Timestamp { secs: 0, nanos: 2_000_000_000 }.to_rfc3339(), None);
}

#[test]
fn parse_reads_utc_text() {
    assert_eq!(
        Timestamp::parse("2015-05-15T00:00:00+00:00"),
        Some(Timestamp { secs: 1431648000, nanos: 0 })
    );
    assert_eq!(
        Timestamp::parse("2015-05-15T00:00:00Z"),
        Some(Timestamp { secs: 1431648000, nanos: 0 })
    );
}

#[test]
fn parse_moves_an_offset_to_utc() {
    assert_eq!(
        Timestamp::parse("1996-12-19T16:39:57-08:00"),
        Some(Timestamp { secs: 851042397, nanos: 0 })
    );
}

#[test]
fn parse_rejects_malformed_text() {
    assert_eq!(Timestamp::parse(""), None);
    assert_eq!(Timestamp::parse("yesterday"), None);
    assert_eq!(Timestamp::parse("2015-05-15 00:00:00"), None);
    assert_eq!(Timestamp::parse("2015-13-15T00:00:00Z"), None);
}

#[test]
fn text_reads_back_as_the_instant() {
    let instants = [
        Timestamp { secs: 0, nanos: 0 },
        Timestamp { secs: 1431648000, nanos: 123_456_789 },
        Timestamp { secs: -1, nanos: 999_999_999 },
        Timestamp { secs: 4_102_444_800, nanos: 250_000 },
    ];
    for at in instants {
        let text = at.to_rfc3339().unwrap();
        assert_eq!(Timestamp::parse(&text), Some(at));
    }
}

#[test]
fn stored_text_is_the_canonical_text() {
    let at = Timestamp { secs: 1431648000, nanos: 500_000_000 };
    assert_eq!(at.canonical_text(), Some("2015-05-15T00:00:00.500+00:00".to_string()));
    assert_eq!(at.canonical_text(), at.to_rfc3339());
    let last = Timestamp { secs: 253_402_300_799, nanos: 999_999_999 };
    assert_eq!(last.canonical_text(), Some("9999-12-31T23:59:59.999999999+00:00".to_string()));
    let first = Timestamp { secs: -62_167_219_200, nanos: 0 };
    assert_eq!(first.canonical_text(), Some("0000-01-01T00:00:00+00:00".to_string()));
}

#[test]
fn year_beyond_four_digits_has_no_stored_text() {
    let late = Timestamp { secs: 253_402_300_800, nanos: 0 };
    assert_eq!(late.to_rfc3339(), Some("+10000-01-01T00:00:00+00:00".to_string()));
    assert_eq!(Timestamp::parse("+10000-01-01T00:00:00+00:00"), None);
    assert_eq!(late.canonical_text(), None);
    let early = Timestamp { secs: -62_167_219_201, nanos: 0 };
    assert!(early.to_rfc3339().is_some());
    assert_eq!(early.canonical_text(), None);
    assert_eq!(Timestamp { secs: i64::MAX, nanos: 0 }.canonical_text(), None);
}

#[test]
fn leap_second_reads_back() {
    let leap = Timestamp { secs: 59, nanos: 1_500_000_000 };
    let text = leap.canonical_text().unwrap();
    assert_eq!(Timestamp::parse(&text), Some(leap));
}
