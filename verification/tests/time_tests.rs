use chat_relay::time::Timestamp;

#[test]
fn from_parts_keeps_the_parts() {
    let t = Timestamp::from_parts(1_700_000_000, 5).unwrap();
    assert_eq!(t.secs(), 1_700_000_000);
    assert_eq!(t.nanos(), 5);
}

#[test]
fn from_parts_refuses_too_many_nanoseconds() {
    assert!(Timestamp::from_parts(0, 2_000_000_000).is_none());
}

#[test]
fn from_parts_refuses_seconds_beyond_the_calendar() {
    assert!(Timestamp::from_parts(i64::MAX, 0).is_none());
    assert!(Timestamp::from_parts(i64::MIN, 0).is_none());
}

#[test]
fn from_parts_takes_a_leap_second_only_at_the_end_of_a_minute() {
    assert!(Timestamp::from_parts(59, 1_500_000_000).is_some());
    assert!(Timestamp::from_parts(58, 1_500_000_000).is_none());
}

#[test]
fn epoch_formats_as_rfc3339() {
    let t = Timestamp::from_parts(0, 0).unwrap();
    assert_eq!(t.to_rfc3339(), "1970-01-01T00:00:00+00:00");
}

#[test]
fn fraction_formats_as_rfc3339() {
    let t = Timestamp::from_parts(1_431_648_000, 250_000_000).unwrap();
    assert_eq!(t.to_rfc3339(), "2015-05-15T00:00:00.250+00:00");
}

#[test]
fn parse_reads_utc_text() {
    let t = Timestamp::parse("1970-01-01T00:00:01Z").unwrap();
    assert_eq!((t.secs(), t.nanos()), (1, 0));
}

#[test]
fn parse_moves_an_offset_to_utc() {
    let t = Timestamp::parse("1970-01-01T01:00:00.5+01:00").unwrap();
    assert_eq!((t.secs(), t.nanos()), (0, 500_000_000));
}

#[test]
fn parse_refuses_other_text() {
    assert!(Timestamp::parse("yesterday").is_none());
    assert!(Timestamp::parse("").is_none());
    assert!(Timestamp::parse("2015-05-15 00:00").is_none());
}

#[test]
fn parse_undoes_to_rfc3339() {
    let t = Timestamp::from_parts(1_700_000_123, 456_789_000).unwrap();
    assert_eq!(Timestamp::parse(&t.to_rfc3339()), Some(t));
}

#[test]
fn parse_or_now_takes_the_written_instant() {
    let t = Timestamp::parse_or_now("2015-05-15T00:00:00+00:00");
    assert_eq!((t.secs(), t.nanos()), (1_431_648_000, 0));
}

#[test]
fn parse_or_now_falls_back_to_the_clock() {
    let before = Timestamp::now();
    let t = Timestamp::parse_or_now("not a time");
    let after = Timestamp::now();
    assert!(before.secs() <= t.secs());
    assert!(t.secs() <= after.secs());
}

#[test]
fn now_is_after_2020() {
    let now = Timestamp::now();
    assert!(now.secs() > 1_577_836_800);
    assert!(now.nanos() < 1_000_000_000);
    assert!(Timestamp::from_parts(now.secs(), now.nanos()).is_some());
}
