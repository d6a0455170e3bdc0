use activitystreams::xsd_datetime::XsdDateTime;

#[test]
fn parse_utc_instant() {
    let d = XsdDateTime::parse("2014-12-12T12:12:12Z").unwrap();
    // The parser must really interpret the text, not hand it back.
    assert_eq!(d.unix_timestamp_nanos(), 1_418_386_332_000_000_000);
    assert_eq!(d.utc_offset_seconds(), 0);
    assert_eq!(d.format(), "2014-12-12T12:12:12Z");
}

#[test]
fn parse_keeps_offset() {
    let d = XsdDateTime::parse("2014-12-12T12:12:12-05:00").unwrap();
    assert_eq!(d.utc_offset_seconds(), -5 * 3600);
    // Same instant as the UTC form, five hours later on the clock.
    assert_eq!(d.unix_timestamp_nanos(), 1_418_404_332_000_000_000);
    assert_eq!(d.format(), "2014-12-12T12:12:12-05:00");
}

#[test]
fn epoch_renders() {
    let d = XsdDateTime::new(0, 0).unwrap();
    assert_eq!(d.format(), "1970-01-01T00:00:00Z");
}

#[test]
fn parse_rejects_garbage() {
    assert!(XsdDateTime::parse("yesterday").is_err());
    assert!(XsdDateTime::parse("2014-12-12").is_err());
    assert!(XsdDateTime::parse("").is_err());
}

#[test]
fn new_rejects_unrenderable_instant() {
    // Far beyond year 9999: cannot be rendered as RFC 3339.
    assert!(XsdDateTime::new(300_000_000_000_000_000_000_000_000_000, 0).is_err());
}
