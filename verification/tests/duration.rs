use activitystreams::xsd_duration::XsdDuration;

#[test]
fn parse_four_days() {
    let d = XsdDuration::parse("P4D").unwrap();
    assert_eq!(d, XsdDuration::new(4 * 86400));
}

#[test]
fn parse_negative_five_seconds() {
    let d = XsdDuration::parse("-PT5S").unwrap();
    assert_eq!(d.into_inner(), -5);
}

#[test]
fn parse_all_units() {
    let d = XsdDuration::parse("P1Y2M3DT4H5M6S").unwrap();
    let days = 365 + 62 + 3;
    assert_eq!(d.seconds, days * 86400 + 4 * 3600 + 5 * 60 + 6);
}

#[test]
fn parse_four_minutes_twenty() {
    let d = XsdDuration::parse("PT4M20S").unwrap();
    assert_eq!(d.seconds, 260);
}

#[test]
fn format_four_minutes_twenty() {
    assert_eq!(XsdDuration::new(260).format(), "PT4M20S");
}

#[test]
fn format_four_days() {
    assert_eq!(XsdDuration::new(4 * 86400).format(), "P4D");
}

#[test]
fn format_negative() {
    assert_eq!(XsdDuration::new(-5).format(), "-PT5S");
}

#[test]
fn format_zero() {
    assert_eq!(XsdDuration::new(0).format(), "P");
}

#[test]
fn format_emits_t_for_minutes_only() {
    // A whole number of days plus minutes: the time marker must appear.
    assert_eq!(XsdDuration::new(2 * 86400 + 7 * 60).format(), "P2DT7M");
}

#[test]
fn round_trip_is_idempotent() {
    let reps = [
        "P4D", "-P4D", "PT5S", "-PT5S", "P1Y", "P2M", "P1Y2M3D", "PT4H", "PT4H5M",
        "PT4H5M6S", "P3DT6S", "P1Y2M3DT4H5M6S", "-P1Y2M3DT4H5M6S", "P", "-P", "PT90M",
        "PT3661S", "P400D",
    ];
    for s in reps {
        let once = XsdDuration::parse(s).unwrap().format();
        let twice = XsdDuration::parse(&once).unwrap().format();
        assert_eq!(once, twice, "normalizing {s} twice changed the text");
    }
}

#[test]
fn parse_rejects_missing_marker() {
    assert!(XsdDuration::parse("4D").is_err());
    assert!(XsdDuration::parse("").is_err());
    assert!(XsdDuration::parse("-").is_err());
}

#[test]
fn parse_rejects_bad_component() {
    assert!(XsdDuration::parse("PxD").is_err());
    assert!(XsdDuration::parse("PD").is_err());
    assert!(XsdDuration::parse("P-4D").is_err());
}

#[test]
fn parse_rejects_component_overflow() {
    assert!(XsdDuration::parse("P99999999999999999999999999Y").is_err());
}

#[test]
fn parse_next_extracts_prefix() {
    let chars: Vec<char> = "12D".chars().collect();
    let (v, rest) = activitystreams::xsd_duration::parse_next(&chars, 'D').unwrap();
    assert_eq!(v, 12);
    assert!(rest.is_empty());
    let (v2, rest2) = activitystreams::xsd_duration::parse_next(&chars, 'Y').unwrap();
    assert_eq!(v2, 0);
    assert_eq!(rest2, chars);
}
