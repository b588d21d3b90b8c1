use driad::version::{ParseVersionError, Version};

#[test]
fn round_trip_simple() {
    let v = Version::new(1, 2, 3);
    assert_eq!(Version::parse(&v.to_string()).unwrap(), Version::new(1, 2, 3));
}

#[test]
fn round_trip_zero() {
    let v = Version::new(0, 0, 0);
    assert_eq!(v.to_string(), "0.0.0");
    assert_eq!(Version::parse(&v.to_string()).unwrap(), Version::new(0, 0, 0));
}

#[test]
fn round_trip_extremes() {
    let v = Version::new(u32::MAX, 0, 907);
    let text = v.to_string();
    assert_eq!(text, "4294967295.0.907");
    assert_eq!(Version::parse(&text).unwrap(), v);
}

#[test]
fn round_trip_many() {
    let samples = [
        (0, 1, 2),
        (10, 20, 30),
        (100, 0, 99),
        (65535, 65536, 12345678),
        (u32::MAX, u32::MAX, u32::MAX),
    ];
    for (a, b, c) in samples {
        let v = Version::new(a, b, c);
        assert_eq!(Version::parse(&v.to_string()).unwrap(), Version::new(a, b, c));
    }
}

#[test]
fn renders_dotted_triple() {
    assert_eq!(Version::new(1, 3, 104).to_string(), "1.3.104");
}

#[test]
fn parse_plain() {
    assert_eq!(Version::parse("1.3.104").unwrap(), Version::new(1, 3, 104));
}

#[test]
fn parse_accepts_standard_integer_forms() {
    // Standard integer parsing takes a leading plus and leading zeros.
    assert_eq!(Version::parse("+1.2.3").unwrap(), Version::new(1, 2, 3));
    assert_eq!(Version::parse("01.002.0003").unwrap(), Version::new(1, 2, 3));
}

#[test]
fn parse_rejects_two_segments() {
    assert_eq!(Version::parse("1.2"), Err(ParseVersionError::WrongLength));
}

#[test]
fn parse_rejects_four_segments() {
    assert_eq!(Version::parse("1.2.3.4"), Err(ParseVersionError::WrongLength));
}

#[test]
fn parse_rejects_non_numeric_segment() {
    assert_eq!(Version::parse("1.x.3"), Err(ParseVersionError::ParseIntError));
}

#[test]
fn parse_rejects_empty() {
    assert_eq!(Version::parse(""), Err(ParseVersionError::WrongLength));
}

#[test]
fn parse_rejects_empty_segment() {
    assert_eq!(Version::parse("1..3"), Err(ParseVersionError::ParseIntError));
    assert_eq!(Version::parse(".2.3"), Err(ParseVersionError::ParseIntError));
    assert_eq!(Version::parse("1.2."), Err(ParseVersionError::ParseIntError));
}

#[test]
fn parse_rejects_overflow() {
    assert_eq!(Version::parse("4294967296.0.0"), Err(ParseVersionError::ParseIntError));
    assert_eq!(Version::parse("0.99999999999999999999.0"), Err(ParseVersionError::ParseIntError));
}

#[test]
fn parse_rejects_spaces_and_signs() {
    assert_eq!(Version::parse(" 1.2.3"), Err(ParseVersionError::ParseIntError));
    assert_eq!(Version::parse("1.2.3 "), Err(ParseVersionError::ParseIntError));
    assert_eq!(Version::parse("-1.2.3"), Err(ParseVersionError::ParseIntError));
}

#[test]
fn parse_boundary_value() {
    assert_eq!(
        Version::parse("4294967295.0.1").unwrap(),
        Version::new(4294967295, 0, 1)
    );
}
