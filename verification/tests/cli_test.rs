use n_m3u8_re_rust::commandline::parser::{
    duration_in_range, parse_duration, parse_header, parse_speed, parse_speed_upper, DurationError,
    SpeedError,
};

#[test]
fn durations() {
    assert_eq!(parse_duration("01:02:03"), Ok(3723));
    assert_eq!(parse_duration("0:0:0"), Ok(0));
    assert_eq!(parse_duration("+1:+0:05"), Ok(3605));
    assert_eq!(parse_duration("100:00:00"), Ok(360000));
    assert_eq!(parse_duration("1:2"), Err(DurationError::InvalidFormat));
    assert_eq!(parse_duration("1:2:3:4"), Err(DurationError::InvalidFormat));
    assert_eq!(parse_duration("x:00:00"), Err(DurationError::InvalidHours));
    assert_eq!(parse_duration("1:-2:00"), Err(DurationError::InvalidMinutes));
    assert_eq!(parse_duration("1:2: 3"), Err(DurationError::InvalidSeconds));
    assert_eq!(parse_duration("1:2:"), Err(DurationError::InvalidSeconds));
    assert_eq!(DurationError::InvalidHours.message(), "Invalid hours");
}

#[test]
fn duration_range() {
    assert!(duration_in_range("01:02:03"));
    assert!(duration_in_range("nonsense"));
    assert!(!duration_in_range("18446744073709551615:00:00"));
    assert!(duration_in_range("0:0:18446744073709551615"));
    assert!(!duration_in_range("0:1:18446744073709551615"));
}

#[test]
fn speeds() {
    let s = parse_speed("15M").unwrap();
    assert_eq!((s.value.as_str(), s.multiplier), ("15", 1000000));
    let s = parse_speed(" 800k ").unwrap();
    assert_eq!((s.value.as_str(), s.multiplier), ("800", 1000));
    let s = parse_speed("1.5mm").unwrap();
    assert_eq!((s.value.as_str(), s.multiplier), ("1.5", 1000000));
    assert_eq!(parse_speed("10").unwrap_err(), SpeedError::InvalidFormat);
    assert_eq!(parse_speed("abcM").unwrap_err(), SpeedError::InvalidValue);
    assert_eq!(parse_speed("M").unwrap_err(), SpeedError::InvalidValue);
    assert_eq!(SpeedError::InvalidFormat.message(), "Invalid speed format");
}

#[test]
fn speed_from_uppercase_text() {
    let t: Vec<char> = "2E3K".chars().collect();
    let s = parse_speed_upper(&t).unwrap();
    assert_eq!((s.value.as_str(), s.multiplier), ("2E3", 1000));
    let t: Vec<char> = "2m".chars().collect();
    assert_eq!(parse_speed_upper(&t).unwrap_err(), SpeedError::InvalidFormat);
}

#[test]
fn headers() {
    assert_eq!(
        parse_header(" Referer :  https://a.example/x:y "),
        Some(("Referer".to_string(), "https://a.example/x:y".to_string()))
    );
    assert_eq!(parse_header("no colon"), None);
}
