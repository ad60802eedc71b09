use hooky::watcher::{parse_interval, Errors, Interval, TimeUnit};
use std::time::Duration;

#[test]
fn test_good_parsing() {
    let interval = "500ms".parse::<Interval>();
    assert_eq!(interval, Ok(Interval::Check(Duration::from_millis(500))))
}

#[test]
fn test_bad_parsing() {
    let seconds = "500h".parse::<Interval>();
    assert_eq!(seconds, Err(Errors::InvalidParseError))
}

#[test]
fn test_no_expression() {
    let seconds = "500".parse::<Interval>();
    assert_eq!(seconds, Err(Errors::InvalidParseError))
}

#[test]
fn test_no_time() {
    let seconds = "s".parse::<Interval>();
    assert_eq!(seconds, Err(Errors::InvalidParseError))
}

#[test]
fn test_milli_seconds() {
    let seconds = "500ms".parse::<Interval>().unwrap();
    assert_eq!(seconds, Interval::Check(Duration::from_millis(500)))
}

#[test]
fn test_seconds() {
    let seconds = "30s".parse::<Interval>().unwrap();
    assert_eq!(seconds, Interval::Check(Duration::from_secs(30)))
}

#[test]
fn test_minutes() {
    let minutes = "2m".parse::<Interval>().unwrap();
    assert_eq!(minutes, Interval::Check(Duration::from_secs(120)))
}

#[test]
fn parse_interval_gives_amount_and_unit() {
    assert_eq!(parse_interval("500ms"), Ok((500, TimeUnit::Millis)));
    assert_eq!(parse_interval("30s"), Ok((30, TimeUnit::Seconds)));
    assert_eq!(parse_interval("2m"), Ok((2, TimeUnit::Minutes)));
    assert_eq!(parse_interval("0s"), Ok((0, TimeUnit::Seconds)));
}

#[test]
fn parse_interval_refuses_other_shapes() {
    assert_eq!(parse_interval(""), Err(Errors::InvalidParseError));
    assert_eq!(parse_interval("ms"), Err(Errors::InvalidParseError));
    assert_eq!(parse_interval("5 s"), Err(Errors::InvalidParseError));
    assert_eq!(parse_interval("5sm"), Err(Errors::InvalidParseError));
    assert_eq!(parse_interval("-5s"), Err(Errors::InvalidParseError));
}

#[test]
fn parse_interval_largest_amount() {
    assert_eq!(parse_interval("18446744073709551615ms"), Ok((u64::MAX, TimeUnit::Millis)));
    assert_eq!(parse_interval("18446744073709551616ms"), Err(Errors::InvalidParseError));
}

#[test]
fn minutes_that_overflow_are_refused() {
    assert_eq!(Interval::from_parts(u64::MAX / 60 + 1, TimeUnit::Minutes), None);
    assert_eq!(
        Interval::from_parts(u64::MAX / 60, TimeUnit::Minutes),
        Some(Interval::Check(Duration::from_secs(u64::MAX / 60 * 60)))
    );
    assert_eq!("307445734561825861m".parse::<Interval>(), Err(Errors::InvalidParseError));
}
