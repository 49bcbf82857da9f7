use nemcsv::civil::CivilDateTime;
use nemcsv::timegrid::Interval;
use nemcsv::timegrid::TimestampGenerator;
use nemcsv::timegrid::TimestampStrftime;

#[test]
fn test_timestamp_strftime_range_try_from_valid() {
    let valid_str = "20230101123045"; // YYYYMMDDHHMMSS format
    let result = TimestampStrftime::try_from(valid_str);
    assert!(result.is_ok());
    let timestamp = result.unwrap();
    assert_eq!(
        timestamp.to_string(),
        "TimestampStrftimeRange (20230101123045)"
    );
}

#[test]
fn test_timestamp_strftime_range_try_from_invalid() {
    let invalid_str = "not a timestamp";
    let result = TimestampStrftime::try_from(invalid_str);
    assert!(result.is_err());
}

#[test]
fn test_interval_seconds_five_minutes() {
    let interval = Interval::FiveMinutes;
    let seconds = interval.seconds();
    assert_eq!(seconds, 5 * 60);
}

#[test]
fn test_interval_seconds_thirty_minutes() {
    let interval = Interval::ThirtyMinutes;
    let seconds = interval.seconds();
    assert_eq!(seconds, 30 * 60);
}

#[test]
fn test_adjust_start_date() {
    // 3 minutes past the hour
    let start_date = CivilDateTime { year: 2023, month: 4, day: 1, hour: 0, minute: 3, second: 0 };
    let end_date = CivilDateTime { year: 2023, month: 4, day: 1, hour: 1, minute: 3, second: 0 };
    let mut generator = TimestampGenerator::new(start_date, end_date, Interval::FiveMinutes);

    generator.adjust_start_date();

    assert_eq!(generator.start_date.minute(), 0);
    assert_eq!(generator.start_date.second(), 0);
}

#[test]
fn test_adjust_end_date() {
    let start_date = CivilDateTime { year: 2023, month: 4, day: 1, hour: 0, minute: 0, second: 0 };
    let end_date = CivilDateTime { year: 2023, month: 4, day: 1, hour: 0, minute: 58, second: 0 };
    let mut generator = TimestampGenerator::new(start_date, end_date, Interval::FiveMinutes);

    generator.adjust_end_date();

    // The end date should be adjusted to the next 5-minute interval
    assert_eq!(generator.end_date.minute(), 0);
    assert_eq!(generator.end_date.hour(), 1);
}

#[test]
fn generate_steps_through_the_grid() {
    let start_date = CivilDateTime { year: 2023, month: 1, day: 1, hour: 0, minute: 0, second: 0 };
    let end_date = CivilDateTime { year: 2023, month: 1, day: 1, hour: 0, minute: 10, second: 0 };
    let generator = TimestampGenerator::new(start_date, end_date, Interval::FiveMinutes);
    let stamps = generator.generate();
    assert_eq!(stamps.len(), 3);
    assert_eq!(stamps[0].to_string(), "TimestampStrftimeRange (20230101000000)");
    assert_eq!(stamps[1].to_string(), "TimestampStrftimeRange (20230101000500)");
    assert_eq!(stamps[2].to_string(), "TimestampStrftimeRange (20230101001000)");
}

#[test]
fn generate_crosses_midnight() {
    let start_date = CivilDateTime { year: 2023, month: 2, day: 28, hour: 23, minute: 55, second: 0 };
    let end_date = CivilDateTime { year: 2023, month: 3, day: 1, hour: 0, minute: 0, second: 0 };
    let generator = TimestampGenerator::new(start_date, end_date, Interval::FiveMinutes);
    let stamps = generator.generate();
    assert_eq!(stamps.len(), 2);
    assert_eq!(stamps[0].to_string(), "TimestampStrftimeRange (20230228235500)");
    assert_eq!(stamps[1].to_string(), "TimestampStrftimeRange (20230301000000)");
}
