use nemcsv::numbers::parse_decimal;
use nemcsv::numbers::parse_opt_u32;
use nemcsv::numbers::parse_u32;
use nemcsv::numbers::Decimal;
use nemcsv::rows::classify_fields;
use nemcsv::rows::extract_identifier;
use nemcsv::rows::get_relevant_byte_slice;
use nemcsv::rows::split_fields;
use nemcsv::rows::RowKind;
use nemcsv::civil::deserialize_sydney_datetime_to_utc;
use nemcsv::civil::parse_slash_timestamp;
use nemcsv::civil::CivilDateTime;
use nemcsv::civil::TimestampFault;

#[test]
fn split_plain_fields() {
    let fields = split_fields("a,b,,d").unwrap();
    assert_eq!(fields, vec!["a", "b", "", "d"]);
}

#[test]
fn split_quoted_fields() {
    let fields = split_fields("a,\"b,c\",d").unwrap();
    assert_eq!(fields, vec!["a", "b,c", "d"]);
}

#[test]
fn split_escaped_quotes() {
    let fields = split_fields("a,\"x\"\"y\"").unwrap();
    assert_eq!(fields, vec!["a", "x\"y"]);
}

#[test]
fn split_empty_line_is_one_empty_field() {
    let fields = split_fields("").unwrap();
    assert_eq!(fields, vec![""]);
}

#[test]
fn split_rejects_unterminated_quote() {
    assert!(split_fields("a,\"bc").is_none());
}

#[test]
fn split_rejects_text_after_closing_quote() {
    assert!(split_fields("\"ab\"x,c").is_none());
}

#[test]
fn classify_by_first_field() {
    assert_eq!(classify_fields(&split_fields("C,x").unwrap()), RowKind::Control);
    assert_eq!(classify_fields(&split_fields("I,x").unwrap()), RowKind::Header);
    assert_eq!(classify_fields(&split_fields("D,x").unwrap()), RowKind::Data);
    assert_eq!(classify_fields(&split_fields("Z,x").unwrap()), RowKind::Ignore);
    assert_eq!(classify_fields(&split_fields("").unwrap()), RowKind::Ignore);
}

#[test]
fn extract_identifier_stops_at_fourth_comma() {
    assert_eq!(
        extract_identifier("I,TRADING,INTERCONNECTORRES,2,SETTLEMENTDATE,RUNNO"),
        "I,TRADING,INTERCONNECTORRES,2"
    );
    assert_eq!(extract_identifier("I,TRADING,PRICE"), "I,TRADING,PRICE");
}

#[test]
fn relevant_byte_slice_drops_tag_and_line_ending() {
    assert_eq!(
        get_relevant_byte_slice(b"D,ROOFTOP,ACTUAL,2,x,y\r\n"),
        b"x,y"
    );
    assert_eq!(get_relevant_byte_slice(b"D,ROOFTOP,ACTUAL,2,x,y\n"), b"x,y");
    assert_eq!(get_relevant_byte_slice(b"short,line\n"), b"short,line");
}

#[test]
fn parse_unsigned_fields() {
    assert_eq!(parse_u32("163"), Some(163));
    assert_eq!(parse_u32("+7"), Some(7));
    assert_eq!(parse_u32(""), None);
    assert_eq!(parse_u32("12x"), None);
    assert_eq!(parse_u32("4294967296"), None);
    assert_eq!(parse_opt_u32(""), Some(None));
    assert_eq!(parse_opt_u32("5"), Some(Some(5)));
    assert_eq!(parse_opt_u32("x"), None);
}

#[test]
fn parse_decimal_fields() {
    assert_eq!(
        parse_decimal("36.2"),
        Some(Decimal { negative: false, mantissa: 362, scale: 1 })
    );
    assert_eq!(
        parse_decimal("-63.45"),
        Some(Decimal { negative: true, mantissa: 6345, scale: 2 })
    );
    assert_eq!(
        parse_decimal("0"),
        Some(Decimal { negative: false, mantissa: 0, scale: 0 })
    );
    assert_eq!(parse_decimal("1."), None);
    assert_eq!(parse_decimal(".5"), None);
    assert_eq!(parse_decimal(""), None);
    assert_eq!(parse_decimal("99999999999999999999999"), None);
}

#[test]
fn parse_timestamp_pattern() {
    assert_eq!(
        parse_slash_timestamp("2024/03/03 19:30:00"),
        Some(CivilDateTime { year: 2024, month: 3, day: 3, hour: 19, minute: 30, second: 0 })
    );
    assert_eq!(
        parse_slash_timestamp("\"2024/03/03 19:30:00\""),
        Some(CivilDateTime { year: 2024, month: 3, day: 3, hour: 19, minute: 30, second: 0 })
    );
    assert_eq!(parse_slash_timestamp("2024-03-03 19:30:00"), None);
    assert_eq!(parse_slash_timestamp("2024/02/30 19:30:00"), None);
}

#[test]
fn sydney_local_time_converts_to_utc() {
    // AEDT is UTC+11 in March.
    let t = deserialize_sydney_datetime_to_utc("\"2024/03/03 19:30:00\"").unwrap();
    assert_eq!(t.epoch_seconds, 1709454600);
}

#[test]
fn malformed_timestamp_is_rejected() {
    assert_eq!(
        deserialize_sydney_datetime_to_utc("not a time"),
        Err(TimestampFault::MalformedTimestamp)
    );
}

#[test]
fn folded_local_time_is_ambiguous() {
    // Clocks go back on 2024-04-07 in Sydney: 02:30 happens twice.
    assert_eq!(
        deserialize_sydney_datetime_to_utc("2024/04/07 02:30:00"),
        Err(TimestampFault::AmbiguousLocalTime)
    );
    // Clocks go forward on 2024-10-06: 02:30 never happens.
    assert_eq!(
        deserialize_sydney_datetime_to_utc("2024/10/06 02:30:00"),
        Err(TimestampFault::AmbiguousLocalTime)
    );
}
