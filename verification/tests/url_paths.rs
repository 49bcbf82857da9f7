use nemcsv::civil::parse_compact12;
use nemcsv::reportpath::ParseError;
use nemcsv::reportpath::ParsedReport;
use nemcsv::reportpath::StringWrapper;
use nemcsv::reportpath::UniqueKey;
use nemcsv::reportpath::UrlPath;
use nemcsv::reportpath::ZipFileName;
use nemcsv::reportpath::ZipReportUrlParseError;
use nemcsv::reportpath::ZipReportUrlPath;

#[test]
fn url_test_parse_report_path() {
    let sample_href =
        "/Reports/Current/TradingIS_Reports/PUBLIC_TRADINGIS_202403120535_0000000413460134.zip";
    let expected = ZipReportUrlPath {
        url_path: UrlPath::from_str("/Reports/Current/TradingIS_Reports/").unwrap(),
        file_name: ZipFileName::from_str("PUBLIC_TRADINGIS_202403120535_0000000413460134.zip")
            .unwrap(),
        datetime: parse_compact12("202403120535").unwrap(),
        unique_key: UniqueKey::from_str("0000000413460134").unwrap(),
    };

    let result =
        ZipReportUrlPath::parse_report_path(sample_href).expect("Failed to parse report path");

    assert_eq!(result.url_path, expected.url_path);
    assert_eq!(result.file_name, expected.file_name);
    assert_eq!(result.datetime, expected.datetime);
    assert_eq!(result.unique_key, expected.unique_key);
}

#[test]
fn url_parse_test_parse_report_path() {
    let sample_href =
        "/Reports/Current/TradingIS_Reports/PUBLIC_TRADINGIS_202403120535_0000000413460134.zip";
    let expected = ParsedReport {
        url_path: StringWrapper::from_str("/Reports/Current/TradingIS_Reports/").unwrap(),
        file_name: StringWrapper::from_str("PUBLIC_TRADINGIS_202403120535_0000000413460134.zip")
            .unwrap(),
        datetime: parse_compact12("202403120535").unwrap(),
        unique_key: StringWrapper::from_str("0000000413460134").unwrap(),
    };

    let result =
        ParsedReport::parse_report_path(sample_href).expect("Failed to parse report path");

    assert_eq!(result.url_path, expected.url_path);
    assert_eq!(result.file_name, expected.file_name);
    assert_eq!(result.datetime, expected.datetime);
    assert_eq!(result.unique_key, expected.unique_key);
}

#[test]
fn url_path_rejections() {
    assert!(matches!(
        UrlPath::from_str(""),
        Err(ParseError::UrlPathBadFormat(_))
    ));
    assert!(matches!(
        UrlPath::from_str("Reports/x/"),
        Err(ParseError::UrlPathBadFormat(_))
    ));
    assert!(matches!(
        UrlPath::from_str("/Reports/x.zip"),
        Err(ParseError::UrlPathBadFormat(_))
    ));
    assert!(UrlPath::from_str("/Reports/Current/").is_ok());
}

#[test]
fn zip_file_name_rejections() {
    assert!(matches!(
        ZipFileName::from_str(""),
        Err(ParseError::NotZipFileName(_))
    ));
    assert!(matches!(
        ZipFileName::from_str("report.csv"),
        Err(ParseError::NotZipFileName(_))
    ));
    assert!(ZipFileName::from_str("report.zip").is_ok());
}

#[test]
fn report_path_without_timestamp_is_rejected() {
    assert!(matches!(
        ZipReportUrlPath::parse_report_path("/Reports/plain.zip"),
        Err(ZipReportUrlParseError::DateTimeBadFormat)
    ));
    assert!(matches!(
        ZipReportUrlPath::parse_report_path("/Reports/PUBLIC_notatime_0000000413460134.zip"),
        Err(ZipReportUrlParseError::DateTimeBadFormat)
    ));
}

#[test]
fn report_path_without_file_name_is_rejected() {
    assert!(matches!(
        ZipReportUrlPath::parse_report_path("/Reports/Current/"),
        Err(ZipReportUrlParseError::NotZipFileName(_))
    ));
}
