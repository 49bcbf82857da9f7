use nemcsv::numbers::Decimal;
use nemcsv::records::DeserializeError;
use nemcsv::records::Interconnector;
use nemcsv::records::ProcessRecord;
use nemcsv::records::RecordType;
use nemcsv::records::RecordTypeStartsWith;
use nemcsv::records::RowFault;
use nemcsv::scan::process;
use nemcsv::scan::process_file_current_rooftop_actual;
use nemcsv::scan::process_file_current_trading_is;
use nemcsv::scan::scan_lines;
use nemcsv::scan::ScanIssue;
use nemcsv::schema::default_registry;
use nemcsv::schema::RecordKind;
use nemcsv::schema::SchemaKey;
use nemcsv::schema::SchemaRegistry;
use nemcsv::sections::parse_csv;
use nemcsv::sections::parse_csv_no_dependencies;
use nemcsv::text::split_lines;

fn trading_sample() -> Vec<String> {
    vec![
        "C,NEMP.WORLD,TRADINGIS,AEMO,PUBLIC,2024/03/03,13:30:11,0000000412683134,TRADINGIS,0000000412683133".to_string(),
        "I,TRADING,INTERCONNECTORRES,2,SETTLEMENTDATE,RUNNO,INTERCONNECTORID,PERIODID,METEREDMWFLOW,MWFLOW,MWLOSSES,LASTCHANGED".to_string(),
        "D,TRADING,INTERCONNECTORRES,2,\"2024/03/03 13:35:00\",1,N-Q-MNSP1,163,36.2,17,1.36,\"2024/03/03 13:30:04\"".to_string(),
        "D,TRADING,INTERCONNECTORRES,2,\"2024/03/03 13:35:00\",1,NSW1-QLD1,163,587,464.75,30.31,\"2024/03/03 13:30:04\"".to_string(),
        "C,\"END OF REPORT\",15".to_string(),
    ]
}

#[test]
fn round_trip_interconnector_record() {
    let reg = default_registry();
    let out = scan_lines(&reg, &trading_sample());
    assert_eq!(out.issues.len(), 0);
    assert_eq!(out.records.len(), 2);
    match &out.records[0] {
        RecordType::Interconnector(rec) => {
            assert_eq!(rec.interconnector_id.as_deref(), Some("N-Q-MNSP1"));
            assert_eq!(
                rec.metered_mw_flow,
                Some(Decimal { negative: false, mantissa: 362, scale: 1 })
            );
            // 2024-03-03 13:35:00 Sydney (AEDT, UTC+11) is 02:35:00 UTC.
            assert_eq!(rec.settlement_date.epoch_seconds, 1709433300);
            assert_eq!(rec.run_no, Some(1));
            assert_eq!(rec.period_id, Some(163));
        }
        other => panic!("unexpected record: {:?}", other),
    }
}

#[test]
fn end_of_report_terminates_scanning() {
    let mut lines = trading_sample();
    lines.push(
        "D,TRADING,INTERCONNECTORRES,2,\"2024/03/03 13:35:00\",1,V-SA,163,1,1,1,\"2024/03/03 13:30:04\"".to_string(),
    );
    let reg = default_registry();
    let out = scan_lines(&reg, &lines);
    // The data row after the terminal control row is not emitted.
    assert_eq!(out.records.len(), 2);
    assert_eq!(out.issues.len(), 0);
}

#[test]
fn unrecognized_schema_yields_one_diagnostic_and_no_records() {
    let lines = vec![
        "I,UNKNOWN,KIND,9,COL1,COL2".to_string(),
        "D,UNKNOWN,KIND,9,a,b".to_string(),
        "D,UNKNOWN,KIND,9,c,d".to_string(),
    ];
    let reg = default_registry();
    let out = scan_lines(&reg, &lines);
    assert_eq!(out.records.len(), 0);
    assert_eq!(out.issues.len(), 1);
    match &out.issues[0] {
        ScanIssue::UnrecognizedSchema { line, key, fields } => {
            assert_eq!(*line, 0);
            assert_eq!(key.category, "UNKNOWN");
            assert_eq!(key.report_type, "KIND");
            assert_eq!(key.version, "9");
            assert_eq!(fields.len(), 6);
        }
        other => panic!("unexpected issue: {:?}", other),
    }
}

#[test]
fn scanning_the_same_content_twice_matches() {
    let reg = default_registry();
    let once = scan_lines(&reg, &trading_sample());
    let twice = scan_lines(&reg, &trading_sample());
    assert_eq!(format!("{:?}", once.records), format!("{:?}", twice.records));
    assert_eq!(format!("{:?}", once.issues), format!("{:?}", twice.issues));
}

#[test]
fn data_before_any_header_is_a_mismatch() {
    let lines = vec![
        "D,TRADING,INTERCONNECTORRES,2,\"2024/03/03 13:35:00\",1,V-SA,163,1,1,1,\"2024/03/03 13:30:04\"".to_string(),
    ];
    let reg = default_registry();
    let out = scan_lines(&reg, &lines);
    assert_eq!(out.records.len(), 0);
    assert!(matches!(out.issues[0], ScanIssue::SchemaMismatch { line: 0 }));
}

#[test]
fn mismatched_tag_under_active_schema_is_recovered() {
    let lines = vec![
        "I,TRADING,INTERCONNECTORRES,2,SETTLEMENTDATE".to_string(),
        "D,TRADING,PRICE,3,\"2024/03/03 13:35:00\"".to_string(),
        "D,TRADING,INTERCONNECTORRES,2,\"2024/03/03 13:35:00\",1,V-SA,163,1,1,1,\"2024/03/03 13:30:04\"".to_string(),
    ];
    let reg = default_registry();
    let out = scan_lines(&reg, &lines);
    // The mismatched row is reported, the good row after it is still emitted.
    assert_eq!(out.records.len(), 1);
    assert_eq!(out.issues.len(), 1);
    assert!(matches!(out.issues[0], ScanIssue::SchemaMismatch { line: 1 }));
}

#[test]
fn bad_field_is_reported_and_scanning_goes_on() {
    let lines = vec![
        "I,TRADING,INTERCONNECTORRES,2,SETTLEMENTDATE".to_string(),
        "D,TRADING,INTERCONNECTORRES,2,\"2024/03/03 13:35:00\",xx,V-SA,163,1,1,1,\"2024/03/03 13:30:04\"".to_string(),
        "D,TRADING,INTERCONNECTORRES,2,\"2024/03/03 13:35:00\",1,V-SA,163,1,1,1,\"2024/03/03 13:30:04\"".to_string(),
    ];
    let reg = default_registry();
    let out = scan_lines(&reg, &lines);
    assert_eq!(out.records.len(), 1);
    assert_eq!(out.issues.len(), 1);
    assert!(matches!(
        out.issues[0],
        ScanIssue::RowError { line: 1, fault: RowFault::FieldTypeError { index: 5 } }
    ));
}

#[test]
fn malformed_row_is_reported() {
    let lines = vec!["D,\"unterminated".to_string()];
    let reg = default_registry();
    let out = scan_lines(&reg, &lines);
    assert_eq!(out.records.len(), 0);
    assert!(matches!(out.issues[0], ScanIssue::MalformedRow { line: 0 }));
}

#[test]
fn registry_lookup_is_exact_and_case_sensitive() {
    let reg = default_registry();
    let known = SchemaKey::new(
        "TRADING".to_string(),
        "INTERCONNECTORRES".to_string(),
        "2".to_string(),
    );
    assert_eq!(reg.lookup(&known), Some(RecordKind::Interconnector));
    let wrong_case = SchemaKey::new(
        "trading".to_string(),
        "INTERCONNECTORRES".to_string(),
        "2".to_string(),
    );
    assert_eq!(reg.lookup(&wrong_case), None);
    let wrong_version = SchemaKey::new(
        "TRADING".to_string(),
        "INTERCONNECTORRES".to_string(),
        "3".to_string(),
    );
    assert_eq!(reg.lookup(&wrong_version), None);
}

#[test]
fn register_extends_the_registry() {
    let mut reg = SchemaRegistry::new();
    let key = SchemaKey::new("ROOFTOP".to_string(), "ACTUAL".to_string(), "2".to_string());
    assert_eq!(reg.lookup(&key), None);
    reg.register(key.clone(), RecordKind::RooftopPvActual);
    assert_eq!(reg.lookup(&key), Some(RecordKind::RooftopPvActual));
}

#[test]
fn process_text_splits_lines() {
    let text = trading_sample().join("\r\n");
    let reg = default_registry();
    let out = process(&reg, &text);
    assert_eq!(out.records.len(), 2);
    assert_eq!(out.issues.len(), 0);
}

#[test]
fn trading_file_entry_point_parses_both_kinds() {
    let text = "I,TRADING,PRICE,3,SETTLEMENTDATE,RUNNO,REGIONID,PERIODID,RRP,EEP,INVALIDFLAG,LASTCHANGED,ROP,A,B,C,D,E,F,G,H,I,J,K,L,M,N,O,P,Q,R,S,T,PRICE_STATUS\nD,TRADING,PRICE,3,\"2024/03/03 13:35:00\",1,SA1,163,-63.45,0,0,\"2024/03/03 13:30:04\",-63.45,0,0,0,0,0,0,0.91,0.91,1.84,1.84,4.78,4.78,0.39,0.39,3.76,3.76,0,0,0,0,FIRM\n";
    let out = process_file_current_trading_is(text);
    assert_eq!(out.records.len(), 1);
    match &out.records[0] {
        RecordType::Price(p) => {
            assert_eq!(p.region_id.as_deref(), Some("SA1"));
            assert_eq!(
                p.rrp,
                Some(Decimal { negative: true, mantissa: 6345, scale: 2 })
            );
            assert_eq!(p.price_status.as_deref(), Some("FIRM"));
        }
        other => panic!("unexpected record: {:?}", other),
    }
}

#[test]
fn rooftop_file_entry_point_parses_measurements() {
    let text = "I,ROOFTOP,ACTUAL,2,INTERVAL_DATETIME,REGIONID,POWER,QI,TYPE,LASTCHANGED\nD,ROOFTOP,ACTUAL,2,\"2024/03/03 19:30:00\",SA1,6.617,1,MEASUREMENT,\"2024/03/03 19:49:14\"\nC,\"END OF REPORT\",13\n";
    let out = process_file_current_rooftop_actual(text);
    assert_eq!(out.records.len(), 1);
    match &out.records[0] {
        RecordType::RooftopPvActual(r) => {
            assert_eq!(r.regionid, "SA1");
            assert_eq!(
                r.power,
                Some(Decimal { negative: false, mantissa: 6617, scale: 3 })
            );
            assert_eq!(r.interval_datetime.epoch_seconds, 1709454600);
        }
        other => panic!("unexpected record: {:?}", other),
    }
}

#[test]
fn process_single_line_records() {
    let line = "D,TRADING,INTERCONNECTORRES,2,\"2024/03/03 13:35:00\",1,N-Q-MNSP1,163,36.2,17,1.36,\"2024/03/03 13:30:04\"";
    let rec = Interconnector::process(line).unwrap();
    assert!(matches!(rec, RecordType::Interconnector(_)));
    assert!(matches!(
        Interconnector::process(""),
        Err(DeserializeError::NoRecordFound)
    ));
    assert!(matches!(
        Interconnector::process("D,TRADING,INTERCONNECTORRES,2,bad"),
        Err(DeserializeError::Csv(_))
    ));
}

#[test]
fn record_tags_match_their_prefixes() {
    assert!(Interconnector::matches("D,TRADING,INTERCONNECTORRES,2,x"));
    assert!(!Interconnector::matches("D,TRADING,PRICE,3,x"));
    assert!(nemcsv::records::Price::matches("D,TRADING,PRICE,3,x"));
    assert!(nemcsv::records::RooftopPvActual::matches("D,ROOFTOP,ACTUAL,2,x"));
    assert!(nemcsv::records::RooftopPvForecast::matches("D,ROOFTOP,FORECAST,1,x"));
}

#[test]
fn sections_group_data_under_headers() {
    let lines = split_lines(
        "I,TRADING,INTERCONNECTORRES,2,COLS\nD,TRADING,INTERCONNECTORRES,2,a\nD,TRADING,INTERCONNECTORRES,2,b\nI,TRADING,PRICE,3,COLS\nD,TRADING,PRICE,3,c\nC,\"END OF REPORT\",15\n",
    );
    let sections = parse_csv(&lines);
    assert_eq!(sections.len(), 2);
    assert_eq!(sections[0].information[2], "INTERCONNECTORRES");
    assert_eq!(sections[0].data.len(), 2);
    assert_eq!(sections[1].information[2], "PRICE");
    assert_eq!(sections[1].data.len(), 1);
}

#[test]
fn open_section_without_terminal_row_is_dropped() {
    let lines = split_lines("I,TRADING,PRICE,3,COLS\nD,TRADING,PRICE,3,c\n");
    let sections = parse_csv(&lines);
    assert_eq!(sections.len(), 0);
}

#[test]
fn header_runs_group_into_blocks() {
    let lines = split_lines(
        "C,comment\nI,ROOFTOP,ACTUAL,2,h1,h2,h3,h4,h5,h6\nD,ROOFTOP,ACTUAL,2,a,b,c,d,e,f\nI,ROOFTOP,ACTUAL,2,g1,g2,g3,g4,g5,g6\nD,ROOFTOP,ACTUAL,2,p,q,r,s,t,u\n",
    );
    let blocks = parse_csv_no_dependencies(&lines);
    assert_eq!(blocks.len(), 2);
    assert_eq!(blocks[0].headers.len(), 1);
    assert_eq!(blocks[0].headers[0], vec!["h1", "h2", "h3", "h4", "h5", "h6"]);
    assert_eq!(blocks[0].data.len(), 1);
    assert_eq!(blocks[0].data[0], vec!["a", "b", "c", "d", "e", "f"]);
    assert_eq!(blocks[1].data[0], vec!["p", "q", "r", "s", "t", "u"]);
}
