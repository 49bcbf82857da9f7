use nemcsv::batch::process_batch;
use nemcsv::batch::CsvRecordCollection;
use nemcsv::batch::EntryFault;
use nemcsv::collection::RecordsCollection;
use nemcsv::records::RecordType;
use nemcsv::schema::default_registry;

fn trading_bytes() -> Vec<u8> {
    let text = "I,TRADING,INTERCONNECTORRES,2,SETTLEMENTDATE,RUNNO,INTERCONNECTORID,PERIODID,METEREDMWFLOW,MWFLOW,MWLOSSES,LASTCHANGED\nD,TRADING,INTERCONNECTORRES,2,\"2024/03/03 13:35:00\",1,N-Q-MNSP1,163,36.2,17,1.36,\"2024/03/03 13:30:04\"\nC,\"END OF REPORT\",3\n";
    text.as_bytes().to_vec()
}

fn rooftop_bytes() -> Vec<u8> {
    let text = "I,ROOFTOP,ACTUAL,2,INTERVAL_DATETIME,REGIONID,POWER,QI,TYPE,LASTCHANGED\nD,ROOFTOP,ACTUAL,2,\"2024/03/03 19:30:00\",SA1,6.617,1,MEASUREMENT,\"2024/03/03 19:49:14\"\n";
    text.as_bytes().to_vec()
}

#[test]
fn batch_recovers_from_one_bad_entry() {
    let entries = vec![
        ("entry1".to_string(), trading_bytes()),
        ("entry2".to_string(), vec![0xff, 0xfe, 0x00]),
        ("entry3".to_string(), rooftop_bytes()),
    ];
    let reg = default_registry();
    let out = process_batch(&reg, &entries);
    // All records from the first and third entries are kept, in order.
    assert_eq!(out.records.len(), 2);
    assert!(matches!(out.records[0], RecordType::Interconnector(_)));
    assert!(matches!(out.records[1], RecordType::RooftopPvActual(_)));
    // Exactly one failure, naming the undecodable entry.
    assert_eq!(out.failures.len(), 1);
    assert_eq!(out.failures[0].entry_name, "entry2");
    assert_eq!(out.failures[0].fault, EntryFault::NotText);
    assert_eq!(out.number_of_files, Some(3));
}

#[test]
fn fully_successful_batch_has_no_failures() {
    let entries = vec![
        ("a".to_string(), trading_bytes()),
        ("b".to_string(), rooftop_bytes()),
    ];
    let reg = default_registry();
    let out = process_batch(&reg, &entries);
    assert_eq!(out.records.len(), 2);
    assert_eq!(out.failures.len(), 0);
    let total = trading_bytes().len() + rooftop_bytes().len();
    assert_eq!(out.zipfile_size_bytes, Some(total as u64));
}

#[test]
fn fully_failing_batch_is_distinguishable() {
    let entries = vec![
        ("a".to_string(), vec![0xff]),
        ("b".to_string(), vec![0xfe]),
    ];
    let reg = default_registry();
    let out = process_batch(&reg, &entries);
    assert_eq!(out.records.len(), 0);
    assert_eq!(out.failures.len(), 2);
    assert_eq!(out.failures[0].entry_name, "a");
    assert_eq!(out.failures[1].entry_name, "b");
}

#[test]
fn csv_record_collection_metadata() {
    let mut c = CsvRecordCollection::new();
    assert!(c.records.is_empty());
    assert!(c.source_file.is_none());
    c.set_source_file("report.zip".to_string());
    c.set_processing_time(12);
    c.set_zipfile_size(345);
    c.set_number_of_files(2);
    assert_eq!(c.source_file.as_deref(), Some("report.zip"));
    assert_eq!(c.processing_time_ms, Some(12));
    assert_eq!(c.zipfile_size_bytes, Some(345));
    assert_eq!(c.number_of_files, Some(2));
}

#[test]
fn records_collection_keeps_order_and_metadata() {
    let mut c: RecordsCollection<u32> = RecordsCollection::new();
    c.add_records(vec![1, 2]);
    c.add_records(vec![3]);
    assert_eq!(c.records, vec![1, 2, 3]);
    c.set_source_file("x".to_string());
    c.set_processing_time(7);
    c.set_zipfile_size(99);
    c.set_number_of_files(1);
    assert_eq!(c.source_file.as_deref(), Some("x"));
    assert_eq!(c.processing_time_ms, Some(7));
    assert_eq!(c.zipfile_size_bytes, Some(99));
    assert_eq!(c.number_of_files, Some(1));
}
