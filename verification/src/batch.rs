//! Batch aggregation: folds the parse results of many named entries into
//! one collection, recovering per entry.

use vstd::prelude::*;
use vstd::utf8::valid_utf8;
use vstd::utf8::decode_utf8;

use crate::records::RecordType;
use crate::records::RecordV;
use crate::scan::ScanIssue;
use crate::scan::ScanIssueV;
use crate::scan::scan_lines;
use crate::scan::spec_scan;
use crate::schema::RecordKind;
use crate::schema::SchemaRegistry;
use crate::text::spec_lines;
use crate::text::split_lines;

verus! {

/// Why one batch entry was set aside.
#[derive(Clone, Copy, Debug, PartialEq, Eq, Structural)]
pub enum EntryFault {
    /// The entry's bytes are not valid text.
    NotText,
}

/// One entry the batch could not parse, by name, in batch order.
#[derive(Clone, Debug)]
pub struct EntryFailure {
    pub entry_name: String,
    pub fault: EntryFault,
}

impl View for EntryFailure {
    type V = (Seq<char>, EntryFault);

    open spec fn view(&self) -> (Seq<char>, EntryFault) {
        (self.entry_name@, self.fault)
    }
}

/// Everything one batch yields: records and diagnostics in file order, the
/// entries that failed, and batch metadata.
#[derive(Debug)]
pub struct CsvRecordCollection {
    pub records: Vec<RecordType>,
    pub issues: Vec<ScanIssue>,
    pub failures: Vec<EntryFailure>,
    pub source_file: Option<String>,
    pub processing_time_ms: Option<u128>,
    pub zipfile_size_bytes: Option<u64>,
    pub number_of_files: Option<usize>,
}

impl CsvRecordCollection {
    /// View of the collected records.
    pub open spec fn records_view(&self) -> Seq<RecordV> {
        self.records@.map_values(|r: RecordType| r@)
    }

    /// View of the collected diagnostics.
    pub open spec fn issues_view(&self) -> Seq<ScanIssueV> {
        self.issues@.map_values(|is: ScanIssue| is@)
    }

    /// View of the recorded entry failures.
    pub open spec fn failures_view(&self) -> Seq<(Seq<char>, EntryFault)> {
        self.failures@.map_values(|f: EntryFailure| f@)
    }

    /// Creates an empty collection with no metadata set.
    pub fn new() -> (r: Self)
        ensures
            r.records@ =~= Seq::<RecordType>::empty(),
            r.issues@ =~= Seq::<ScanIssue>::empty(),
            r.failures@ =~= Seq::<EntryFailure>::empty(),
            r.source_file is None,
            r.processing_time_ms is None,
            r.zipfile_size_bytes is None,
            r.number_of_files is None,
    {
        CsvRecordCollection {
            records: Vec::new(),
            issues: Vec::new(),
            failures: Vec::new(),
            source_file: None,
            processing_time_ms: None,
            zipfile_size_bytes: None,
            number_of_files: None,
        }
    }

    /// Extends the collection with a vector of records, keeping order.
    pub fn add_records(&mut self, new_records: Vec<RecordType>)
        ensures
            final(self).records@ == old(self).records@ + new_records@,
            final(self).issues == old(self).issues,
            final(self).failures == old(self).failures,
            final(self).source_file == old(self).source_file,
            final(self).processing_time_ms == old(self).processing_time_ms,
            final(self).zipfile_size_bytes == old(self).zipfile_size_bytes,
            final(self).number_of_files == old(self).number_of_files,
    {
        let mut new_records = new_records;
        self.records.append(&mut new_records);
    }

    /// Sets the processing time metadata.
    pub fn set_processing_time(&mut self, time_ms: u128)
        ensures
            *final(self) == (CsvRecordCollection { processing_time_ms: Some(time_ms), ..*old(self) }),
    {
        self.processing_time_ms = Some(time_ms);
    }

    /// Sets the zipfile size metadata.
    pub fn set_zipfile_size(&mut self, size_bytes: u64)
        ensures
            *final(self) == (CsvRecordCollection {
                zipfile_size_bytes: Some(size_bytes),
                ..*old(self)
            }),
    {
        self.zipfile_size_bytes = Some(size_bytes);
    }

    /// Sets the number of files metadata.
    pub fn set_number_of_files(&mut self, count: usize)
        ensures
            *final(self) == (CsvRecordCollection { number_of_files: Some(count), ..*old(self) }),
    {
        self.number_of_files = Some(count);
    }

    /// Sets the source file metadata.
    pub fn set_source_file(&mut self, file_name: String)
        ensures
            *final(self) == (CsvRecordCollection { source_file: Some(file_name), ..*old(self) }),
    {
        self.source_file = Some(file_name);
    }
}

/// Relies on `String::from_utf8`: it succeeds exactly on valid UTF-8 and
/// yields the characters the bytes encode.
#[verifier::external_body]
fn bytes_to_text(bytes: &Vec<u8>) -> (r: Option<String>)
    ensures
        r is Some <==> valid_utf8(bytes@),
        r matches Some(s) ==> s@ == decode_utf8(bytes@),
{
    String::from_utf8(bytes.clone()).ok()
}

/// View of a batch's input: each entry's name and raw bytes.
pub open spec fn entries_view(entries: Seq<(String, Vec<u8>)>) -> Seq<(Seq<char>, Seq<u8>)> {
    entries.map_values(|e: (String, Vec<u8>)| (e.0@, e.1@))
}

/// What one batch yields, before metadata.
#[verifier::ext_equal]
pub ghost struct BatchModel {
    pub records: Seq<RecordV>,
    pub issues: Seq<ScanIssueV>,
    pub failures: Seq<(Seq<char>, EntryFault)>,
}

/// Batch state after the first `i` entries: a decodable entry contributes
/// its records and diagnostics in file order; an undecodable one
/// contributes one failure naming it; no entry stops the batch.
pub open spec fn spec_batch_run(
    reg: Seq<((Seq<char>, Seq<char>, Seq<char>), RecordKind)>,
    entries: Seq<(Seq<char>, Seq<u8>)>,
    i: int,
) -> BatchModel
    decreases i,
{
    if i <= 0 {
        BatchModel { records: Seq::empty(), issues: Seq::empty(), failures: Seq::empty() }
    } else {
        let prev = spec_batch_run(reg, entries, i - 1);
        let e = entries[i - 1];
        if valid_utf8(e.1) {
            let m = spec_scan(reg, spec_lines(decode_utf8(e.1)));
            BatchModel {
                records: prev.records + m.records,
                issues: prev.issues + m.issues,
                failures: prev.failures,
            }
        } else {
            BatchModel { failures: prev.failures.push((e.0, EntryFault::NotText)), ..prev }
        }
    }
}

/// What scanning a whole batch yields.
pub open spec fn spec_batch(
    reg: Seq<((Seq<char>, Seq<char>, Seq<char>), RecordKind)>,
    entries: Seq<(Seq<char>, Seq<u8>)>,
) -> BatchModel {
    spec_batch_run(reg, entries, entries.len() as int)
}

/// Total byte size of the first `i` entries.
pub open spec fn spec_total_size(entries: Seq<(Seq<char>, Seq<u8>)>, i: int) -> int
    decreases i,
{
    if i <= 0 {
        0
    } else {
        spec_total_size(entries, i - 1) + entries[i - 1].1.len()
    }
}

/// The byte size recorded for a batch: the total, held at the largest
/// representable value where it would not fit.
pub open spec fn spec_clamped_size(entries: Seq<(Seq<char>, Seq<u8>)>) -> u64 {
    let total = spec_total_size(entries, entries.len() as int);
    if total > u64::MAX {
        u64::MAX
    } else {
        total as u64
    }
}

proof fn lemma_total_size_monotone(entries: Seq<(Seq<char>, Seq<u8>)>, i: int, j: int)
    requires
        0 <= i <= j,
    ensures
        spec_total_size(entries, i) <= spec_total_size(entries, j),
    decreases j - i,
{
    if j > i {
        lemma_total_size_monotone(entries, i, j - 1);
    }
}

/// Parses every entry of a batch: records and diagnostics are appended in
/// batch order, an entry whose bytes are not valid text is recorded as a
/// failure by name, and no entry's failure stops the batch.  The entry
/// count and total byte size are set; the source name and timing are the
/// caller's to fill in.
pub fn process_batch(reg: &SchemaRegistry, entries: &Vec<(String, Vec<u8>)>) -> (r:
    CsvRecordCollection)
    ensures
        r.records_view() == spec_batch(reg@, entries_view(entries@)).records,
        r.issues_view() == spec_batch(reg@, entries_view(entries@)).issues,
        r.failures_view() == spec_batch(reg@, entries_view(entries@)).failures,
        r.number_of_files == Some(entries@.len() as usize),
        r.zipfile_size_bytes == Some(spec_clamped_size(entries_view(entries@))),
        r.source_file is None,
        r.processing_time_ms is None,
{
    let ghost ev = entries_view(entries@);
    let n = entries.len();
    let mut out = CsvRecordCollection::new();
    let mut total: u64 = 0;
    let mut i: usize = 0;
    while i < n
        invariant
            n == ev.len(),
            ev == entries_view(entries@),
            i <= n,
            out.records_view() == spec_batch_run(reg@, ev, i as int).records,
            out.issues_view() == spec_batch_run(reg@, ev, i as int).issues,
            out.failures_view() == spec_batch_run(reg@, ev, i as int).failures,
            out.source_file is None,
            out.processing_time_ms is None,
            out.zipfile_size_bytes is None,
            out.number_of_files is None,
            total == if spec_total_size(ev, i as int) > u64::MAX {
                u64::MAX as int
            } else {
                spec_total_size(ev, i as int)
            },
        decreases n - i,
    {
        let entry = &entries[i];
        let size = entry.1.len() as u64;
        total = match total.checked_add(size) {
            Some(t) => t,
            None => u64::MAX,
        };
        match bytes_to_text(&entry.1) {
            Some(text) => {
                let lines = split_lines(text.as_str());
                let mut scanned = scan_lines(reg, &lines);
                out.records.append(&mut scanned.records);
                out.issues.append(&mut scanned.issues);
            },
            None => {
                out.failures.push(
                    EntryFailure { entry_name: entry.0.clone(), fault: EntryFault::NotText },
                );
            },
        }
        proof {
            assert(ev[i as int] == (entries@[i as int].0@, entries@[i as int].1@));
            assert(out.records_view() =~= spec_batch_run(reg@, ev, i + 1).records);
            assert(out.issues_view() =~= spec_batch_run(reg@, ev, i + 1).issues);
            assert(out.failures_view() =~= spec_batch_run(reg@, ev, i + 1).failures);
        }
        i += 1;
    }
    out.set_number_of_files(n);
    proof {
        lemma_total_size_monotone(ev, 0, n as int);
    }
    out.set_zipfile_size(total);
    out
}

} // verus!
