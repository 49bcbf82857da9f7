//! The section state machine: walks classified rows, tracks the active
//! schema, dispatches data rows and recovers per row.

use vstd::prelude::*;
use vstd::string::StrSliceExecFns;

use crate::records::RecordType;
use crate::records::RecordV;
use crate::records::RowFault;
use crate::records::deserialize_interconnector;
use crate::records::deserialize_price;
use crate::records::deserialize_rooftop_actual;
use crate::records::deserialize_rooftop_forecast;
use crate::records::spec_interconnector_fault;
use crate::records::spec_interconnector_value;
use crate::records::spec_price_fault;
use crate::records::spec_price_value;
use crate::records::spec_rooftop_actual_fault;
use crate::records::spec_rooftop_actual_value;
use crate::records::spec_rooftop_forecast_fault;
use crate::records::spec_rooftop_forecast_value;
use crate::rows::RowKind;
use crate::rows::classify_fields;
use crate::rows::spec_row_kind;
use crate::rows::spec_split_fields;
use crate::rows::split_fields;
use crate::schema::RecordKind;
use crate::schema::SchemaKey;
use crate::schema::SchemaRegistry;
use crate::schema::spec_lookup;
use crate::text::seq_eq_ci;
use crate::text::str_eq_ignore_ascii_case;

verus! {

/// One diagnostic the scanner emits while recovering per row.
#[derive(Clone, Debug)]
pub enum ScanIssue {
    /// The row could not be split into fields, or a header row was too short
    /// to carry a schema key.
    MalformedRow { line: usize },
    /// A header row's key is not in the registry: its whole block is skipped
    /// and this one diagnostic carries the key and the raw header fields.
    UnrecognizedSchema { line: usize, key: SchemaKey, fields: Vec<String> },
    /// A data row arrived before any header, or its embedded tag disagrees
    /// with the active schema.
    SchemaMismatch { line: usize },
    /// A data row matched the active schema but one field failed to convert.
    RowError { line: usize, fault: RowFault },
}

/// Mathematical view of one diagnostic.
pub ghost enum ScanIssueV {
    MalformedRow { line: usize },
    UnrecognizedSchema {
        line: usize,
        key: (Seq<char>, Seq<char>, Seq<char>),
        fields: Seq<Seq<char>>,
    },
    SchemaMismatch { line: usize },
    RowError { line: usize, fault: RowFault },
}

impl View for ScanIssue {
    type V = ScanIssueV;

    open spec fn view(&self) -> ScanIssueV {
        match self {
            ScanIssue::MalformedRow { line } => ScanIssueV::MalformedRow { line: *line },
            ScanIssue::UnrecognizedSchema { line, key, fields } => ScanIssueV::UnrecognizedSchema {
                line: *line,
                key: key@,
                fields: fields.deep_view(),
            },
            ScanIssue::SchemaMismatch { line } => ScanIssueV::SchemaMismatch { line: *line },
            ScanIssue::RowError { line, fault } => ScanIssueV::RowError {
                line: *line,
                fault: *fault,
            },
        }
    }
}

/// The active-schema part of the scanner state.
pub ghost enum ActiveV {
    /// No header row has been seen yet.
    Start,
    /// The last header row carried an unrecognized key: its block is skipped.
    Skipping,
    /// The last header row matched this registered kind under this key.
    Active(RecordKind, (Seq<char>, Seq<char>, Seq<char>)),
}

/// The whole scanner state, together with everything emitted so far.
#[verifier::ext_equal]
pub ghost struct ScanModel {
    pub active: ActiveV,
    pub terminated: bool,
    pub records: Seq<RecordV>,
    pub issues: Seq<ScanIssueV>,
}

/// The scanner state before any row.
pub open spec fn scan_init() -> ScanModel {
    ScanModel {
        active: ActiveV::Start,
        terminated: false,
        records: Seq::empty(),
        issues: Seq::empty(),
    }
}

/// What deserializing one data row as the given kind yields.
pub open spec fn spec_deser_by_kind(kind: RecordKind, fs: Seq<Seq<char>>) -> Result<
    RecordV,
    RowFault,
> {
    match kind {
        RecordKind::Interconnector => match spec_interconnector_fault(fs) {
            Some(f) => Err(f),
            None => Ok(RecordV::Interconnector(spec_interconnector_value(fs))),
        },
        RecordKind::Price => match spec_price_fault(fs) {
            Some(f) => Err(f),
            None => Ok(RecordV::Price(spec_price_value(fs))),
        },
        RecordKind::RooftopPvActual => match spec_rooftop_actual_fault(fs) {
            Some(f) => Err(f),
            None => Ok(RecordV::RooftopPvActual(spec_rooftop_actual_value(fs))),
        },
        RecordKind::RooftopPvForecast => match spec_rooftop_forecast_fault(fs) {
            Some(f) => Err(f),
            None => Ok(RecordV::RooftopPvForecast(spec_rooftop_forecast_value(fs))),
        },
    }
}

/// Whether a control row ends the report: its second field reads
/// `END OF REPORT` ignoring case.
pub open spec fn is_end_of_report(fs: Seq<Seq<char>>) -> bool {
    fs.len() >= 2 && seq_eq_ci(fs[1], "END OF REPORT"@)
}

/// Whether a data row's embedded tag equals the active schema's key.
pub open spec fn tag_matches(fs: Seq<Seq<char>>, key: (Seq<char>, Seq<char>, Seq<char>)) -> bool {
    fs.len() >= 4 && fs[1] == key.0 && fs[2] == key.1 && fs[3] == key.2
}

/// One step of the scanner on one line.  A new header always supersedes the
/// previous one; an unknown header key yields one diagnostic and silences
/// the block; data rows are dispatched and recovered per row; a terminal
/// control row stops everything after it.
pub open spec fn spec_scan_step(
    reg: Seq<((Seq<char>, Seq<char>, Seq<char>), RecordKind)>,
    m: ScanModel,
    line: Seq<char>,
    lineno: usize,
) -> ScanModel {
    if m.terminated {
        m
    } else {
        match spec_split_fields(line) {
            None => ScanModel {
                issues: m.issues.push(ScanIssueV::MalformedRow { line: lineno }),
                ..m
            },
            Some(fs) => match spec_row_kind(fs) {
                RowKind::Ignore => m,
                RowKind::Control => {
                    if is_end_of_report(fs) {
                        ScanModel { terminated: true, ..m }
                    } else {
                        m
                    }
                },
                RowKind::Header => {
                    if fs.len() < 4 {
                        ScanModel {
                            active: ActiveV::Skipping,
                            issues: m.issues.push(ScanIssueV::MalformedRow { line: lineno }),
                            ..m
                        }
                    } else {
                        let key = (fs[1], fs[2], fs[3]);
                        match spec_lookup(reg, key) {
                            Some(kind) => ScanModel { active: ActiveV::Active(kind, key), ..m },
                            None => ScanModel {
                                active: ActiveV::Skipping,
                                issues: m.issues.push(
                                    ScanIssueV::UnrecognizedSchema {
                                        line: lineno,
                                        key,
                                        fields: fs,
                                    },
                                ),
                                ..m
                            },
                        }
                    }
                },
                RowKind::Data => match m.active {
                    ActiveV::Start => ScanModel {
                        issues: m.issues.push(ScanIssueV::SchemaMismatch { line: lineno }),
                        ..m
                    },
                    ActiveV::Skipping => m,
                    ActiveV::Active(kind, key) => {
                        if tag_matches(fs, key) {
                            match spec_deser_by_kind(kind, fs) {
                                Ok(rec) => ScanModel { records: m.records.push(rec), ..m },
                                Err(f) => ScanModel {
                                    issues: m.issues.push(
                                        ScanIssueV::RowError { line: lineno, fault: f },
                                    ),
                                    ..m
                                },
                            }
                        } else {
                            ScanModel {
                                issues: m.issues.push(ScanIssueV::SchemaMismatch { line: lineno }),
                                ..m
                            }
                        }
                    },
                },
            },
        }
    }
}

/// Scanner state after the first `i` lines.
pub open spec fn spec_scan_run(
    reg: Seq<((Seq<char>, Seq<char>, Seq<char>), RecordKind)>,
    lines: Seq<Seq<char>>,
    i: int,
) -> ScanModel
    decreases i,
{
    if i <= 0 {
        scan_init()
    } else {
        spec_scan_step(reg, spec_scan_run(reg, lines, i - 1), lines[i - 1], (i - 1) as usize)
    }
}

/// What scanning a whole sequence of lines yields.
pub open spec fn spec_scan(
    reg: Seq<((Seq<char>, Seq<char>, Seq<char>), RecordKind)>,
    lines: Seq<Seq<char>>,
) -> ScanModel {
    spec_scan_run(reg, lines, lines.len() as int)
}

/// The records and diagnostics of one scanned file, in file order.
#[derive(Debug)]
pub struct ScanOutput {
    pub records: Vec<RecordType>,
    pub issues: Vec<ScanIssue>,
}

impl ScanOutput {
    /// View of the emitted records.
    pub open spec fn records_view(&self) -> Seq<RecordV> {
        self.records@.map_values(|r: RecordType| r@)
    }

    /// View of the emitted diagnostics.
    pub open spec fn issues_view(&self) -> Seq<ScanIssueV> {
        self.issues@.map_values(|is: ScanIssue| is@)
    }
}

/// The exec scanner state.
enum Active {
    Start,
    Skipping,
    Active(RecordKind, SchemaKey),
}

impl Active {
    spec fn view_active(&self) -> ActiveV {
        match self {
            Active::Start => ActiveV::Start,
            Active::Skipping => ActiveV::Skipping,
            Active::Active(kind, key) => ActiveV::Active(*kind, key@),
        }
    }
}

/// Deserializes one data row as the given record kind.
fn deserialize_by_kind(kind: RecordKind, fields: &Vec<String>) -> (r: Result<RecordType, RowFault>)
    ensures
        match r {
            Ok(rec) => spec_deser_by_kind(kind, fields.deep_view()) == Ok::<RecordV, RowFault>(
                rec@,
            ),
            Err(f) => spec_deser_by_kind(kind, fields.deep_view()) == Err::<RecordV, RowFault>(f),
        },
{
    match kind {
        RecordKind::Interconnector => match deserialize_interconnector(fields) {
            Ok(rec) => Ok(RecordType::Interconnector(rec)),
            Err(f) => Err(f),
        },
        RecordKind::Price => match deserialize_price(fields) {
            Ok(rec) => Ok(RecordType::Price(Box::new(rec))),
            Err(f) => Err(f),
        },
        RecordKind::RooftopPvActual => match deserialize_rooftop_actual(fields) {
            Ok(rec) => Ok(RecordType::RooftopPvActual(rec)),
            Err(f) => Err(f),
        },
        RecordKind::RooftopPvForecast => match deserialize_rooftop_forecast(fields) {
            Ok(rec) => Ok(RecordType::RooftopPvForecast(rec)),
            Err(f) => Err(f),
        },
    }
}

/// Once the scanner has terminated, later lines change nothing.
pub proof fn lemma_terminated_stays(
    reg: Seq<((Seq<char>, Seq<char>, Seq<char>), RecordKind)>,
    lines: Seq<Seq<char>>,
    i: int,
    j: int,
)
    requires
        0 <= i <= j,
        spec_scan_run(reg, lines, i).terminated,
    ensures
        spec_scan_run(reg, lines, j) == spec_scan_run(reg, lines, i),
    decreases j - i,
{
    if j > i {
        lemma_terminated_stays(reg, lines, i, j - 1);
    }
}

/// The scanner state after `i` lines depends on those lines alone.
pub proof fn lemma_run_prefix(
    reg: Seq<((Seq<char>, Seq<char>, Seq<char>), RecordKind)>,
    lines1: Seq<Seq<char>>,
    lines2: Seq<Seq<char>>,
    i: int,
)
    requires
        0 <= i,
        i <= lines1.len(),
        i <= lines2.len(),
        lines1.take(i) == lines2.take(i),
    ensures
        spec_scan_run(reg, lines1, i) == spec_scan_run(reg, lines2, i),
    decreases i,
{
    if i > 0 {
        assert(lines1.take(i - 1) =~= lines1.take(i).take(i - 1));
        assert(lines2.take(i - 1) =~= lines2.take(i).take(i - 1));
        lemma_run_prefix(reg, lines1, lines2, i - 1);
        assert(lines1[i - 1] == lines1.take(i)[i - 1]);
        assert(lines2[i - 1] == lines2.take(i)[i - 1]);
    }
}

/// Walks the lines of one file: classifies each row, tracks the active
/// schema, dispatches data rows to the matching deserializer, recovers per
/// row, and stops at a terminal control row.
pub fn scan_lines(reg: &SchemaRegistry, lines: &Vec<String>) -> (out: ScanOutput)
    ensures
        out.records_view() == spec_scan(reg@, lines.deep_view()).records,
        out.issues_view() == spec_scan(reg@, lines.deep_view()).issues,
{
    let ghost lv = lines.deep_view();
    let n = lines.len();
    let mut active = Active::Start;
    let mut done = false;
    let mut records: Vec<RecordType> = Vec::new();
    let mut issues: Vec<ScanIssue> = Vec::new();
    let mut i: usize = 0;
    while i < n && !done
        invariant
            n == lv.len(),
            lv == lines.deep_view(),
            i <= n,
            spec_scan_run(reg@, lv, i as int) == (ScanModel {
                active: active.view_active(),
                terminated: done,
                records: records@.map_values(|r: RecordType| r@),
                issues: issues@.map_values(|is: ScanIssue| is@),
            }),
        decreases n - i,
    {
        let line = &lines[i];
        match split_fields(line.as_str()) {
            None => {
                issues.push(ScanIssue::MalformedRow { line: i });
            },
            Some(fields) => {
                match classify_fields(&fields) {
                    RowKind::Ignore => {},
                    RowKind::Control => {
                        if fields.len() >= 2 && str_eq_ignore_ascii_case(
                            fields[1].as_str(),
                            "END OF REPORT",
                        ) {
                            done = true;
                        }
                    },
                    RowKind::Header => {
                        if fields.len() < 4 {
                            active = Active::Skipping;
                            issues.push(ScanIssue::MalformedRow { line: i });
                        } else {
                            let key = SchemaKey::new(
                                fields[1].clone(),
                                fields[2].clone(),
                                fields[3].clone(),
                            );
                            match reg.lookup(&key) {
                                Some(kind) => {
                                    active = Active::Active(kind, key);
                                },
                                None => {
                                    active = Active::Skipping;
                                    issues.push(
                                        ScanIssue::UnrecognizedSchema { line: i, key, fields },
                                    );
                                },
                            }
                        }
                    },
                    RowKind::Data => {
                        match &active {
                            Active::Start => {
                                issues.push(ScanIssue::SchemaMismatch { line: i });
                            },
                            Active::Skipping => {},
                            Active::Active(kind, key) => {
                                let matches = fields.len() >= 4 && fields[1] == key.category
                                    && fields[2] == key.report_type && fields[3] == key.version;
                                if matches {
                                    match deserialize_by_kind(*kind, &fields) {
                                        Ok(rec) => {
                                            records.push(rec);
                                        },
                                        Err(f) => {
                                            issues.push(ScanIssue::RowError { line: i, fault: f });
                                        },
                                    }
                                } else {
                                    issues.push(ScanIssue::SchemaMismatch { line: i });
                                }
                            },
                        }
                    },
                }
            },
        }
        proof {
            assert(records@.map_values(|r: RecordType| r@) =~= spec_scan_run(
                reg@,
                lv,
                i + 1,
            ).records);
            assert(issues@.map_values(|is: ScanIssue| is@) =~= spec_scan_run(
                reg@,
                lv,
                i + 1,
            ).issues);
            assert(spec_scan_run(reg@, lv, i + 1) =~= (ScanModel {
                active: active.view_active(),
                terminated: done,
                records: records@.map_values(|r: RecordType| r@),
                issues: issues@.map_values(|is: ScanIssue| is@),
            }));
        }
        i += 1;
    }
    proof {
        if done {
            lemma_terminated_stays(reg@, lv, i as int, n as int);
        }
    }
    ScanOutput { records, issues }
}

/// Scans decoded text: splits it into lines and walks them.
pub fn process(reg: &SchemaRegistry, contents: &str) -> (out: ScanOutput)
    ensures
        out.records_view() == spec_scan(reg@, crate::text::spec_lines(contents@)).records,
        out.issues_view() == spec_scan(reg@, crate::text::spec_lines(contents@)).issues,
{
    let lines = crate::text::split_lines(contents);
    scan_lines(reg, &lines)
}

/// The two schema keys of a trading report file.
pub open spec fn spec_trading_entries() -> Seq<((Seq<char>, Seq<char>, Seq<char>), RecordKind)> {
    seq![
        (("TRADING"@, "INTERCONNECTORRES"@, "2"@), RecordKind::Interconnector),
        (("TRADING"@, "PRICE"@, "3"@), RecordKind::Price),
    ]
}

/// Scans one trading report file: only the interconnector and price schemas
/// are registered.
pub fn process_file_current_trading_is(contents: &str) -> (out: ScanOutput)
    ensures
        out.records_view() == spec_scan(
            spec_trading_entries(),
            crate::text::spec_lines(contents@),
        ).records,
        out.issues_view() == spec_scan(
            spec_trading_entries(),
            crate::text::spec_lines(contents@),
        ).issues,
{
    let mut reg = SchemaRegistry::new();
    reg.register(
        SchemaKey::new(
            String::from_str("TRADING"),
            String::from_str("INTERCONNECTORRES"),
            String::from_str("2"),
        ),
        RecordKind::Interconnector,
    );
    reg.register(
        SchemaKey::new(
            String::from_str("TRADING"),
            String::from_str("PRICE"),
            String::from_str("3"),
        ),
        RecordKind::Price,
    );
    proof {
        assert(reg@ =~= spec_trading_entries());
    }
    process(&reg, contents)
}

/// The schema key of a rooftop actual-measurement file.
pub open spec fn spec_rooftop_actual_entries() -> Seq<
    ((Seq<char>, Seq<char>, Seq<char>), RecordKind),
> {
    seq![(("ROOFTOP"@, "ACTUAL"@, "2"@), RecordKind::RooftopPvActual)]
}

/// Scans one rooftop actual-measurement file: only that schema is
/// registered.
pub fn process_file_current_rooftop_actual(contents: &str) -> (out: ScanOutput)
    ensures
        out.records_view() == spec_scan(
            spec_rooftop_actual_entries(),
            crate::text::spec_lines(contents@),
        ).records,
        out.issues_view() == spec_scan(
            spec_rooftop_actual_entries(),
            crate::text::spec_lines(contents@),
        ).issues,
{
    let mut reg = SchemaRegistry::new();
    reg.register(
        SchemaKey::new(
            String::from_str("ROOFTOP"),
            String::from_str("ACTUAL"),
            String::from_str("2"),
        ),
        RecordKind::RooftopPvActual,
    );
    proof {
        assert(reg@ =~= spec_rooftop_actual_entries());
    }
    process(&reg, contents)
}

/// Scanning is a function of the input lines alone: equal byte content
/// yields structurally identical record and diagnostic sequences, however
/// often it is parsed.
pub proof fn lemma_scan_deterministic(
    reg: Seq<((Seq<char>, Seq<char>, Seq<char>), RecordKind)>,
    a: Seq<Seq<char>>,
    b: Seq<Seq<char>>,
)
    requires
        a == b,
    ensures
        spec_scan(reg, a).records == spec_scan(reg, b).records,
        spec_scan(reg, a).issues == spec_scan(reg, b).issues,
{
}

/// Whether line `j` is a data row whose embedded tag matches the schema
/// active when the scanner reaches it, before any terminal control row.
pub open spec fn is_matched_data(
    reg: Seq<((Seq<char>, Seq<char>, Seq<char>), RecordKind)>,
    lines: Seq<Seq<char>>,
    j: int,
) -> bool {
    let m = spec_scan_run(reg, lines, j);
    !m.terminated && match spec_split_fields(lines[j]) {
        Some(fs) => spec_row_kind(fs) == RowKind::Data && match m.active {
            ActiveV::Active(kind, key) => tag_matches(fs, key),
            _ => false,
        },
        None => false,
    }
}

/// Whether the matched data row at line `j` deserializes without fault.
pub open spec fn matched_deserializes(
    reg: Seq<((Seq<char>, Seq<char>, Seq<char>), RecordKind)>,
    lines: Seq<Seq<char>>,
    j: int,
) -> bool {
    match spec_split_fields(lines[j]) {
        Some(fs) => match spec_scan_run(reg, lines, j).active {
            ActiveV::Active(kind, key) => spec_deser_by_kind(kind, fs) is Ok,
            _ => false,
        },
        None => false,
    }
}

/// Number of matched data rows among the first `i` lines.
pub open spec fn matched_count(
    reg: Seq<((Seq<char>, Seq<char>, Seq<char>), RecordKind)>,
    lines: Seq<Seq<char>>,
    i: int,
) -> int
    decreases i,
{
    if i <= 0 {
        0
    } else {
        matched_count(reg, lines, i - 1) + if is_matched_data(reg, lines, i - 1) {
            1int
        } else {
            0
        }
    }
}

proof fn lemma_emitted_helper(
    reg: Seq<((Seq<char>, Seq<char>, Seq<char>), RecordKind)>,
    lines: Seq<Seq<char>>,
    i: int,
)
    requires
        0 <= i <= lines.len(),
        forall|j: int|
            0 <= j < lines.len() && is_matched_data(reg, lines, j) ==> matched_deserializes(
                reg,
                lines,
                j,
            ),
    ensures
        spec_scan_run(reg, lines, i).records.len() == matched_count(reg, lines, i),
    decreases i,
{
    if i > 0 {
        lemma_emitted_helper(reg, lines, i - 1);
    }
}

/// In a well-formed file, where every matched data row deserializes, the
/// number of emitted records equals the number of data rows whose embedded
/// tag matches the schema active when they are reached.
pub proof fn lemma_emitted_equals_matched(
    reg: Seq<((Seq<char>, Seq<char>, Seq<char>), RecordKind)>,
    lines: Seq<Seq<char>>,
)
    requires
        forall|j: int|
            0 <= j < lines.len() && is_matched_data(reg, lines, j) ==> matched_deserializes(
                reg,
                lines,
                j,
            ),
    ensures
        spec_scan(reg, lines).records.len() == matched_count(reg, lines, lines.len() as int),
{
    lemma_emitted_helper(reg, lines, lines.len() as int);
}

/// Whether a line is a terminal control row: a control row whose second
/// field reads `END OF REPORT` ignoring case.
pub open spec fn is_terminal_row(line: Seq<char>) -> bool {
    match spec_split_fields(line) {
        Some(fs) => spec_row_kind(fs) == RowKind::Control && is_end_of_report(fs),
        None => false,
    }
}

/// A terminal control row ends scanning: the lines after the first such row
/// contribute no records and no diagnostics.
pub proof fn lemma_end_of_report_stops(
    reg: Seq<((Seq<char>, Seq<char>, Seq<char>), RecordKind)>,
    lines: Seq<Seq<char>>,
    i: int,
)
    requires
        0 <= i < lines.len(),
        is_terminal_row(lines[i]),
    ensures
        spec_scan(reg, lines) == spec_scan(reg, lines.take(i + 1)),
{
    let cut = lines.take(i + 1);
    assert(cut.take(i + 1) =~= cut);
    assert(lines.take(i + 1) == cut.take(i + 1));
    lemma_run_prefix(reg, lines, cut, i + 1);
    assert(spec_scan_run(reg, lines, i + 1).terminated);
    lemma_terminated_stays(reg, lines, i + 1, lines.len() as int);
}

#[verifier::rlimit(100)]
proof fn lemma_skipping_block_helper(
    reg: Seq<((Seq<char>, Seq<char>, Seq<char>), RecordKind)>,
    lines: Seq<Seq<char>>,
    i: int,
)
    requires
        1 <= i <= lines.len(),
        match spec_split_fields(lines[0]) {
            Some(fs) => spec_row_kind(fs) == RowKind::Header && fs.len() >= 4 && spec_lookup(
                reg,
                (fs[1], fs[2], fs[3]),
            ) is None,
            None => false,
        },
        forall|j: int|
            1 <= j < lines.len() ==> (#[trigger] spec_split_fields(lines[j]) matches Some(fs)
                && spec_row_kind(fs) == RowKind::Data),
    ensures
        spec_scan_run(reg, lines, i) == (ScanModel {
            active: ActiveV::Skipping,
            terminated: false,
            records: Seq::empty(),
            issues: spec_scan_run(reg, lines, 1).issues,
        }),
        spec_scan_run(reg, lines, i).issues.len() == 1,
        spec_scan_run(reg, lines, i).issues[0] is UnrecognizedSchema,
    decreases i,
{
    if i == 1 {
        let fs = spec_split_fields(lines[0]).unwrap();
        assert(spec_scan_run(reg, lines, 0) == scan_init());
        assert(spec_scan_run(reg, lines, 1) == spec_scan_step(reg, scan_init(), lines[0], 0));
        assert(spec_scan_run(reg, lines, 1) =~= (ScanModel {
            active: ActiveV::Skipping,
            terminated: false,
            records: Seq::empty(),
            issues: spec_scan_run(reg, lines, 1).issues,
        }));
    } else {
        lemma_skipping_block_helper(reg, lines, i - 1);
        let m = spec_scan_run(reg, lines, i - 1);
        assert(spec_split_fields(lines[i - 1]) matches Some(fs) && spec_row_kind(fs)
            == RowKind::Data);
        assert(spec_scan_run(reg, lines, i) == spec_scan_step(
            reg,
            m,
            lines[i - 1],
            (i - 1) as usize,
        ));
        assert(spec_scan_step(reg, m, lines[i - 1], (i - 1) as usize) == m);
    }
}

/// A header row with an unregistered key, followed by any run of data rows,
/// yields no records and exactly one diagnostic: the unrecognized schema,
/// naming the key.  Scanning goes on after the block.
pub proof fn lemma_unrecognized_block(
    reg: Seq<((Seq<char>, Seq<char>, Seq<char>), RecordKind)>,
    lines: Seq<Seq<char>>,
)
    requires
        lines.len() >= 1,
        match spec_split_fields(lines[0]) {
            Some(fs) => spec_row_kind(fs) == RowKind::Header && fs.len() >= 4 && spec_lookup(
                reg,
                (fs[1], fs[2], fs[3]),
            ) is None,
            None => false,
        },
        forall|j: int|
            1 <= j < lines.len() ==> (#[trigger] spec_split_fields(lines[j]) matches Some(fs)
                && spec_row_kind(fs) == RowKind::Data),
    ensures
        spec_scan(reg, lines).records.len() == 0,
        spec_scan(reg, lines).issues.len() == 1,
        spec_scan(reg, lines).issues[0] is UnrecognizedSchema,
        !spec_scan(reg, lines).terminated,
{
    lemma_skipping_block_helper(reg, lines, lines.len() as int);
}

} // verus!
