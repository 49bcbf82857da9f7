//! Grouping parsers: collect data rows under the header rows that open
//! their sections, either one header per section or a run of headers.

use vstd::prelude::*;

use crate::rows::RowKind;
use crate::rows::classify_fields;
use crate::rows::spec_row_kind;
use crate::rows::spec_split_fields;
use crate::rows::split_fields;
use crate::scan::is_end_of_report;
use crate::text::str_eq_ignore_ascii_case;

verus! {

/// One section: a header row's fields and the fields of the data rows
/// grouped under it.
#[derive(Clone, Debug)]
pub struct Section {
    pub information: Vec<String>,
    pub data: Vec<Vec<String>>,
}

impl Section {
    /// View of the section's rows.
    pub open spec fn sec_view(&self) -> (Seq<Seq<char>>, Seq<Seq<Seq<char>>>) {
        (self.information.deep_view(), self.data.deep_view())
    }
}

/// State of the one-header-per-section grouper after some rows.
#[verifier::ext_equal]
pub ghost struct GroupModel {
    pub rows: Seq<(Seq<Seq<char>>, Seq<Seq<Seq<char>>>)>,
    pub current_info: Option<Seq<Seq<char>>>,
    pub current_data: Seq<Seq<Seq<char>>>,
    pub stopped: bool,
}

/// The grouper state before any row.
pub open spec fn group_init() -> GroupModel {
    GroupModel {
        rows: Seq::empty(),
        current_info: None,
        current_data: Seq::empty(),
        stopped: false,
    }
}

/// One step of the one-header-per-section grouper.  A header row closes the
/// open section, if any, and opens a new one; data rows accumulate and are
/// attached to the section open when they are closed out; a terminal
/// control row closes the open section and stops; a row that does not
/// split, or of any other kind, changes nothing.
pub open spec fn group_step(m: GroupModel, line: Seq<char>) -> GroupModel {
    if m.stopped {
        m
    } else {
        match spec_split_fields(line) {
            None => m,
            Some(fs) => match spec_row_kind(fs) {
                RowKind::Header => {
                    let closed = match m.current_info {
                        Some(info) => m.rows.push((info, m.current_data)),
                        None => m.rows,
                    };
                    GroupModel {
                        rows: closed,
                        current_info: Some(fs),
                        current_data: if m.current_info is Some {
                            Seq::empty()
                        } else {
                            m.current_data
                        },
                        stopped: false,
                    }
                },
                RowKind::Data => GroupModel { current_data: m.current_data.push(fs), ..m },
                RowKind::Control => {
                    if is_end_of_report(fs) {
                        let closed = match m.current_info {
                            Some(info) => m.rows.push((info, m.current_data)),
                            None => m.rows,
                        };
                        GroupModel {
                            rows: closed,
                            current_info: None,
                            current_data: if m.current_info is Some {
                                Seq::empty()
                            } else {
                                m.current_data
                            },
                            stopped: true,
                        }
                    } else {
                        m
                    }
                },
                RowKind::Ignore => m,
            },
        }
    }
}

/// Grouper state after the first `i` lines.
pub open spec fn group_run(lines: Seq<Seq<char>>, i: int) -> GroupModel
    decreases i,
{
    if i <= 0 {
        group_init()
    } else {
        group_step(group_run(lines, i - 1), lines[i - 1])
    }
}

/// The sections of one file under the one-header-per-section strategy.  A
/// section still open when the input ends without a terminal control row is
/// not included.
pub open spec fn spec_group_sections(lines: Seq<Seq<char>>) -> Seq<
    (Seq<Seq<char>>, Seq<Seq<Seq<char>>>),
> {
    group_run(lines, lines.len() as int).rows
}

/// Once the grouper has stopped, later lines change nothing.
proof fn lemma_group_stopped(lines: Seq<Seq<char>>, i: int, j: int)
    requires
        0 <= i <= j,
        group_run(lines, i).stopped,
    ensures
        group_run(lines, j) == group_run(lines, i),
    decreases j - i,
{
    if j > i {
        lemma_group_stopped(lines, i, j - 1);
    }
}

/// Groups each file's data rows under the header row that opened their
/// section, as `spec_group_sections` describes.
pub fn parse_csv(lines: &Vec<String>) -> (r: Vec<Section>)
    ensures
        r@.map_values(|s: Section| s.sec_view()) == spec_group_sections(lines.deep_view()),
{
    let ghost lv = lines.deep_view();
    let n = lines.len();
    let mut rows: Vec<Section> = Vec::new();
    let mut current_info: Option<Vec<String>> = None;
    let mut current_data: Vec<Vec<String>> = Vec::new();
    let mut stopped = false;
    let mut i: usize = 0;
    while i < n && !stopped
        invariant
            n == lv.len(),
            lv == lines.deep_view(),
            i <= n,
            group_run(lv, i as int) == (GroupModel {
                rows: rows@.map_values(|s: Section| s.sec_view()),
                current_info: match current_info {
                    Some(info) => Some(info.deep_view()),
                    None => None,
                },
                current_data: current_data.deep_view(),
                stopped: stopped,
            }),
        decreases n - i,
    {
        match split_fields(lines[i].as_str()) {
            None => {},
            Some(fields) => {
                match classify_fields(&fields) {
                    RowKind::Header => {
                        match current_info.take() {
                            Some(info) => {
                                let mut data: Vec<Vec<String>> = Vec::new();
                                core::mem::swap(&mut data, &mut current_data);
                                rows.push(Section { information: info, data });
                            },
                            None => {},
                        }
                        current_info = Some(fields);
                    },
                    RowKind::Data => {
                        current_data.push(fields);
                    },
                    RowKind::Control => {
                        if fields.len() >= 2 && str_eq_ignore_ascii_case(
                            fields[1].as_str(),
                            "END OF REPORT",
                        ) {
                            match current_info.take() {
                                Some(info) => {
                                    let mut data: Vec<Vec<String>> = Vec::new();
                                    core::mem::swap(&mut data, &mut current_data);
                                    rows.push(Section { information: info, data });
                                },
                                None => {},
                            }
                            stopped = true;
                        }
                    },
                    RowKind::Ignore => {},
                }
            },
        }
        proof {
            assert(rows@.map_values(|s: Section| s.sec_view()) =~~= group_run(lv, i + 1).rows);
            assert(current_data.deep_view() =~~= group_run(lv, i + 1).current_data);
            assert(group_run(lv, i + 1) =~~= (GroupModel {
                rows: rows@.map_values(|s: Section| s.sec_view()),
                current_info: match current_info {
                    Some(info) => Some(info.deep_view()),
                    None => None,
                },
                current_data: current_data.deep_view(),
                stopped: stopped,
            }));
        }
        i += 1;
    }
    proof {
        if stopped {
            lemma_group_stopped(lv, i as int, n as int);
        }
    }
    rows
}

/// One run of consecutive header rows with the data rows that follow them,
/// both trimmed of their four leading tag fields.
#[derive(Clone, Debug)]
pub struct ParsedData {
    pub headers: Vec<Vec<String>>,
    pub data: Vec<Vec<String>>,
}

impl ParsedData {
    /// View of the block's rows.
    pub open spec fn pd_view(&self) -> (Seq<Seq<Seq<char>>>, Seq<Seq<Seq<char>>>) {
        (self.headers.deep_view(), self.data.deep_view())
    }
}

/// State of the header-run grouper: finished blocks, the headers and data
/// rows of the block being read, and the kind of the last header or data
/// row seen.
pub struct ParsingState {
    pub parsed_data_sets: Vec<ParsedData>,
    pub current_headers: Vec<Vec<String>>,
    pub current_data: Vec<Vec<String>>,
    pub last_row_type: RowKind,
}

impl ParsingState {
    /// View of the finished blocks.
    pub open spec fn sets_view(&self) -> Seq<(Seq<Seq<Seq<char>>>, Seq<Seq<Seq<char>>>)> {
        self.parsed_data_sets@.map_values(|p: ParsedData| p.pd_view())
    }

    /// Creates the state before any row.
    pub fn new() -> (r: ParsingState)
        ensures
            r.sets_view() =~= Seq::<(Seq<Seq<Seq<char>>>, Seq<Seq<Seq<char>>>)>::empty(),
            r.current_headers.deep_view() =~= Seq::<Seq<Seq<char>>>::empty(),
            r.current_data.deep_view() =~= Seq::<Seq<Seq<char>>>::empty(),
            r.last_row_type == RowKind::Control,
    {
        ParsingState {
            parsed_data_sets: Vec::new(),
            current_headers: Vec::new(),
            current_data: Vec::new(),
            last_row_type: RowKind::Control,
        }
    }

    /// Closes the block being read, if it holds anything, and starts a new
    /// one.
    pub fn start_new_data_set(&mut self)
        ensures
            final(self).sets_view() == if old(self).current_headers.deep_view().len() > 0
                || old(self).current_data.deep_view().len() > 0 {
                old(self).sets_view().push(
                    (old(self).current_headers.deep_view(), old(self).current_data.deep_view()),
                )
            } else {
                old(self).sets_view()
            },
            final(self).current_headers.deep_view() =~= Seq::<Seq<Seq<char>>>::empty(),
            final(self).current_data.deep_view() =~= Seq::<Seq<Seq<char>>>::empty(),
            final(self).last_row_type == old(self).last_row_type,
            old(self).current_headers@.len() == 0 && old(self).current_data@.len() == 0
                ==> final(self).current_headers@ == old(self).current_headers@
                && final(self).current_data@ == old(self).current_data@,
    {
        if self.current_headers.len() > 0 || self.current_data.len() > 0 {
            let mut headers: Vec<Vec<String>> = Vec::new();
            let mut data: Vec<Vec<String>> = Vec::new();
            core::mem::swap(&mut headers, &mut self.current_headers);
            core::mem::swap(&mut data, &mut self.current_data);
            self.parsed_data_sets.push(ParsedData { headers, data });
            proof {
                assert(self.sets_view() =~= old(self).sets_view().push(
                    (old(self).current_headers.deep_view(), old(self).current_data.deep_view()),
                ));
            }
        }
    }

    /// Adds one header row to the block being read.
    pub fn add_header(&mut self, header: Vec<String>)
        ensures
            final(self).current_headers.deep_view() == old(self).current_headers.deep_view().push(
                header.deep_view(),
            ),
            final(self).sets_view() == old(self).sets_view(),
            final(self).current_data == old(self).current_data,
            final(self).last_row_type == old(self).last_row_type,
    {
        self.current_headers.push(header);
        proof {
            assert(self.current_headers.deep_view() =~= old(self).current_headers.deep_view().push(
                self.current_headers@.last().deep_view(),
            ));
        }
    }

    /// Adds one data row to the block being read.
    pub fn add_data_row(&mut self, data_row: Vec<String>)
        ensures
            final(self).current_data.deep_view() == old(self).current_data.deep_view().push(
                data_row.deep_view(),
            ),
            final(self).sets_view() == old(self).sets_view(),
            final(self).current_headers == old(self).current_headers,
            final(self).last_row_type == old(self).last_row_type,
    {
        self.current_data.push(data_row);
        proof {
            assert(self.current_data.deep_view() =~= old(self).current_data.deep_view().push(
                self.current_data@.last().deep_view(),
            ));
        }
    }

    /// Closes the last block, if it holds anything.
    pub fn finalize(&mut self)
        ensures
            final(self).sets_view() == if old(self).current_headers.deep_view().len() > 0
                || old(self).current_data.deep_view().len() > 0 {
                old(self).sets_view().push(
                    (old(self).current_headers.deep_view(), old(self).current_data.deep_view()),
                )
            } else {
                old(self).sets_view()
            },
            final(self).current_headers.deep_view() =~= Seq::<Seq<Seq<char>>>::empty(),
            final(self).current_data.deep_view() =~= Seq::<Seq<Seq<char>>>::empty(),
            final(self).last_row_type == old(self).last_row_type,
    {
        self.start_new_data_set();
    }
}

/// Returns the fields after the first `k`.
fn tail_fields(fields: &Vec<String>, k: usize) -> (r: Vec<String>)
    requires
        k <= fields@.len(),
    ensures
        r.deep_view() == fields.deep_view().skip(k as int),
{
    let n = fields.len();
    let mut r: Vec<String> = Vec::new();
    let mut i: usize = k;
    while i < n
        invariant
            k <= i <= n,
            n == fields@.len(),
            r.deep_view() =~= fields.deep_view().subrange(k as int, i as int),
        decreases n - i,
    {
        let ghost pre = r.deep_view();
        r.push(fields[i].clone());
        proof {
            assert(r.deep_view() =~= pre.push(fields.deep_view()[i as int]));
            assert(pre.push(fields.deep_view()[i as int]) =~= fields.deep_view().subrange(
                k as int,
                i + 1,
            ));
        }
        i += 1;
    }
    proof {
        assert(fields.deep_view().subrange(k as int, n as int) =~= fields.deep_view().skip(
            k as int,
        ));
    }
    r
}

/// State of the header-run grouper after some rows.
#[verifier::ext_equal]
pub ghost struct NdModel {
    pub sets: Seq<(Seq<Seq<Seq<char>>>, Seq<Seq<Seq<char>>>)>,
    pub headers: Seq<Seq<Seq<char>>>,
    pub data: Seq<Seq<Seq<char>>>,
    pub last: RowKind,
}

/// The fields of a row after its four leading tag fields.
pub open spec fn tag_tail(fs: Seq<Seq<char>>) -> Seq<Seq<char>> {
    if fs.len() <= 4 {
        Seq::empty()
    } else {
        fs.skip(4)
    }
}

/// Closes the block being read, if it holds anything.
pub open spec fn nd_close(m: NdModel) -> NdModel {
    if m.headers.len() > 0 || m.data.len() > 0 {
        NdModel { sets: m.sets.push((m.headers, m.data)), headers: Seq::empty(), data: Seq::empty(), ..m }
    } else {
        m
    }
}

/// One step of the header-run grouper.  A header row after data rows closes
/// the block; header rows accumulate, trimmed of their four tag fields;
/// data rows with the expected shape accumulate likewise; control and
/// other rows change nothing.
pub open spec fn nd_step(m: NdModel, line: Seq<char>) -> NdModel {
    match spec_split_fields(line) {
        None => m,
        Some(fs) => match spec_row_kind(fs) {
            RowKind::Header => {
                let m1 = if m.last == RowKind::Data {
                    nd_close(m)
                } else {
                    m
                };
                NdModel { headers: m1.headers.push(tag_tail(fs)), last: RowKind::Header, ..m1 }
            },
            RowKind::Data => {
                if fs.len() >= 10 {
                    NdModel { data: m.data.push(tag_tail(fs)), last: RowKind::Data, ..m }
                } else {
                    NdModel { last: RowKind::Data, ..m }
                }
            },
            RowKind::Control => m,
            RowKind::Ignore => m,
        },
    }
}

/// Grouper state after the first `i` lines.
pub open spec fn nd_run(lines: Seq<Seq<char>>, i: int) -> NdModel
    decreases i,
{
    if i <= 0 {
        NdModel { sets: Seq::empty(), headers: Seq::empty(), data: Seq::empty(), last: RowKind::Control }
    } else {
        nd_step(nd_run(lines, i - 1), lines[i - 1])
    }
}

/// The blocks of one file under the header-run strategy, the last block
/// closed at the end of the input.
pub open spec fn spec_nd_sections(lines: Seq<Seq<char>>) -> Seq<
    (Seq<Seq<Seq<char>>>, Seq<Seq<Seq<char>>>),
> {
    nd_close(nd_run(lines, lines.len() as int)).sets
}

/// Groups runs of header rows with the data rows that follow them, each
/// row trimmed of its four leading tag fields, as `spec_nd_sections`
/// describes.
pub fn parse_csv_no_dependencies(lines: &Vec<String>) -> (r: Vec<ParsedData>)
    ensures
        r@.map_values(|p: ParsedData| p.pd_view()) == spec_nd_sections(lines.deep_view()),
{
    let ghost lv = lines.deep_view();
    let n = lines.len();
    let mut state = ParsingState::new();
    let mut i: usize = 0;
    while i < n
        invariant
            n == lv.len(),
            lv == lines.deep_view(),
            i <= n,
            nd_run(lv, i as int) == (NdModel {
                sets: state.sets_view(),
                headers: state.current_headers.deep_view(),
                data: state.current_data.deep_view(),
                last: state.last_row_type,
            }),
        decreases n - i,
    {
        match split_fields(lines[i].as_str()) {
            None => {},
            Some(fields) => {
                match classify_fields(&fields) {
                    RowKind::Header => {
                        if let RowKind::Data = state.last_row_type {
                            state.start_new_data_set();
                        }
                        let k = if fields.len() < 4 {
                            fields.len()
                        } else {
                            4
                        };
                        proof {
                            assert(fields.deep_view().skip(k as int) =~= tag_tail(
                                fields.deep_view(),
                            ));
                        }
                        let row = tail_fields(&fields, k);
                        state.add_header(row);
                        state.last_row_type = RowKind::Header;
                    },
                    RowKind::Data => {
                        if fields.len() >= 10 {
                            let row = tail_fields(&fields, 4);
                            state.add_data_row(row);
                        }
                        state.last_row_type = RowKind::Data;
                    },
                    RowKind::Control => {},
                    RowKind::Ignore => {},
                }
            },
        }
        proof {
            assert(state.sets_view() =~~= nd_run(lv, i + 1).sets);
            assert(nd_run(lv, i + 1) =~~= (NdModel {
                sets: state.sets_view(),
                headers: state.current_headers.deep_view(),
                data: state.current_data.deep_view(),
                last: state.last_row_type,
            }));
        }
        i += 1;
    }
    state.finalize();
    proof {
        assert(state.sets_view() =~~= spec_nd_sections(lv));
    }
    let ParsingState { parsed_data_sets, .. } = state;
    parsed_data_sets
}

} // verus!
