//! Row classifier: splits one line into comma-separated fields, honoring
//! quoted fields, and determines the row kind from the first field.

use vstd::prelude::*;
use vstd::string::StrSliceExecFns;

use crate::text::chars_of;
use crate::text::string_from_chars;

verus! {

/// The kind of one row, determined by its first field.
#[derive(Clone, Copy, Debug, PartialEq, Eq, Structural)]
pub enum RowKind {
    /// First field is `C`: control rows, including the end-of-report marker.
    Control,
    /// First field is `I`: a header (information) row opening a section.
    Header,
    /// First field is `D`: a data row belonging to the active section.
    Data,
    /// Any other first field: the row is skipped.
    Ignore,
}

/// The mode of the field splitter between two characters.
#[derive(Clone, Copy, Debug, PartialEq, Eq, Structural)]
pub enum SplitMode {
    /// At the beginning of a field.
    FieldStart,
    /// Inside an unquoted field.
    Unquoted,
    /// Inside a quoted field.
    Quoted,
    /// Right after a quote character inside a quoted field: either the field
    /// closed, or a doubled quote follows.
    AfterQuote,
    /// The line is structurally malformed.
    Failed,
}

/// One step of field splitting.  `done` holds the finished fields and `cur`
/// the content of the field being read.  A field that begins with a quote is
/// quoted: inside it a doubled quote stands for one literal quote, and the
/// closing quote must be followed by a comma or the end of the line.
pub open spec fn split_step(
    mode: SplitMode,
    done: Seq<Seq<char>>,
    cur: Seq<char>,
    c: char,
) -> (SplitMode, Seq<Seq<char>>, Seq<char>) {
    match mode {
        SplitMode::FieldStart => {
            if c == ',' {
                (SplitMode::FieldStart, done.push(Seq::empty()), Seq::empty())
            } else if c == '"' {
                (SplitMode::Quoted, done, Seq::empty())
            } else {
                (SplitMode::Unquoted, done, Seq::empty().push(c))
            }
        },
        SplitMode::Unquoted => {
            if c == ',' {
                (SplitMode::FieldStart, done.push(cur), Seq::empty())
            } else {
                (SplitMode::Unquoted, done, cur.push(c))
            }
        },
        SplitMode::Quoted => {
            if c == '"' {
                (SplitMode::AfterQuote, done, cur)
            } else {
                (SplitMode::Quoted, done, cur.push(c))
            }
        },
        SplitMode::AfterQuote => {
            if c == '"' {
                (SplitMode::Quoted, done, cur.push('"'))
            } else if c == ',' {
                (SplitMode::FieldStart, done.push(cur), Seq::empty())
            } else {
                (SplitMode::Failed, done, cur)
            }
        },
        SplitMode::Failed => (SplitMode::Failed, done, cur),
    }
}

/// Splitter state after consuming the first `i` characters of `s`.
pub open spec fn split_run(s: Seq<char>, i: int) -> (SplitMode, Seq<Seq<char>>, Seq<char>)
    decreases i,
{
    if i <= 0 {
        (SplitMode::FieldStart, Seq::empty(), Seq::empty())
    } else {
        let prev = split_run(s, i - 1);
        split_step(prev.0, prev.1, prev.2, s[i - 1])
    }
}

/// The fields of one line, or `None` when the line is malformed: an unclosed
/// quoted field, or a closing quote followed by anything but a comma or the
/// end of the line.  An empty line yields one empty field.
pub open spec fn spec_split_fields(s: Seq<char>) -> Option<Seq<Seq<char>>> {
    let end = split_run(s, s.len() as int);
    match end.0 {
        SplitMode::FieldStart => Some(end.1.push(Seq::empty())),
        SplitMode::Unquoted => Some(end.1.push(end.2)),
        SplitMode::AfterQuote => Some(end.1.push(end.2)),
        SplitMode::Quoted => None,
        SplitMode::Failed => None,
    }
}

/// Once the splitter has failed it stays failed.
proof fn lemma_failed_stays(s: Seq<char>, i: int, j: int)
    requires
        0 <= i <= j,
        split_run(s, i).0 == SplitMode::Failed,
    ensures
        split_run(s, j).0 == SplitMode::Failed,
    decreases j - i,
{
    if j > i {
        lemma_failed_stays(s, i, j - 1);
    }
}

/// Splits one line into its fields, as `spec_split_fields` describes.
pub fn split_fields(line: &str) -> (r: Option<Vec<String>>)
    ensures
        match r {
            Some(fields) => Some(fields.deep_view()) == spec_split_fields(line@),
            None => spec_split_fields(line@) is None,
        },
{
    let chars = chars_of(line);
    let n = chars.len();
    let mut mode = SplitMode::FieldStart;
    let mut done: Vec<String> = Vec::new();
    let mut cur: Vec<char> = Vec::new();
    let mut i: usize = 0;
    while i < n
        invariant
            n == line@.len(),
            chars@ == line@,
            i <= n,
            (mode, done.deep_view(), cur@) == split_run(line@, i as int),
            mode != SplitMode::Failed,
            mode == SplitMode::FieldStart ==> cur@ == Seq::<char>::empty(),
        decreases n - i,
    {
        let c = chars[i];
        match mode {
            SplitMode::FieldStart => {
                if c == ',' {
                    let field = string_from_chars(&cur);
                    done.push(field);
                } else if c == '"' {
                    mode = SplitMode::Quoted;
                } else {
                    cur.push(c);
                    mode = SplitMode::Unquoted;
                }
            },
            SplitMode::Unquoted => {
                if c == ',' {
                    let field = string_from_chars(&cur);
                    done.push(field);
                    cur.clear();
                    mode = SplitMode::FieldStart;
                } else {
                    cur.push(c);
                }
            },
            SplitMode::Quoted => {
                if c == '"' {
                    mode = SplitMode::AfterQuote;
                }
                if mode != SplitMode::AfterQuote {
                    cur.push(c);
                }
            },
            SplitMode::AfterQuote => {
                if c == '"' {
                    cur.push('"');
                    mode = SplitMode::Quoted;
                } else if c == ',' {
                    let field = string_from_chars(&cur);
                    done.push(field);
                    cur.clear();
                    mode = SplitMode::FieldStart;
                } else {
                    proof {
                        assert(split_run(line@, i + 1).0 == SplitMode::Failed);
                        lemma_failed_stays(line@, i + 1, line@.len() as int);
                    }
                    return None;
                }
            },
            SplitMode::Failed => {
                proof {
                    assert(false);
                }
            },
        }
        proof {
            assert(done.deep_view() =~~= split_run(line@, i + 1).1);
            assert(cur@ =~= split_run(line@, i + 1).2);
            if mode == SplitMode::FieldStart {
                assert(cur@ =~= Seq::<char>::empty());
            }
        }
        i += 1;
    }
    match mode {
        SplitMode::Quoted => None,
        _ => {
            let field = string_from_chars(&cur);
            done.push(field);
            proof {
                assert(done.deep_view() =~~= spec_split_fields(line@).unwrap());
            }
            Some(done)
        },
    }
}

/// The row kind determined by the first field of a split row.
pub open spec fn spec_row_kind(fields: Seq<Seq<char>>) -> RowKind {
    if fields.len() == 0 {
        RowKind::Ignore
    } else if fields[0] == seq!['C'] {
        RowKind::Control
    } else if fields[0] == seq!['I'] {
        RowKind::Header
    } else if fields[0] == seq!['D'] {
        RowKind::Data
    } else {
        RowKind::Ignore
    }
}

/// Returns whether the string holds exactly the one given character.
fn is_single_char(f: &String, c: char) -> (r: bool)
    ensures
        r == (f@ == seq![c]),
{
    let s = f.as_str();
    if s.unicode_len() == 1 {
        let r = s.get_char(0) == c;
        proof {
            if r {
                assert(f@ =~= seq![c]);
            }
        }
        r
    } else {
        false
    }
}

/// Classifies a split row by its first field.
pub fn classify_fields(fields: &Vec<String>) -> (k: RowKind)
    ensures
        k == spec_row_kind(fields.deep_view()),
{
    if fields.len() == 0 {
        return RowKind::Ignore;
    }
    let first = &fields[0];
    if is_single_char(first, 'C') {
        RowKind::Control
    } else if is_single_char(first, 'I') {
        RowKind::Header
    } else if is_single_char(first, 'D') {
        RowKind::Data
    } else {
        RowKind::Ignore
    }
}

/// Index of the `remaining`-th comma of `s` at or after `i`, if it exists.
pub open spec fn comma_scan(s: Seq<char>, i: int, remaining: int) -> Option<int>
    decreases s.len() - i when 0 <= i
{
    if i >= s.len() {
        None
    } else if s[i] == ',' {
        if remaining <= 1 {
            Some(i)
        } else {
            comma_scan(s, i + 1, remaining - 1)
        }
    } else {
        comma_scan(s, i + 1, remaining)
    }
}

/// The prefix of the line up to (not including) its fourth comma; the whole
/// line when it has fewer than four commas.
pub fn extract_identifier(line: &str) -> (r: &str)
    ensures
        match comma_scan(line@, 0, 4) {
            Some(j) => r@ == line@.take(j),
            None => r@ == line@,
        },
{
    let chars = chars_of(line);
    let n = chars.len();
    let mut commas: u32 = 0;
    let mut i: usize = 0;
    while i < n
        invariant
            n == line@.len(),
            chars@ == line@,
            i <= n,
            commas < 4,
            comma_scan(line@, 0, 4) == comma_scan(line@, i as int, 4 - commas as int),
        decreases n - i,
    {
        if chars[i] == ',' {
            if commas == 3 {
                return line.substring_char(0, i);
            }
            commas += 1;
        }
        i += 1;
    }
    proof {
        assert(line@.take(n as int) =~= line@);
    }
    line
}

/// Index of the `remaining`-th comma byte of `s` at or after `i`, if any.
pub open spec fn byte_comma_scan(s: Seq<u8>, i: int, remaining: int) -> Option<int>
    decreases s.len() - i when 0 <= i
{
    if i >= s.len() {
        None
    } else if s[i] == 44u8 {
        if remaining <= 1 {
            Some(i)
        } else {
            byte_comma_scan(s, i + 1, remaining - 1)
        }
    } else {
        byte_comma_scan(s, i + 1, remaining)
    }
}

/// Where the byte comma scan succeeds, it points at a comma inside `s`.
proof fn lemma_byte_comma_scan_some(s: Seq<u8>, i: int, remaining: int, j: int)
    requires
        0 <= i,
        byte_comma_scan(s, i, remaining) == Some(j),
    ensures
        i <= j < s.len(),
        s[j] == 44u8,
    decreases s.len() - i,
{
    if i < s.len() && !(s[i] == 44u8 && remaining <= 1) {
        if s[i] == 44u8 {
            lemma_byte_comma_scan_some(s, i + 1, remaining - 1, j);
        } else {
            lemma_byte_comma_scan_some(s, i + 1, remaining, j);
        }
    }
}

/// Start of the relevant part of a raw line: right after the fourth comma,
/// or the start of the line when it has fewer than four commas.
pub open spec fn spec_relevant_start(s: Seq<u8>) -> int {
    match byte_comma_scan(s, 0, 4) {
        Some(j) => j + 1,
        None => 0,
    }
}

/// End of the relevant part of a raw line: its length with a trailing
/// carriage-return/line-feed pair or lone line feed removed.
pub open spec fn spec_relevant_end(s: Seq<u8>) -> int {
    if s.len() >= 2 && s[s.len() - 2] == 13u8 && s[s.len() - 1] == 10u8 {
        s.len() - 2
    } else if s.len() >= 1 && s[s.len() - 1] == 10u8 {
        s.len() - 1
    } else {
        s.len() as int
    }
}

/// Index of the fourth comma byte, if the line has one.
fn fourth_comma(bytes: &Vec<u8>) -> (r: Option<usize>)
    ensures
        match r {
            Some(j) => j < bytes@.len() && byte_comma_scan(bytes@, 0, 4) == Some(j as int),
            None => byte_comma_scan(bytes@, 0, 4) is None,
        },
{
    let n = bytes.len();
    let mut commas: u32 = 0;
    let mut i: usize = 0;
    while i < n
        invariant
            n == bytes@.len(),
            i <= n,
            commas < 4,
            byte_comma_scan(bytes@, 0, 4) == byte_comma_scan(bytes@, i as int, 4 - commas as int),
        decreases n - i,
    {
        if bytes[i] == 44u8 {
            if commas == 3 {
                return Some(i);
            }
            commas += 1;
        }
        i += 1;
    }
    None
}

/// The bytes of a raw line after its first four fields, with the line
/// terminator removed.
pub fn get_relevant_byte_slice(line: &[u8]) -> (r: &[u8])
    ensures
        r@ == line@.subrange(spec_relevant_start(line@), spec_relevant_end(line@)),
{
    let bytes = vstd::slice::slice_to_vec(line);
    let n = bytes.len();
    let start: usize = match fourth_comma(&bytes) {
        Some(j) => j + 1,
        None => 0,
    };
    proof {
        if byte_comma_scan(line@, 0, 4) is Some {
            lemma_byte_comma_scan_some(line@, 0, 4, byte_comma_scan(line@, 0, 4).unwrap());
        }
    }
    let end: usize = if n >= 2 && bytes[n - 2] == 13u8 && bytes[n - 1] == 10u8 {
        n - 2
    } else if n >= 1 && bytes[n - 1] == 10u8 {
        n - 1
    } else {
        n
    };
    vstd::slice::slice_subrange(line, start, end)
}

} // verus!
