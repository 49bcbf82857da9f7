//! Parsing a report link path into its pieces: the directory path, the
//! archive file name, the embedded timestamp and the unique key.

use vstd::prelude::*;
use vstd::string::StrSliceExecFns;

use crate::civil::CivilDateTime;
use crate::civil::TimestampFault;
use crate::civil::parse_compact12;
use crate::civil::spec_parse_compact12;
use crate::text::spec_starts_with;
use crate::text::str_starts_with;

verus! {

/// Why a piece of a report path was rejected.
#[derive(Clone, Debug)]
pub enum ParseError {
    UrlPathBadFormat(String),
    NotZipFileName(String),
    UniqueKeyNotNumber(String),
}

/// Mathematical view of a piece rejection.
pub ghost enum ParseErrorV {
    UrlPathBadFormat(Seq<char>),
    NotZipFileName(Seq<char>),
    UniqueKeyNotNumber(Seq<char>),
}

impl View for ParseError {
    type V = ParseErrorV;

    open spec fn view(&self) -> ParseErrorV {
        match self {
            ParseError::UrlPathBadFormat(m) => ParseErrorV::UrlPathBadFormat(m@),
            ParseError::NotZipFileName(m) => ParseErrorV::NotZipFileName(m@),
            ParseError::UniqueKeyNotNumber(m) => ParseErrorV::UniqueKeyNotNumber(m@),
        }
    }
}

/// Index of the last occurrence of `c` before position `i`, if any.
pub open spec fn rfind_char(s: Seq<char>, i: int, c: char) -> Option<int>
    decreases i when i <= s.len()
{
    if i <= 0 {
        None
    } else if s[i - 1] == c {
        Some(i - 1)
    } else {
        rfind_char(s, i - 1, c)
    }
}

/// Finds the last occurrence of `c` in `s`, if any.
pub fn str_rfind(s: &str, c: char) -> (r: Option<usize>)
    ensures
        match r {
            Some(j) => j < s@.len() && rfind_char(s@, s@.len() as int, c) == Some(j as int),
            None => rfind_char(s@, s@.len() as int, c) is None,
        },
{
    let n = s.unicode_len();
    let mut i: usize = n;
    while i > 0
        invariant
            n == s@.len(),
            i <= n,
            rfind_char(s@, n as int, c) == rfind_char(s@, i as int, c),
        decreases i,
    {
        if s.get_char(i - 1) == c {
            return Some(i - 1);
        }
        i -= 1;
    }
    None
}

/// The string with every trailing occurrence of the suffix removed.
pub open spec fn spec_trim_suffix_all(s: Seq<char>, suf: Seq<char>) -> Seq<char>
    decreases s.len() when suf.len() > 0
{
    if s.len() >= suf.len() && s.skip(s.len() - suf.len()) == suf {
        spec_trim_suffix_all(s.take(s.len() - suf.len()), suf)
    } else {
        s
    }
}

/// Whether `suf` is a final segment of `s`.
pub open spec fn spec_ends_with(s: Seq<char>, suf: Seq<char>) -> bool {
    s.len() >= suf.len() && s.skip(s.len() - suf.len()) == suf
}

/// Returns whether `s` ends with `suf`.
pub fn str_ends_with(s: &str, suf: &str) -> (r: bool)
    ensures
        r == spec_ends_with(s@, suf@),
{
    let n = s.unicode_len();
    let m = suf.unicode_len();
    if m > n {
        return false;
    }
    let tail = s.substring_char(n - m, n);
    let r = crate::text::str_eq(tail, suf);
    proof {
        assert(s@.subrange(n - m, n as int) =~= s@.skip(n - m));
    }
    r
}

/// Removes every trailing occurrence of the suffix.
pub fn trim_suffix_all<'a>(s: &'a str, suf: &str) -> (r: &'a str)
    requires
        suf@.len() > 0,
    ensures
        r@ == spec_trim_suffix_all(s@, suf@),
{
    let m = suf.unicode_len();
    let mut cur = s;
    while str_ends_with(cur, suf)
        invariant
            m == suf@.len(),
            m > 0,
            spec_trim_suffix_all(s@, suf@) == spec_trim_suffix_all(cur@, suf@),
        decreases cur@.len(),
    {
        let n = cur.unicode_len();
        let ghost prev = cur@;
        cur = cur.substring_char(0, n - m);
        proof {
            assert(cur@ =~= prev.take(prev.len() - m));
        }
    }
    cur
}

/// The file-name part of a path: what follows its last slash, or the whole
/// path when it has none.
pub open spec fn spec_file_name(s: Seq<char>) -> Seq<char> {
    match rfind_char(s, s.len() as int, '/') {
        Some(j) => s.skip(j + 1),
        None => s,
    }
}

/// The directory part of a path: everything up to and including its last
/// slash.
pub open spec fn spec_dir_path(s: Seq<char>) -> Seq<char> {
    s.take(s.len() - spec_file_name(s).len())
}

/// A directory path under which report archives are listed: nonempty,
/// absolute, and not itself an archive name.
#[derive(Clone, Debug)]
pub struct UrlPath(pub String);

impl View for UrlPath {
    type V = Seq<char>;

    open spec fn view(&self) -> Seq<char> {
        self.0@
    }
}

impl PartialEq for UrlPath {
    fn eq(&self, o: &UrlPath) -> (r: bool) {
        self.0 == o.0
    }
}

impl vstd::std_specs::cmp::PartialEqSpecImpl for UrlPath {
    open spec fn obeys_eq_spec() -> bool {
        true
    }

    open spec fn eq_spec(&self, o: &UrlPath) -> bool {
        self.0@ == o.0@
    }
}

/// What accepting a directory path yields: the path, or the message that
/// rejects it.
pub open spec fn spec_url_path_check(s: Seq<char>) -> Result<Seq<char>, Seq<char>> {
    if s.len() == 0 {
        Err("URL path is empty."@)
    } else if !spec_starts_with(s, "/"@) {
        Err("URL path does not start with '/'. "@ + s)
    } else if spec_ends_with(s, ".zip"@) {
        Err("URL path ends with '.zip'. "@ + s)
    } else {
        Ok(s)
    }
}

impl UrlPath {
    /// Accepts a nonempty absolute path that does not name an archive.
    pub fn from_str(s: &str) -> (r: Result<UrlPath, ParseError>)
        ensures
            match r {
                Ok(p) => spec_url_path_check(s@) == Ok::<Seq<char>, Seq<char>>(p@),
                Err(e) => match e@ {
                    ParseErrorV::UrlPathBadFormat(m) => spec_url_path_check(s@) == Err::<
                        Seq<char>,
                        Seq<char>,
                    >(m),
                    _ => false,
                },
            },
    {
        if s.unicode_len() == 0 {
            Err(ParseError::UrlPathBadFormat(String::from_str("URL path is empty.")))
        } else if !str_starts_with(s, "/") {
            let mut m = String::from_str("URL path does not start with '/'. ");
            m.append(s);
            Err(ParseError::UrlPathBadFormat(m))
        } else if str_ends_with(s, ".zip") {
            let mut m = String::from_str("URL path ends with '.zip'. ");
            m.append(s);
            Err(ParseError::UrlPathBadFormat(m))
        } else {
            Ok(UrlPath(String::from_str(s)))
        }
    }
}

/// An archive file name: nonempty and ending in `.zip`.
#[derive(Clone, Debug)]
pub struct ZipFileName(pub String);

impl View for ZipFileName {
    type V = Seq<char>;

    open spec fn view(&self) -> Seq<char> {
        self.0@
    }
}

impl PartialEq for ZipFileName {
    fn eq(&self, o: &ZipFileName) -> (r: bool) {
        self.0 == o.0
    }
}

impl vstd::std_specs::cmp::PartialEqSpecImpl for ZipFileName {
    open spec fn obeys_eq_spec() -> bool {
        true
    }

    open spec fn eq_spec(&self, o: &ZipFileName) -> bool {
        self.0@ == o.0@
    }
}

/// What accepting an archive file name yields: the name, or the message
/// that rejects it.
pub open spec fn spec_zip_file_name_check(s: Seq<char>) -> Result<Seq<char>, Seq<char>> {
    if s.len() == 0 {
        Err("ZipFileName is empty"@)
    } else if !spec_ends_with(s, ".zip"@) {
        Err("ZipFileName doesn't end in .zip"@)
    } else {
        Ok(s)
    }
}

impl ZipFileName {
    /// Accepts a nonempty name ending in `.zip`.
    pub fn from_str(s: &str) -> (r: Result<ZipFileName, ParseError>)
        ensures
            match r {
                Ok(p) => spec_zip_file_name_check(s@) == Ok::<Seq<char>, Seq<char>>(p@),
                Err(e) => match e@ {
                    ParseErrorV::NotZipFileName(m) => spec_zip_file_name_check(s@) == Err::<
                        Seq<char>,
                        Seq<char>,
                    >(m),
                    _ => false,
                },
            },
    {
        if s.unicode_len() == 0 {
            Err(ParseError::NotZipFileName(String::from_str("ZipFileName is empty")))
        } else if !str_ends_with(s, ".zip") {
            Err(ParseError::NotZipFileName(String::from_str("ZipFileName doesn't end in .zip")))
        } else {
            Ok(ZipFileName(String::from_str(s)))
        }
    }
}

/// The unique key taken from an archive file name.  The numeric check is
/// advisory: its outcome does not reject the key, so any string is kept.
#[derive(Clone, Debug)]
pub struct UniqueKey(pub String);

impl View for UniqueKey {
    type V = Seq<char>;

    open spec fn view(&self) -> Seq<char> {
        self.0@
    }
}

impl PartialEq for UniqueKey {
    fn eq(&self, o: &UniqueKey) -> (r: bool) {
        self.0 == o.0
    }
}

impl vstd::std_specs::cmp::PartialEqSpecImpl for UniqueKey {
    open spec fn obeys_eq_spec() -> bool {
        true
    }

    open spec fn eq_spec(&self, o: &UniqueKey) -> bool {
        self.0@ == o.0@
    }
}

impl UniqueKey {
    /// Keeps the key as written.
    pub fn from_str(s: &str) -> (r: Result<UniqueKey, ParseError>)
        ensures
            r matches Ok(p) && p@ == s@,
    {
        Ok(UniqueKey(String::from_str(s)))
    }
}

/// Why a whole report path was rejected.
#[derive(Clone, Debug)]
pub enum ZipReportUrlParseError {
    UrlPathBadFormat(String),
    NotZipFileName(String),
    DateTimeBadFormat,
    UniqueKeyNotNumber(String),
}

/// Mathematical view of a report path rejection.
pub ghost enum ZipReportUrlParseErrorV {
    UrlPathBadFormat(Seq<char>),
    NotZipFileName(Seq<char>),
    DateTimeBadFormat,
    UniqueKeyNotNumber(Seq<char>),
}

impl View for ZipReportUrlParseError {
    type V = ZipReportUrlParseErrorV;

    open spec fn view(&self) -> ZipReportUrlParseErrorV {
        match self {
            ZipReportUrlParseError::UrlPathBadFormat(m) => ZipReportUrlParseErrorV::UrlPathBadFormat(
                m@,
            ),
            ZipReportUrlParseError::NotZipFileName(m) => ZipReportUrlParseErrorV::NotZipFileName(
                m@,
            ),
            ZipReportUrlParseError::DateTimeBadFormat => ZipReportUrlParseErrorV::DateTimeBadFormat,
            ZipReportUrlParseError::UniqueKeyNotNumber(m) => ZipReportUrlParseErrorV::UniqueKeyNotNumber(
                m@,
            ),
        }
    }
}

impl From<ParseError> for ZipReportUrlParseError {
    fn from(err: ParseError) -> (r: Self) {
        match err {
            ParseError::UrlPathBadFormat(msg) => ZipReportUrlParseError::UrlPathBadFormat(msg),
            ParseError::NotZipFileName(msg) => ZipReportUrlParseError::NotZipFileName(msg),
            ParseError::UniqueKeyNotNumber(msg) => ZipReportUrlParseError::UniqueKeyNotNumber(msg),
        }
    }
}

impl vstd::std_specs::convert::FromSpecImpl<ParseError> for ZipReportUrlParseError {
    open spec fn obeys_from_spec() -> bool {
        true
    }

    open spec fn from_spec(err: ParseError) -> Self {
        match err {
            ParseError::UrlPathBadFormat(msg) => ZipReportUrlParseError::UrlPathBadFormat(msg),
            ParseError::NotZipFileName(msg) => ZipReportUrlParseError::NotZipFileName(msg),
            ParseError::UniqueKeyNotNumber(msg) => ZipReportUrlParseError::UniqueKeyNotNumber(msg),
        }
    }
}

/// A parsed report path.
#[derive(Debug)]
pub struct ZipReportUrlPath {
    pub url_path: UrlPath,
    pub file_name: ZipFileName,
    pub datetime: CivilDateTime,
    pub unique_key: UniqueKey,
}

/// Mathematical view of a parsed report path.
#[verifier::ext_equal]
pub ghost struct ZipReportUrlPathV {
    pub url_path: Seq<char>,
    pub file_name: Seq<char>,
    pub datetime: CivilDateTime,
    pub unique_key: Seq<char>,
}

impl View for ZipReportUrlPath {
    type V = ZipReportUrlPathV;

    open spec fn view(&self) -> ZipReportUrlPathV {
        ZipReportUrlPathV {
            url_path: self.url_path@,
            file_name: self.file_name@,
            datetime: self.datetime,
            unique_key: self.unique_key@,
        }
    }
}

/// The unique-key part: what follows the last underscore of the trimmed
/// file name.
pub open spec fn spec_key_part(w: Seq<char>) -> Seq<char> {
    match rfind_char(w, w.len() as int, '_') {
        Some(j) => w.skip(j + 1),
        None => w,
    }
}

/// The timestamp part: what stands between the last two underscores of the
/// trimmed file name, or before the only one.
pub open spec fn spec_datetime_part(w: Seq<char>, j: int) -> Seq<char> {
    let head = w.take(j);
    match rfind_char(head, head.len() as int, '_') {
        Some(j2) => head.skip(j2 + 1),
        None => head,
    }
}

/// What parsing a whole report path yields: each piece checked in order,
/// with the first rejection naming the piece.
pub open spec fn spec_parse_report_path(s: Seq<char>) -> Result<
    ZipReportUrlPathV,
    ZipReportUrlParseErrorV,
> {
    let fname = spec_file_name(s);
    if fname.len() == 0 {
        Err(ZipReportUrlParseErrorV::NotZipFileName("Expected a zip file name"@))
    } else {
        let w = spec_trim_suffix_all(fname, ".zip"@);
        match rfind_char(w, w.len() as int, '_') {
            None => Err(ZipReportUrlParseErrorV::DateTimeBadFormat),
            Some(j) => match spec_parse_compact12(spec_datetime_part(w, j)) {
                None => Err(ZipReportUrlParseErrorV::DateTimeBadFormat),
                Some(dt) => match spec_url_path_check(spec_dir_path(s)) {
                    Err(m) => Err(ZipReportUrlParseErrorV::UrlPathBadFormat(m)),
                    Ok(up) => match spec_zip_file_name_check(fname) {
                        Err(m) => Err(ZipReportUrlParseErrorV::NotZipFileName(m)),
                        Ok(fnm) => Ok(
                            ZipReportUrlPathV {
                                url_path: up,
                                file_name: fnm,
                                datetime: dt,
                                unique_key: spec_key_part(w),
                            },
                        ),
                    },
                },
            },
        }
    }
}

impl ZipReportUrlPath {
    /// Parses a report path into its directory path, archive name,
    /// embedded timestamp and unique key, as `spec_parse_report_path`
    /// describes.
    pub fn parse_report_path(report_path: &str) -> (r: Result<
        ZipReportUrlPath,
        ZipReportUrlParseError,
    >)
        ensures
            match r {
                Ok(p) => spec_parse_report_path(report_path@) == Ok::<
                    ZipReportUrlPathV,
                    ZipReportUrlParseErrorV,
                >(p@),
                Err(e) => spec_parse_report_path(report_path@) == Err::<
                    ZipReportUrlPathV,
                    ZipReportUrlParseErrorV,
                >(e@),
            },
    {
        let n = report_path.unicode_len();
        let file_name: &str = match str_rfind(report_path, '/') {
            Some(j) => report_path.substring_char(j + 1, n),
            None => report_path,
        };
        proof {
            assert(file_name@ =~= spec_file_name(report_path@));
        }
        if file_name.unicode_len() == 0 {
            return Err(
                ZipReportUrlParseError::NotZipFileName(String::from_str("Expected a zip file name")),
            );
        }
        let url_path = report_path.substring_char(0, n - file_name.unicode_len());
        proof {
            assert(url_path@ =~= spec_dir_path(report_path@));
        }
        proof {
            reveal_strlit(".zip");
        }
        let without_extension = trim_suffix_all(file_name, ".zip");
        let wn = without_extension.unicode_len();
        let j = match str_rfind(without_extension, '_') {
            Some(j) => j,
            None => {
                return Err(ZipReportUrlParseError::DateTimeBadFormat);
            },
        };
        let unique_key_part = without_extension.substring_char(j + 1, wn);
        proof {
            assert(unique_key_part@ =~= spec_key_part(without_extension@));
        }
        let head = without_extension.substring_char(0, j);
        let datetime_str: &str = match str_rfind(head, '_') {
            Some(j2) => head.substring_char(j2 + 1, j),
            None => head,
        };
        proof {
            assert(head@ =~= without_extension@.take(j as int));
            assert(datetime_str@ =~= spec_datetime_part(without_extension@, j as int));
        }
        let datetime = match parse_compact12(datetime_str) {
            Some(dt) => dt,
            None => {
                return Err(ZipReportUrlParseError::DateTimeBadFormat);
            },
        };
        let url_path = match UrlPath::from_str(url_path) {
            Ok(p) => p,
            Err(e) => {
                return Err(ZipReportUrlParseError::from(e));
            },
        };
        let file_name = match ZipFileName::from_str(file_name) {
            Ok(p) => p,
            Err(e) => {
                return Err(ZipReportUrlParseError::from(e));
            },
        };
        let unique_key = match UniqueKey::from_str(unique_key_part) {
            Ok(p) => p,
            Err(e) => {
                return Err(ZipReportUrlParseError::from(e));
            },
        };
        Ok(ZipReportUrlPath { url_path, file_name, datetime, unique_key })
    }
}

/// A plain wrapper for one piece of a report path, kept as written.
#[derive(Clone, Debug)]
pub struct StringWrapper(pub String);

impl View for StringWrapper {
    type V = Seq<char>;

    open spec fn view(&self) -> Seq<char> {
        self.0@
    }
}

impl PartialEq for StringWrapper {
    fn eq(&self, o: &StringWrapper) -> (r: bool) {
        self.0 == o.0
    }
}

impl vstd::std_specs::cmp::PartialEqSpecImpl for StringWrapper {
    open spec fn obeys_eq_spec() -> bool {
        true
    }

    open spec fn eq_spec(&self, o: &StringWrapper) -> bool {
        self.0@ == o.0@
    }
}

impl StringWrapper {
    /// Keeps the piece as written.
    pub fn from_str(s: &str) -> (r: Result<StringWrapper, TimestampFault>)
        ensures
            r matches Ok(p) && p@ == s@,
    {
        Ok(StringWrapper(String::from_str(s)))
    }
}

/// A parsed report path whose pieces are kept as plain wrapped strings.
#[derive(Debug)]
pub struct ParsedReport {
    pub url_path: StringWrapper,
    pub file_name: StringWrapper,
    pub datetime: CivilDateTime,
    pub unique_key: StringWrapper,
}

/// The pieces of a report path, before any validation: the path with the
/// file name trimmed from its end, the file name, the timestamp text and
/// the unique key.
pub open spec fn spec_report_pieces(s: Seq<char>) -> (Seq<char>, Seq<char>, Seq<char>, Seq<char>) {
    let fname = spec_file_name(s);
    let w = spec_trim_suffix_all(fname, ".zip"@);
    let dts = match rfind_char(w, w.len() as int, '_') {
        Some(j) => spec_datetime_part(w, j),
        None => w,
    };
    (spec_trim_suffix_all(s, fname), fname, dts, spec_key_part(w))
}

impl ParsedReport {
    /// Parses a report path into plain pieces, checking only the embedded
    /// timestamp.  The path must name a file holding an underscore.
    pub fn parse_report_path(report_path: &str) -> (r: Result<ParsedReport, TimestampFault>)
        requires
            spec_file_name(report_path@).len() > 0,
            rfind_char(
                spec_trim_suffix_all(spec_file_name(report_path@), ".zip"@),
                spec_trim_suffix_all(spec_file_name(report_path@), ".zip"@).len() as int,
                '_',
            ) is Some,
        ensures
            match r {
                Ok(p) => spec_parse_compact12(spec_report_pieces(report_path@).2) == Some(
                    p.datetime,
                ) && p.url_path@ == spec_report_pieces(report_path@).0 && p.file_name@
                    == spec_report_pieces(report_path@).1 && p.unique_key@ == spec_report_pieces(
                    report_path@,
                ).3,
                Err(f) => spec_parse_compact12(spec_report_pieces(report_path@).2) is None && f
                    == TimestampFault::MalformedTimestamp,
            },
    {
        let n = report_path.unicode_len();
        let file_name: &str = match str_rfind(report_path, '/') {
            Some(j) => report_path.substring_char(j + 1, n),
            None => report_path,
        };
        proof {
            assert(file_name@ =~= spec_file_name(report_path@));
        }
        let url_path = trim_suffix_all(report_path, file_name);
        proof {
            reveal_strlit(".zip");
        }
        let without_extension = trim_suffix_all(file_name, ".zip");
        let wn = without_extension.unicode_len();
        let j = match str_rfind(without_extension, '_') {
            Some(j) => j,
            None => {
                return Err(TimestampFault::MalformedTimestamp);
            },
        };
        let unique_key_part = without_extension.substring_char(j + 1, wn);
        proof {
            assert(unique_key_part@ =~= spec_key_part(without_extension@));
        }
        let head = without_extension.substring_char(0, j);
        let datetime_str: &str = match str_rfind(head, '_') {
            Some(j2) => head.substring_char(j2 + 1, j),
            None => head,
        };
        proof {
            assert(head@ =~= without_extension@.take(j as int));
            assert(datetime_str@ =~= spec_datetime_part(without_extension@, j as int));
        }
        let datetime = match parse_compact12(datetime_str) {
            Some(dt) => dt,
            None => {
                return Err(TimestampFault::MalformedTimestamp);
            },
        };
        let url_path = match StringWrapper::from_str(url_path) {
            Ok(p) => p,
            Err(_) => {
                return Err(TimestampFault::MalformedTimestamp);
            },
        };
        let file_name = match StringWrapper::from_str(file_name) {
            Ok(p) => p,
            Err(_) => {
                return Err(TimestampFault::MalformedTimestamp);
            },
        };
        let unique_key = match StringWrapper::from_str(unique_key_part) {
            Ok(p) => p,
            Err(_) => {
                return Err(TimestampFault::MalformedTimestamp);
            },
        };
        Ok(ParsedReport { url_path, file_name, datetime, unique_key })
    }
}

} // verus!
