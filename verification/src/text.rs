//! Character-level text utilities shared by the parsers.

use vstd::prelude::*;
use vstd::string::StrSliceExecFns;

verus! {

/// Turns a string slice into the vector of its characters, in order.
pub fn chars_of(s: &str) -> (r: Vec<char>)
    ensures
        r@ == s@,
{
    let n = s.unicode_len();
    let mut r: Vec<char> = Vec::new();
    let mut i: usize = 0;
    while i < n
        invariant
            n == s@.len(),
            i <= n,
            r@ == s@.take(i as int),
        decreases n - i,
    {
        let c = s.get_char(i);
        r.push(c);
        proof {
            assert(r@ =~= s@.take(i as int + 1));
        }
        i += 1;
    }
    proof {
        assert(s@.take(n as int) =~= s@);
    }
    r
}

/// Relies on `core::iter::Iterator::collect` building a `String` from
/// characters: the result holds exactly the given characters in order.
#[verifier::external_body]
pub(crate) fn string_from_chars(v: &Vec<char>) -> (r: String)
    ensures
        r@ == v@,
{
    v.iter().collect()
}

/// Holds when `prefix` is an initial segment of `s`.
pub open spec fn spec_starts_with(s: Seq<char>, prefix: Seq<char>) -> bool {
    prefix.len() <= s.len() && s.take(prefix.len() as int) == prefix
}

/// Returns whether `prefix` is an initial segment of `s`.
pub fn str_starts_with(s: &str, prefix: &str) -> (r: bool)
    ensures
        r == spec_starts_with(s@, prefix@),
{
    let n = s.unicode_len();
    let p = prefix.unicode_len();
    if p > n {
        return false;
    }
    let mut i: usize = 0;
    while i < p
        invariant
            p <= n,
            n == s@.len(),
            p == prefix@.len(),
            i <= p,
            forall|j: int| 0 <= j < i ==> s@[j] == prefix@[j],
        decreases p - i,
    {
        if s.get_char(i) != prefix.get_char(i) {
            assert(s@.take(p as int)[i as int] != prefix@[i as int]);
            return false;
        }
        i += 1;
    }
    proof {
        assert(s@.take(p as int) =~= prefix@);
    }
    true
}

/// Returns whether the two string slices hold the same characters.
pub fn str_eq(a: &str, b: &str) -> (r: bool)
    ensures
        r == (a@ == b@),
{
    let n = a.unicode_len();
    if n != b.unicode_len() {
        return false;
    }
    let mut i: usize = 0;
    while i < n
        invariant
            n == a@.len(),
            n == b@.len(),
            i <= n,
            forall|j: int| 0 <= j < i ==> a@[j] == b@[j],
        decreases n - i,
    {
        if a.get_char(i) != b.get_char(i) {
            return false;
        }
        i += 1;
    }
    proof {
        assert(a@ =~= b@);
    }
    true
}

/// Case-insensitive equality of two characters, folding ASCII letters only.
pub open spec fn chars_eq_ci(a: char, b: char) -> bool {
    a == b || (97 <= a as u32 <= 122 && a as u32 == b as u32 + 32) || (97 <= b as u32 <= 122
        && b as u32 == a as u32 + 32)
}

/// Case-insensitive equality of two character sequences (ASCII folding).
pub open spec fn seq_eq_ci(a: Seq<char>, b: Seq<char>) -> bool {
    a.len() == b.len() && forall|i: int| 0 <= i < a.len() ==> chars_eq_ci(a[i], b[i])
}

/// Compares two string slices ignoring the case of ASCII letters.
pub fn str_eq_ignore_ascii_case(a: &str, b: &str) -> (r: bool)
    ensures
        r == seq_eq_ci(a@, b@),
{
    let n = a.unicode_len();
    if n != b.unicode_len() {
        return false;
    }
    let mut i: usize = 0;
    while i < n
        invariant
            n == a@.len(),
            n == b@.len(),
            i <= n,
            forall|j: int| 0 <= j < i ==> chars_eq_ci(a@[j], b@[j]),
        decreases n - i,
    {
        let ca = a.get_char(i) as u32;
        let cb = b.get_char(i) as u32;
        let same = ca == cb || (97 <= ca && ca <= 122 && cb + 32 == ca) || (97 <= cb && cb <= 122
            && ca + 32 == cb);
        if !same {
            return false;
        }
        i += 1;
    }
    true
}

/// One step of line splitting: `done` holds the finished lines, `cur` the
/// characters of the line being read.
pub open spec fn lines_step(
    done: Seq<Seq<char>>,
    cur: Seq<char>,
    c: char,
) -> (Seq<Seq<char>>, Seq<char>) {
    if c == '\n' {
        let line = if cur.len() > 0 && cur.last() == '\r' {
            cur.drop_last()
        } else {
            cur
        };
        (done.push(line), Seq::empty())
    } else {
        (done, cur.push(c))
    }
}

/// State of line splitting after consuming the first `i` characters of `s`.
pub open spec fn lines_run(s: Seq<char>, i: int) -> (Seq<Seq<char>>, Seq<char>)
    decreases i,
{
    if i <= 0 {
        (Seq::empty(), Seq::empty())
    } else {
        let prev = lines_run(s, i - 1);
        lines_step(prev.0, prev.1, s[i - 1])
    }
}

/// The lines of `s`: split at `'\n'`, stripping one `'\r'` before each split
/// point; a final line without a terminator is kept as written.
pub open spec fn spec_lines(s: Seq<char>) -> Seq<Seq<char>> {
    let end = lines_run(s, s.len() as int);
    if end.1.len() > 0 {
        end.0.push(end.1)
    } else {
        end.0
    }
}

/// Splits text into lines, as `spec_lines` describes.
pub fn split_lines(s: &str) -> (r: Vec<String>)
    ensures
        r.deep_view() == spec_lines(s@),
{
    let n = s.unicode_len();
    let mut done: Vec<String> = Vec::new();
    let mut cur: Vec<char> = Vec::new();
    let mut i: usize = 0;
    while i < n
        invariant
            n == s@.len(),
            i <= n,
            (done.deep_view(), cur@) == lines_run(s@, i as int),
        decreases n - i,
    {
        let c = s.get_char(i);
        if c == '\n' {
            if cur.len() > 0 && cur[cur.len() - 1] == '\r' {
                cur.pop();
            }
            let line = string_from_chars(&cur);
            done.push(line);
            cur.clear();
        } else {
            cur.push(c);
        }
        proof {
            assert(done.deep_view() =~= lines_run(s@, i + 1).0);
            assert(cur@ =~= lines_run(s@, i + 1).1);
        }
        i += 1;
    }
    if cur.len() > 0 {
        let line = string_from_chars(&cur);
        done.push(line);
    }
    proof {
        assert(done.deep_view() =~= spec_lines(s@));
    }
    done
}

} // verus!
