//! Numeric field parsing: unsigned integers and decimal numbers kept exact
//! as an integer mantissa with a decimal scale.

use vstd::prelude::*;
use vstd::string::StrSliceExecFns;

verus! {

/// Whether `c` is an ASCII decimal digit.
pub open spec fn is_digit(c: char) -> bool {
    48 <= c as u32 <= 57
}

/// Numeric value of one digit character.
pub open spec fn digit_val(c: char) -> int {
    c as u32 - 48
}

/// Whether every character of `s` is a digit.
pub open spec fn all_digits(s: Seq<char>) -> bool {
    forall|i: int| 0 <= i < s.len() ==> is_digit(s[i])
}

/// Numeric value of a digit string, most significant digit first.
pub open spec fn digits_val(s: Seq<char>) -> int
    decreases s.len(),
{
    if s.len() == 0 {
        0
    } else {
        digits_val(s.drop_last()) * 10 + digit_val(s.last())
    }
}

/// The value of a digit string is nonnegative and no prefix exceeds it.
pub proof fn lemma_digits_val_bounds(s: Seq<char>, i: int)
    requires
        all_digits(s),
        0 <= i <= s.len(),
    ensures
        0 <= digits_val(s.take(i)) <= digits_val(s),
    decreases s.len(),
{
    if s.len() == 0 {
        assert(s.take(i) =~= s);
    } else if i == s.len() {
        assert(s.take(i) =~= s);
        lemma_digits_val_bounds(s.drop_last(), s.len() - 1);
        assert(s.drop_last().take(s.len() - 1) =~= s.drop_last());
    } else {
        assert(s.drop_last().take(i) =~= s.take(i));
        lemma_digits_val_bounds(s.drop_last(), i);
    }
}

/// Parses a nonempty run of digits into a `u64`; fails on a non-digit or
/// when the value does not fit.
pub fn parse_digits_u64(v: &Vec<char>) -> (r: Option<u64>)
    ensures
        match r {
            Some(x) => all_digits(v@) && digits_val(v@) <= u64::MAX && x == digits_val(v@),
            None => !all_digits(v@) || digits_val(v@) > u64::MAX,
        },
{
    let n = v.len();
    let mut acc: u64 = 0;
    let mut i: usize = 0;
    while i < n
        invariant
            n == v@.len(),
            i <= n,
            all_digits(v@.take(i as int)),
            acc == digits_val(v@.take(i as int)),
        decreases n - i,
    {
        let c = v[i] as u32;
        if !(48 <= c && c <= 57) {
            return None;
        }
        let d = (c - 48) as u64;
        proof {
            assert(v@.take(i + 1).drop_last() =~= v@.take(i as int));
        }
        let shifted = match acc.checked_mul(10) {
            Some(x) => x,
            None => {
                proof {
                    assert(digits_val(v@.take(i + 1)) > u64::MAX);
                    if all_digits(v@) {
                        lemma_digits_val_bounds(v@, i + 1);
                    }
                }
                return None;
            },
        };
        let next = match shifted.checked_add(d) {
            Some(x) => x,
            None => {
                proof {
                    assert(digits_val(v@.take(i + 1)) > u64::MAX);
                    if all_digits(v@) {
                        lemma_digits_val_bounds(v@, i + 1);
                    }
                }
                return None;
            },
        };
        acc = next;
        proof {
            assert(all_digits(v@.take(i + 1)));
        }
        i += 1;
    }
    proof {
        assert(v@.take(n as int) =~= v@);
    }
    Some(acc)
}

/// An unsigned integer field with an optional leading plus sign.
pub open spec fn spec_parse_u32(s: Seq<char>) -> Option<u32> {
    let digits = if s.len() > 0 && s[0] == '+' {
        s.skip(1)
    } else {
        s
    };
    if digits.len() > 0 && all_digits(digits) && digits_val(digits) <= u32::MAX {
        Some(digits_val(digits) as u32)
    } else {
        None
    }
}

/// Parses an unsigned integer field, as `spec_parse_u32` describes.
pub fn parse_u32(s: &str) -> (r: Option<u32>)
    ensures
        r == spec_parse_u32(s@),
{
    let chars = crate::text::chars_of(s);
    let mut digits = chars;
    if digits.len() > 0 && digits[0] == '+' {
        digits.remove(0);
        proof {
            assert(digits@ =~= s@.skip(1));
        }
    }
    if digits.len() == 0 {
        return None;
    }
    match parse_digits_u64(&digits) {
        Some(x) => {
            if x <= u32::MAX as u64 {
                Some(x as u32)
            } else {
                None
            }
        },
        None => None,
    }
}

/// An optional unsigned integer field: an empty field is absent, anything
/// else must parse as an unsigned integer.
pub open spec fn spec_parse_opt_u32(s: Seq<char>) -> Option<Option<u32>> {
    if s.len() == 0 {
        Some(None)
    } else {
        match spec_parse_u32(s) {
            Some(v) => Some(Some(v)),
            None => None,
        }
    }
}

/// Parses an optional unsigned integer field.
pub fn parse_opt_u32(s: &str) -> (r: Option<Option<u32>>)
    ensures
        r == spec_parse_opt_u32(s@),
{
    if s.unicode_len() == 0 {
        return Some(None);
    }
    match parse_u32(s) {
        Some(v) => Some(Some(v)),
        None => None,
    }
}

/// An exact decimal number: `(-1 if negative) * mantissa / 10^scale`.
#[derive(Clone, Copy, Debug, PartialEq, Eq, Structural)]
pub struct Decimal {
    pub negative: bool,
    pub mantissa: u64,
    pub scale: u8,
}

/// First occurrence of `c` in `s` at or after `i`, if any.
pub open spec fn find_char(s: Seq<char>, i: int, c: char) -> Option<int>
    decreases s.len() - i when 0 <= i
{
    if i >= s.len() {
        None
    } else if s[i] == c {
        Some(i)
    } else {
        find_char(s, i + 1, c)
    }
}

/// A decimal field: an optional sign, a nonempty run of digits, and an
/// optional dot followed by a nonempty run of digits.  The mantissa holds
/// all digits run together; the scale counts the digits after the dot.
pub open spec fn spec_parse_decimal(s: Seq<char>) -> Option<Decimal> {
    let neg = s.len() > 0 && s[0] == '-';
    let t = if s.len() > 0 && (s[0] == '-' || s[0] == '+') {
        s.skip(1)
    } else {
        s
    };
    match find_char(t, 0, '.') {
        None => {
            if t.len() > 0 && all_digits(t) && digits_val(t) <= u64::MAX {
                Some(Decimal { negative: neg, mantissa: digits_val(t) as u64, scale: 0 })
            } else {
                None
            }
        },
        Some(p) => {
            let ip = t.take(p);
            let fp = t.skip(p + 1);
            if ip.len() > 0 && fp.len() > 0 && fp.len() <= u8::MAX && all_digits(ip) && all_digits(
                fp,
            ) && digits_val(ip + fp) <= u64::MAX {
                Some(
                    Decimal {
                        negative: neg,
                        mantissa: digits_val(ip + fp) as u64,
                        scale: fp.len() as u8,
                    },
                )
            } else {
                None
            }
        },
    }
}

/// Where the dot scan succeeds it points at the first dot of `s`.
proof fn lemma_find_char_first(s: Seq<char>, i: int, c: char)
    requires
        0 <= i,
    ensures
        match find_char(s, i, c) {
            Some(j) => i <= j < s.len() && s[j] == c && forall|k: int| i <= k < j ==> s[k] != c,
            None => forall|k: int| i <= k < s.len() ==> s[k] != c,
        },
    decreases s.len() - i,
{
    if i < s.len() && s[i] != c {
        lemma_find_char_first(s, i + 1, c);
    }
}

/// Parses a decimal field, as `spec_parse_decimal` describes.
pub fn parse_decimal(s: &str) -> (r: Option<Decimal>)
    ensures
        r == spec_parse_decimal(s@),
{
    let chars = crate::text::chars_of(s);
    let mut negative = false;
    let mut t = chars;
    if t.len() > 0 && (t[0] == '-' || t[0] == '+') {
        negative = t[0] == '-';
        t.remove(0);
        proof {
            assert(t@ =~= s@.skip(1));
        }
    }
    let n = t.len();
    // Find the first dot, if any.
    let mut dot: Option<usize> = None;
    let mut i: usize = 0;
    while i < n && dot.is_none()
        invariant
            n == t@.len(),
            i <= n,
            match dot {
                None => find_char(t@, 0, '.') == find_char(t@, i as int, '.'),
                Some(d) => d < n && find_char(t@, 0, '.') == Some(d as int),
            },
        decreases n - i,
    {
        if t[i] == '.' {
            dot = Some(i);
        }
        i += 1;
    }
    proof {
        lemma_find_char_first(t@, 0, '.');
    }
    match dot {
        None => {
            if t.len() == 0 {
                return None;
            }
            match parse_digits_u64(&t) {
                Some(x) => Some(Decimal { negative, mantissa: x, scale: 0 }),
                None => None,
            }
        },
        Some(p) => {
            proof {
                assert(find_char(t@, p as int, '.') == Some(p as int));
            }
            let frac_len = n - p - 1;
            if p == 0 || frac_len == 0 || frac_len > u8::MAX as usize {
                return None;
            }
            // All digits of the integer and fraction parts, run together.
            let mut digits: Vec<char> = Vec::new();
            let mut j: usize = 0;
            while j < n
                invariant
                    n == t@.len(),
                    p < n,
                    j <= n,
                    digits@ == if j <= p {
                        t@.take(j as int)
                    } else {
                        t@.take(p as int) + t@.skip(p as int + 1).take(j - p - 1)
                    },
                decreases n - j,
            {
                if j != p {
                    digits.push(t[j]);
                }
                proof {
                    let ip = t@.take(p as int);
                    let fp = t@.skip(p as int + 1);
                    if j + 1 <= p {
                        assert(digits@ =~= t@.take(j + 1));
                    } else {
                        assert(digits@ =~= ip + fp.take(j + 1 - p - 1));
                    }
                }
                j += 1;
            }
            proof {
                let ip = t@.take(p as int);
                let fp = t@.skip(p as int + 1);
                assert(digits@ =~= ip + fp);
                assert(fp.take(n - p - 1) =~= fp);
            }
            match parse_digits_u64(&digits) {
                Some(x) => {
                    proof {
                        let ip = t@.take(p as int);
                        let fp = t@.skip(p as int + 1);
                        assert(all_digits(ip)) by {
                            assert(forall|k: int|
                                0 <= k < ip.len() ==> ip[k] == (ip + fp)[k] && is_digit(
                                    (ip + fp)[k],
                                ));
                        }
                        assert(all_digits(fp)) by {
                            assert(forall|k: int|
                                0 <= k < fp.len() ==> fp[k] == (ip + fp)[ip.len() + k] && is_digit(
                                    (ip + fp)[ip.len() + k],
                                ));
                        }
                    }
                    Some(Decimal { negative, mantissa: x, scale: frac_len as u8 })
                },
                None => {
                    proof {
                        let ip = t@.take(p as int);
                        let fp = t@.skip(p as int + 1);
                        if all_digits(ip) && all_digits(fp) {
                            assert(all_digits(ip + fp));
                        }
                    }
                    None
                },
            }
        },
    }
}

/// An optional decimal field: an empty field is absent.
pub open spec fn spec_parse_opt_decimal(s: Seq<char>) -> Option<Option<Decimal>> {
    if s.len() == 0 {
        Some(None)
    } else {
        match spec_parse_decimal(s) {
            Some(v) => Some(Some(v)),
            None => None,
        }
    }
}

/// Parses an optional decimal field.
pub fn parse_opt_decimal(s: &str) -> (r: Option<Option<Decimal>>)
    ensures
        r == spec_parse_opt_decimal(s@),
{
    if s.unicode_len() == 0 {
        return Some(None);
    }
    match parse_decimal(s) {
        Some(v) => Some(Some(v)),
        None => None,
    }
}

} // verus!
