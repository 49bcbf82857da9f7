//! Civil (wall-clock) datetimes, fixed-format timestamp parsing, and
//! normalization of local Sydney time to UTC instants.

use vstd::prelude::*;
use vstd::string::StrSliceExecFns;
use chrono::TimeZone;

use crate::numbers::digit_val;
use crate::numbers::is_digit;
use crate::text::chars_of;
use crate::text::string_from_chars;

verus! {

/// A civil datetime: a wall-clock reading with no attached zone.
#[derive(Clone, Copy, Debug, PartialEq, Eq, Structural)]
pub struct CivilDateTime {
    pub year: u16,
    pub month: u8,
    pub day: u8,
    pub hour: u8,
    pub minute: u8,
    pub second: u8,
}

/// A UTC instant as seconds since the Unix epoch.
#[derive(Clone, Copy, Debug, PartialEq, Eq, Structural)]
pub struct UtcInstant {
    pub epoch_seconds: i64,
}

/// Why a timestamp field could not be normalized.
#[derive(Clone, Copy, Debug, PartialEq, Eq, Structural)]
pub enum TimestampFault {
    /// The text does not match the expected pattern or names no real date.
    MalformedTimestamp,
    /// The wall-clock reading falls in a daylight-saving gap or fold and has
    /// no unique UTC meaning.
    AmbiguousLocalTime,
}

/// Gregorian leap year rule.
pub open spec fn is_leap_year(y: int) -> bool {
    y % 4 == 0 && (y % 100 != 0 || y % 400 == 0)
}

/// Number of days in the given month.
pub open spec fn spec_days_in_month(y: int, m: int) -> int {
    if m == 2 {
        if is_leap_year(y) {
            29
        } else {
            28
        }
    } else if m == 4 || m == 6 || m == 9 || m == 11 {
        30
    } else {
        31
    }
}

/// Returns the number of days in the given month.
pub fn days_in_month(y: u16, m: u8) -> (r: u8)
    ensures
        r == spec_days_in_month(y as int, m as int),
{
    if m == 2 {
        if (y % 4 == 0 && y % 100 != 0) || y % 400 == 0 {
            29
        } else {
            28
        }
    } else if m == 4 || m == 6 || m == 9 || m == 11 {
        30
    } else {
        31
    }
}

/// A real calendar reading with a four-digit year.
pub open spec fn valid_civil(dt: CivilDateTime) -> bool {
    dt.year <= 9999 && 1 <= dt.month <= 12 && 1 <= dt.day <= spec_days_in_month(
        dt.year as int,
        dt.month as int,
    ) && dt.hour < 24 && dt.minute < 60 && dt.second < 60
}

impl CivilDateTime {
    /// Seconds since the start of the day.
    pub open spec fn spec_seconds_of_day(&self) -> int {
        self.hour * 3600 + self.minute * 60 + self.second
    }

    /// A linearization of civil datetimes: later readings get larger values.
    /// The day slots are coarse (every month gets 31 days), which preserves
    /// order without counting real days.
    pub open spec fn index(&self) -> int {
        ((self.year * 12 + self.month) * 31 + self.day) * 86400 + self.spec_seconds_of_day()
    }

    /// Computes the linearization used to order civil datetimes.
    pub fn index_value(&self) -> (r: u64)
        requires
            valid_civil(*self),
        ensures
            r == self.index(),
    {
        (((self.year as u64) * 12 + (self.month as u64)) * 31 + (self.day as u64)) * 86400 + (
        self.hour as u64) * 3600 + (self.minute as u64) * 60 + (self.second as u64)
    }

    /// Whether this reading is no later than `other`.
    pub fn le(&self, other: &CivilDateTime) -> (r: bool)
        requires
            valid_civil(*self),
            valid_civil(*other),
        ensures
            r == (self.index() <= other.index()),
    {
        self.index_value() <= other.index_value()
    }

    /// The minute of the hour.
    pub fn minute(&self) -> (r: u8)
        ensures
            r == self.minute,
    {
        self.minute
    }

    /// The second of the minute.
    pub fn second(&self) -> (r: u8)
        ensures
            r == self.second,
    {
        self.second
    }

    /// The hour of the day.
    pub fn hour(&self) -> (r: u8)
        ensures
            r == self.hour,
    {
        self.hour
    }
}

/// The calendar day after the given one, keeping the time of day.
pub open spec fn spec_next_day(dt: CivilDateTime) -> CivilDateTime {
    if dt.day < spec_days_in_month(dt.year as int, dt.month as int) {
        CivilDateTime { day: (dt.day + 1) as u8, ..dt }
    } else if dt.month < 12 {
        CivilDateTime { month: (dt.month + 1) as u8, day: 1, ..dt }
    } else {
        CivilDateTime { year: (dt.year + 1) as u16, month: 1, day: 1, ..dt }
    }
}

/// Steps to the next calendar day, keeping the time of day.
pub fn next_day(dt: &CivilDateTime) -> (r: CivilDateTime)
    requires
        valid_civil(*dt),
        dt.year < 9999 || dt.month < 12 || dt.day < 31,
    ensures
        r == spec_next_day(*dt),
        valid_civil(r),
        r.index() > dt.index(),
{
    let dim = days_in_month(dt.year, dt.month);
    if dt.day < dim {
        CivilDateTime { day: dt.day + 1, ..*dt }
    } else if dt.month < 12 {
        CivilDateTime { month: dt.month + 1, day: 1, ..*dt }
    } else {
        CivilDateTime { year: dt.year + 1, month: 1, day: 1, ..*dt }
    }
}

/// The same date with the given time of day.
pub open spec fn spec_with_sod(dt: CivilDateTime, t: int) -> CivilDateTime {
    CivilDateTime {
        hour: (t / 3600) as u8,
        minute: ((t % 3600) / 60) as u8,
        second: (t % 60) as u8,
        ..dt
    }
}

/// The reading `s` seconds later, for steps below one day.
pub open spec fn spec_add_seconds(dt: CivilDateTime, s: int) -> CivilDateTime {
    let t = dt.spec_seconds_of_day() + s;
    let (date, tod) = if t < 86400 {
        (dt, t)
    } else {
        (spec_next_day(dt), t - 86400)
    };
    CivilDateTime {
        hour: (tod / 3600) as u8,
        minute: ((tod % 3600) / 60) as u8,
        second: (tod % 60) as u8,
        ..date
    }
}

/// Advances the reading by less than one day.
pub fn add_seconds(dt: &CivilDateTime, s: u32) -> (r: CivilDateTime)
    requires
        valid_civil(*dt),
        s < 86400,
        dt.year < 9999 || dt.month < 12 || dt.day < 31,
    ensures
        r == spec_add_seconds(*dt, s as int),
        valid_civil(r),
        r.index() >= dt.index() + s,
        s > 0 ==> r.index() > dt.index(),
        r.index() <= dt.index() + s + 3456000,
{
    let t = (dt.hour as u32) * 3600 + (dt.minute as u32) * 60 + (dt.second as u32) + s;
    let (date, tod) = if t < 86400 {
        (*dt, t)
    } else {
        (next_day(dt), t - 86400)
    };
    let r = CivilDateTime {
        hour: (tod / 3600) as u8,
        minute: ((tod % 3600) / 60) as u8,
        second: (tod % 60) as u8,
        ..date
    };
    proof {
        assert(tod == (tod / 3600) * 3600 + ((tod % 3600) / 60) * 60 + tod % 60) by (nonlinear_arith);
        assert(tod / 3600 < 24 && (tod % 3600) / 60 < 60 && tod % 60 < 60) by (nonlinear_arith)
            requires
                tod < 86400,
        ;
    }
    r
}

/// Moves the reading earlier within the same day.
pub fn sub_within_day(dt: &CivilDateTime, s: u32) -> (r: CivilDateTime)
    requires
        valid_civil(*dt),
        s <= dt.spec_seconds_of_day(),
    ensures
        valid_civil(r),
        r == spec_with_sod(*dt, dt.spec_seconds_of_day() - s),
        r.year == dt.year && r.month == dt.month && r.day == dt.day,
        r.spec_seconds_of_day() == dt.spec_seconds_of_day() - s,
{
    let t = (dt.hour as u32) * 3600 + (dt.minute as u32) * 60 + (dt.second as u32) - s;
    let r = CivilDateTime {
        hour: (t / 3600) as u8,
        minute: ((t % 3600) / 60) as u8,
        second: (t % 60) as u8,
        ..*dt
    };
    proof {
        assert(t == (t / 3600) * 3600 + ((t % 3600) / 60) * 60 + t % 60) by (nonlinear_arith);
        assert(t / 3600 < 24 && (t % 3600) / 60 < 60 && t % 60 < 60) by (nonlinear_arith)
            requires
                t < 86400,
        ;
    }
    r
}

/// Value of two adjacent digit characters.
pub open spec fn two_digit_val(a: char, b: char) -> int {
    digit_val(a) * 10 + digit_val(b)
}

/// Value of four adjacent digit characters.
pub open spec fn four_digit_val(a: char, b: char, c: char, d: char) -> int {
    digit_val(a) * 1000 + digit_val(b) * 100 + digit_val(c) * 10 + digit_val(d)
}

/// A timestamp in the `YYYY/MM/DD HH:MM:SS` pattern, optionally wrapped in
/// one pair of double quotes, naming a real calendar reading.
pub open spec fn spec_parse_slash_timestamp(s0: Seq<char>) -> Option<CivilDateTime> {
    let s = if s0.len() >= 2 && s0[0] == '"' && s0[s0.len() - 1] == '"' {
        s0.subrange(1, s0.len() - 1)
    } else {
        s0
    };
    if s.len() == 19 && is_digit(s[0]) && is_digit(s[1]) && is_digit(s[2]) && is_digit(s[3])
        && s[4] == '/' && is_digit(s[5]) && is_digit(s[6]) && s[7] == '/' && is_digit(s[8])
        && is_digit(s[9]) && s[10] == ' ' && is_digit(s[11]) && is_digit(s[12]) && s[13] == ':'
        && is_digit(s[14]) && is_digit(s[15]) && s[16] == ':' && is_digit(s[17]) && is_digit(
        s[18],
    ) {
        let dt = CivilDateTime {
            year: four_digit_val(s[0], s[1], s[2], s[3]) as u16,
            month: two_digit_val(s[5], s[6]) as u8,
            day: two_digit_val(s[8], s[9]) as u8,
            hour: two_digit_val(s[11], s[12]) as u8,
            minute: two_digit_val(s[14], s[15]) as u8,
            second: two_digit_val(s[17], s[18]) as u8,
        };
        if valid_civil(dt) {
            Some(dt)
        } else {
            None
        }
    } else {
        None
    }
}

/// Reads two digit characters as a number below 100.
fn read_two(v: &Vec<char>, i: usize) -> (r: Option<u8>)
    requires
        i + 2 <= v@.len(),
    ensures
        match r {
            Some(x) => is_digit(v@[i as int]) && is_digit(v@[i + 1]) && x == two_digit_val(
                v@[i as int],
                v@[i + 1],
            ),
            None => !(is_digit(v@[i as int]) && is_digit(v@[i + 1])),
        },
{
    let n = v.len();
    assert(n == v@.len());
    let a = v[i] as u32;
    let b = v[i + 1] as u32;
    if 48 <= a && a <= 57 && 48 <= b && b <= 57 {
        Some(((a - 48) * 10 + (b - 48)) as u8)
    } else {
        None
    }
}

/// Reads four digit characters as a number below 10000.
fn read_four(v: &Vec<char>, i: usize) -> (r: Option<u16>)
    requires
        i + 4 <= v@.len(),
    ensures
        match r {
            Some(x) => is_digit(v@[i as int]) && is_digit(v@[i + 1]) && is_digit(v@[i + 2])
                && is_digit(v@[i + 3]) && x == four_digit_val(
                v@[i as int],
                v@[i + 1],
                v@[i + 2],
                v@[i + 3],
            ),
            None => !(is_digit(v@[i as int]) && is_digit(v@[i + 1]) && is_digit(v@[i + 2])
                && is_digit(v@[i + 3])),
        },
{
    let n = v.len();
    assert(n == v@.len());
    let a = v[i] as u32;
    let b = v[i + 1] as u32;
    let c = v[i + 2] as u32;
    let d = v[i + 3] as u32;
    if 48 <= a && a <= 57 && 48 <= b && b <= 57 && 48 <= c && c <= 57 && 48 <= d && d <= 57 {
        Some(((a - 48) * 1000 + (b - 48) * 100 + (c - 48) * 10 + (d - 48)) as u16)
    } else {
        None
    }
}

/// Parses a `YYYY/MM/DD HH:MM:SS` timestamp, optionally quote-wrapped.
pub fn parse_slash_timestamp(s: &str) -> (r: Option<CivilDateTime>)
    ensures
        r == spec_parse_slash_timestamp(s@),
{
    let all = chars_of(s);
    let mut v = all;
    if v.len() >= 2 && v[0] == '"' && v[v.len() - 1] == '"' {
        v.pop();
        v.remove(0);
        proof {
            assert(v@ =~= s@.subrange(1, s@.len() - 1));
        }
    }
    if v.len() != 19 {
        return None;
    }
    if !(v[4] == '/' && v[7] == '/' && v[10] == ' ' && v[13] == ':' && v[16] == ':') {
        return None;
    }
    let year = match read_four(&v, 0) {
        Some(x) => x,
        None => {
            return None;
        },
    };
    let month = match read_two(&v, 5) {
        Some(x) => x,
        None => {
            return None;
        },
    };
    let day = match read_two(&v, 8) {
        Some(x) => x,
        None => {
            return None;
        },
    };
    let hour = match read_two(&v, 11) {
        Some(x) => x,
        None => {
            return None;
        },
    };
    let minute = match read_two(&v, 14) {
        Some(x) => x,
        None => {
            return None;
        },
    };
    let second = match read_two(&v, 17) {
        Some(x) => x,
        None => {
            return None;
        },
    };
    let dt = CivilDateTime { year, month, day, hour, minute, second };
    if month < 1 || month > 12 {
        return None;
    }
    if day < 1 || day > days_in_month(year, month) {
        return None;
    }
    if hour > 23 || minute > 59 || second > 59 {
        return None;
    }
    Some(dt)
}

/// A timestamp in the compact `YYYYMMDDHHMMSS` pattern naming a real
/// calendar reading.
pub open spec fn spec_parse_compact14(s: Seq<char>) -> Option<CivilDateTime> {
    if s.len() == 14 && all_digits_14(s) {
        let dt = CivilDateTime {
            year: four_digit_val(s[0], s[1], s[2], s[3]) as u16,
            month: two_digit_val(s[4], s[5]) as u8,
            day: two_digit_val(s[6], s[7]) as u8,
            hour: two_digit_val(s[8], s[9]) as u8,
            minute: two_digit_val(s[10], s[11]) as u8,
            second: two_digit_val(s[12], s[13]) as u8,
        };
        if valid_civil(dt) {
            Some(dt)
        } else {
            None
        }
    } else {
        None
    }
}

/// All fourteen characters are digits.
pub open spec fn all_digits_14(s: Seq<char>) -> bool {
    s.len() >= 14 && is_digit(s[0]) && is_digit(s[1]) && is_digit(s[2]) && is_digit(s[3])
        && is_digit(s[4]) && is_digit(s[5]) && is_digit(s[6]) && is_digit(s[7]) && is_digit(s[8])
        && is_digit(s[9]) && is_digit(s[10]) && is_digit(s[11]) && is_digit(s[12]) && is_digit(
        s[13],
    )
}

/// Parses a compact `YYYYMMDDHHMMSS` timestamp.
pub fn parse_compact14(s: &str) -> (r: Option<CivilDateTime>)
    ensures
        r == spec_parse_compact14(s@),
{
    let v = chars_of(s);
    if v.len() != 14 {
        return None;
    }
    let year = match read_four(&v, 0) {
        Some(x) => x,
        None => {
            return None;
        },
    };
    let month = match read_two(&v, 4) {
        Some(x) => x,
        None => {
            return None;
        },
    };
    let day = match read_two(&v, 6) {
        Some(x) => x,
        None => {
            return None;
        },
    };
    let hour = match read_two(&v, 8) {
        Some(x) => x,
        None => {
            return None;
        },
    };
    let minute = match read_two(&v, 10) {
        Some(x) => x,
        None => {
            return None;
        },
    };
    let second = match read_two(&v, 12) {
        Some(x) => x,
        None => {
            return None;
        },
    };
    let dt = CivilDateTime { year, month, day, hour, minute, second };
    if month < 1 || month > 12 {
        return None;
    }
    if day < 1 || day > days_in_month(year, month) {
        return None;
    }
    if hour > 23 || minute > 59 || second > 59 {
        return None;
    }
    Some(dt)
}

/// A timestamp in the compact `YYYYMMDDHHMM` pattern naming a real calendar
/// reading; the second is zero.
pub open spec fn spec_parse_compact12(s: Seq<char>) -> Option<CivilDateTime> {
    if s.len() == 12 && is_digit(s[0]) && is_digit(s[1]) && is_digit(s[2]) && is_digit(s[3])
        && is_digit(s[4]) && is_digit(s[5]) && is_digit(s[6]) && is_digit(s[7]) && is_digit(s[8])
        && is_digit(s[9]) && is_digit(s[10]) && is_digit(s[11]) {
        let dt = CivilDateTime {
            year: four_digit_val(s[0], s[1], s[2], s[3]) as u16,
            month: two_digit_val(s[4], s[5]) as u8,
            day: two_digit_val(s[6], s[7]) as u8,
            hour: two_digit_val(s[8], s[9]) as u8,
            minute: two_digit_val(s[10], s[11]) as u8,
            second: 0,
        };
        if valid_civil(dt) {
            Some(dt)
        } else {
            None
        }
    } else {
        None
    }
}

/// Parses a compact `YYYYMMDDHHMM` timestamp.
pub fn parse_compact12(s: &str) -> (r: Option<CivilDateTime>)
    ensures
        r == spec_parse_compact12(s@),
{
    let v = chars_of(s);
    if v.len() != 12 {
        return None;
    }
    let year = match read_four(&v, 0) {
        Some(x) => x,
        None => {
            return None;
        },
    };
    let month = match read_two(&v, 4) {
        Some(x) => x,
        None => {
            return None;
        },
    };
    let day = match read_two(&v, 6) {
        Some(x) => x,
        None => {
            return None;
        },
    };
    let hour = match read_two(&v, 8) {
        Some(x) => x,
        None => {
            return None;
        },
    };
    let minute = match read_two(&v, 10) {
        Some(x) => x,
        None => {
            return None;
        },
    };
    let dt = CivilDateTime { year, month, day, hour, minute, second: 0 };
    if month < 1 || month > 12 {
        return None;
    }
    if day < 1 || day > days_in_month(year, month) {
        return None;
    }
    if hour > 23 || minute > 59 {
        return None;
    }
    Some(dt)
}

/// The UTC instant of the given Sydney wall-clock reading, when the zone's
/// rules give it exactly one meaning.
pub uninterp spec fn sydney_epoch_of(
    year: int,
    month: int,
    day: int,
    hour: int,
    minute: int,
    second: int,
) -> Option<i64>;

/// Relies on chrono's `TimeZone::from_local_datetime` instantiated with
/// chrono-tz's `Australia::Sydney` zone table, `MappedLocalTime::single` and
/// `DateTime::timestamp`: a Sydney wall-clock reading is mapped to the UTC
/// instant (seconds since the Unix epoch) when the zone rules give it exactly
/// one meaning, and to nothing when the reading names no real date or falls
/// in a daylight-saving gap or fold.  The result depends on the arguments
/// alone.
#[verifier::external_body]
fn sydney_local_to_epoch(year: u16, month: u8, day: u8, hour: u8, minute: u8, second: u8) -> (r:
    Option<i64>)
    ensures
        r == sydney_epoch_of(
            year as int,
            month as int,
            day as int,
            hour as int,
            minute as int,
            second as int,
        ),
{
    let date = match chrono::NaiveDate::from_ymd_opt(year as i32, month as u32, day as u32) {
        Some(d) => d,
        None => return None,
    };
    let naive = match date.and_hms_opt(hour as u32, minute as u32, second as u32) {
        Some(t) => t,
        None => return None,
    };
    match chrono_tz::Australia::Sydney.from_local_datetime(&naive).single() {
        Some(dt) => Some(dt.timestamp()),
        None => None,
    }
}

/// The UTC instant of a civil reading taken as Sydney local time.
pub open spec fn spec_civil_to_utc(dt: CivilDateTime) -> Option<i64> {
    sydney_epoch_of(
        dt.year as int,
        dt.month as int,
        dt.day as int,
        dt.hour as int,
        dt.minute as int,
        dt.second as int,
    )
}

/// Normalizes a civil reading taken as Sydney local time to a UTC instant.
pub fn civil_to_utc(dt: &CivilDateTime) -> (r: Result<UtcInstant, TimestampFault>)
    ensures
        match spec_civil_to_utc(*dt) {
            Some(t) => r == Ok::<UtcInstant, TimestampFault>(UtcInstant { epoch_seconds: t }),
            None => r == Err::<UtcInstant, TimestampFault>(TimestampFault::AmbiguousLocalTime),
        },
{
    match sydney_local_to_epoch(dt.year, dt.month, dt.day, dt.hour, dt.minute, dt.second) {
        Some(t) => Ok(UtcInstant { epoch_seconds: t }),
        None => Err(TimestampFault::AmbiguousLocalTime),
    }
}

/// What normalizing one timestamp field yields: the unique UTC instant of
/// the named Sydney wall-clock reading, or the fault that stops it.
pub open spec fn spec_sydney_field(s: Seq<char>) -> Result<i64, TimestampFault> {
    match spec_parse_slash_timestamp(s) {
        None => Err(TimestampFault::MalformedTimestamp),
        Some(dt) => match spec_civil_to_utc(dt) {
            Some(t) => Ok(t),
            None => Err(TimestampFault::AmbiguousLocalTime),
        },
    }
}

/// Normalizes one `YYYY/MM/DD HH:MM:SS` field, read as Sydney local time,
/// to a UTC instant.
pub fn deserialize_sydney_datetime_to_utc(s: &str) -> (r: Result<UtcInstant, TimestampFault>)
    ensures
        match spec_sydney_field(s@) {
            Ok(t) => r == Ok::<UtcInstant, TimestampFault>(UtcInstant { epoch_seconds: t }),
            Err(f) => r == Err::<UtcInstant, TimestampFault>(f),
        },
{
    match parse_slash_timestamp(s) {
        None => Err(TimestampFault::MalformedTimestamp),
        Some(dt) => civil_to_utc(&dt),
    }
}

/// Renders a civil reading in the compact `YYYYMMDDHHMMSS` pattern.
pub open spec fn spec_format_compact14(dt: CivilDateTime) -> Seq<char> {
    seq![
        digit_char(dt.year as int / 1000 % 10),
        digit_char(dt.year as int / 100 % 10),
        digit_char(dt.year as int / 10 % 10),
        digit_char(dt.year as int % 10),
        digit_char(dt.month as int / 10 % 10),
        digit_char(dt.month as int % 10),
        digit_char(dt.day as int / 10 % 10),
        digit_char(dt.day as int % 10),
        digit_char(dt.hour as int / 10 % 10),
        digit_char(dt.hour as int % 10),
        digit_char(dt.minute as int / 10 % 10),
        digit_char(dt.minute as int % 10),
        digit_char(dt.second as int / 10 % 10),
        digit_char(dt.second as int % 10),
    ]
}

/// The digit character for a value below ten.
pub open spec fn digit_char(d: int) -> char {
    if d == 0 {
        '0'
    } else if d == 1 {
        '1'
    } else if d == 2 {
        '2'
    } else if d == 3 {
        '3'
    } else if d == 4 {
        '4'
    } else if d == 5 {
        '5'
    } else if d == 6 {
        '6'
    } else if d == 7 {
        '7'
    } else if d == 8 {
        '8'
    } else {
        '9'
    }
}

/// Returns the digit character for a value below ten.
fn digit_char_exec(d: u32) -> (r: char)
    requires
        d < 10,
    ensures
        r == digit_char(d as int),
{
    match d {
        0 => '0',
        1 => '1',
        2 => '2',
        3 => '3',
        4 => '4',
        5 => '5',
        6 => '6',
        7 => '7',
        8 => '8',
        _ => '9',
    }
}

/// Pushes the two digit characters of a value below one hundred.
fn push_two_digits(v: &mut Vec<char>, d: u32)
    requires
        d < 100,
    ensures
        final(v)@ == old(v)@ + seq![digit_char(d as int / 10 % 10), digit_char(d as int % 10)],
{
    v.push(digit_char_exec(d / 10 % 10));
    v.push(digit_char_exec(d % 10));
    proof {
        assert(v@ =~= old(v)@ + seq![digit_char(d as int / 10 % 10), digit_char(d as int % 10)]);
    }
}

/// Renders a civil reading in the compact `YYYYMMDDHHMMSS` pattern.
pub fn format_compact14(dt: &CivilDateTime) -> (r: String)
    requires
        valid_civil(*dt),
    ensures
        r@ == spec_format_compact14(*dt),
{
    let mut v: Vec<char> = Vec::new();
    v.push(digit_char_exec(dt.year as u32 / 1000 % 10));
    v.push(digit_char_exec(dt.year as u32 / 100 % 10));
    push_two_digits(&mut v, dt.year as u32 % 100);
    push_two_digits(&mut v, dt.month as u32);
    push_two_digits(&mut v, dt.day as u32);
    push_two_digits(&mut v, dt.hour as u32);
    push_two_digits(&mut v, dt.minute as u32);
    push_two_digits(&mut v, dt.second as u32);
    proof {
        let y = dt.year as int;
        assert((y % 100) / 10 % 10 == y / 10 % 10 && (y % 100) % 10 == y % 10) by (nonlinear_arith)
            requires
                0 <= y,
        ;
        assert(v@ =~= spec_format_compact14(*dt));
    }
    string_from_chars(&v)
}

/// A UTC instant obtained from a zone-aware normalization.
#[derive(Clone, Copy, Debug, PartialEq, Eq, Structural)]
pub struct DateTimeWithTimeZone(pub UtcInstant);

/// Normalizes one timestamp field under the domain's fixed zone and format,
/// wrapping the instant.
pub fn deserialize_with_sydney_timezone_and_format(s: &str) -> (r: Result<
    DateTimeWithTimeZone,
    TimestampFault,
>)
    ensures
        match spec_sydney_field(s@) {
            Ok(t) => r == Ok::<DateTimeWithTimeZone, TimestampFault>(
                DateTimeWithTimeZone(UtcInstant { epoch_seconds: t }),
            ),
            Err(f) => r == Err::<DateTimeWithTimeZone, TimestampFault>(f),
        },
{
    match deserialize_sydney_datetime_to_utc(s) {
        Ok(t) => Ok(DateTimeWithTimeZone(t)),
        Err(f) => Err(f),
    }
}

/// Each digit character is a digit and carries its value.
pub proof fn lemma_digit_char(d: int)
    requires
        0 <= d < 10,
    ensures
        is_digit(digit_char(d)),
        digit_val(digit_char(d)) == d,
{
}

/// Stepping forward by less than a day strictly increases the
/// linearization, by at most a bounded amount.
pub proof fn lemma_add_seconds_index(start: CivilDateTime, s: int)
    requires
        valid_civil(start),
        1 <= s < 86400,
    ensures
        start.index() < spec_add_seconds(start, s).index(),
        spec_add_seconds(start, s).index() <= start.index() + s + 3456000,
{
    let t = start.spec_seconds_of_day() + s;
    if t < 86400 {
        assert(t == (t / 3600) * 3600 + ((t % 3600) / 60) * 60 + t % 60) by (nonlinear_arith);
        assert(t / 3600 < 24 && (t % 3600) / 60 < 60 && t % 60 < 60) by (nonlinear_arith)
            requires
                0 <= t < 86400,
        ;
    } else {
        let u = t - 86400;
        assert(u == (u / 3600) * 3600 + ((u % 3600) / 60) * 60 + u % 60) by (nonlinear_arith);
        assert(u / 3600 < 24 && (u % 3600) / 60 < 60 && u % 60 < 60) by (nonlinear_arith)
            requires
                0 <= u < 86400,
        ;
    }
}

/// Formatting a real reading in the compact pattern and parsing the result
/// back returns the same reading.
#[verifier::rlimit(100)]
pub proof fn lemma_format_parse_roundtrip(dt: CivilDateTime)
    requires
        valid_civil(dt),
    ensures
        spec_parse_compact14(spec_format_compact14(dt)) == Some(dt),
{
    let s = spec_format_compact14(dt);
    let y = dt.year as int;
    lemma_digit_char(y / 1000 % 10);
    lemma_digit_char(y / 100 % 10);
    lemma_digit_char(y / 10 % 10);
    lemma_digit_char(y % 10);
    lemma_digit_char(dt.month as int / 10 % 10);
    lemma_digit_char(dt.month as int % 10);
    lemma_digit_char(dt.day as int / 10 % 10);
    lemma_digit_char(dt.day as int % 10);
    lemma_digit_char(dt.hour as int / 10 % 10);
    lemma_digit_char(dt.hour as int % 10);
    lemma_digit_char(dt.minute as int / 10 % 10);
    lemma_digit_char(dt.minute as int % 10);
    lemma_digit_char(dt.second as int / 10 % 10);
    lemma_digit_char(dt.second as int % 10);
    assert((y / 1000 % 10) * 1000 + (y / 100 % 10) * 100 + (y / 10 % 10) * 10 + y % 10 == y)
        by (nonlinear_arith)
        requires
            0 <= y <= 9999,
    ;
    let mo = dt.month as int;
    let d = dt.day as int;
    let h = dt.hour as int;
    let mi = dt.minute as int;
    let sec = dt.second as int;
    assert((mo / 10 % 10) * 10 + mo % 10 == mo && (d / 10 % 10) * 10 + d % 10 == d && (h / 10 % 10)
        * 10 + h % 10 == h && (mi / 10 % 10) * 10 + mi % 10 == mi && (sec / 10 % 10) * 10 + sec % 10
        == sec) by (nonlinear_arith)
        requires
            0 <= mo <= 99 && 0 <= d <= 99 && 0 <= h <= 99 && 0 <= mi <= 99 && 0 <= sec <= 99,
    ;
    assert(s.len() == 14);
    assert(all_digits_14(s));
    assert(four_digit_val(s[0], s[1], s[2], s[3]) == y);
    assert(two_digit_val(s[4], s[5]) == mo);
    assert(two_digit_val(s[6], s[7]) == d);
    assert(two_digit_val(s[8], s[9]) == h);
    assert(two_digit_val(s[10], s[11]) == mi);
    assert(two_digit_val(s[12], s[13]) == sec);
    assert(spec_parse_compact14(s) == Some(dt));
}

} // verus!
