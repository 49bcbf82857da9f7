//! Regular time grids: sampling intervals, validated compact timestamps,
//! and generation of timestamp sequences between two readings.

use vstd::prelude::*;

use crate::civil::CivilDateTime;
use crate::civil::TimestampFault;
use crate::civil::add_seconds;
use crate::civil::format_compact14;
use crate::civil::parse_compact14;
use crate::civil::spec_add_seconds;
use crate::civil::spec_format_compact14;
use crate::civil::spec_parse_compact14;
use crate::civil::sub_within_day;
use crate::civil::spec_with_sod;
use crate::civil::lemma_add_seconds_index;
use crate::civil::lemma_format_parse_roundtrip;
use crate::civil::valid_civil;

verus! {

/// The sampling intervals that the data feeds publish on.
#[derive(Clone, Copy, Debug, PartialEq, Eq, Structural)]
pub enum Interval {
    FiveMinutes,
    ThirtyMinutes,
}

impl Interval {
    /// Length of the interval in seconds.
    pub open spec fn spec_seconds(&self) -> i64 {
        match self {
            Interval::FiveMinutes => 300,
            Interval::ThirtyMinutes => 1800,
        }
    }

    /// Returns the interval length in seconds.
    pub fn seconds(&self) -> (r: i64)
        ensures
            r == self.spec_seconds(),
    {
        match self {
            Interval::FiveMinutes => 5 * 60,
            Interval::ThirtyMinutes => 30 * 60,
        }
    }
}

/// A timestamp string validated against the compact `YYYYMMDDHHMMSS`
/// pattern and kept exactly as written.
#[derive(Clone, Debug)]
pub struct TimestampStrftime {
    text: String,
}

impl View for TimestampStrftime {
    type V = Seq<char>;

    closed spec fn view(&self) -> Seq<char> {
        self.text@
    }
}

impl TimestampStrftime {
    /// Accepts a string exactly when it is a compact timestamp naming a
    /// real calendar reading, and keeps it as written.
    pub fn try_from(value: &str) -> (r: Result<TimestampStrftime, TimestampFault>)
        ensures
            match r {
                Ok(t) => spec_parse_compact14(value@) is Some && t@ == value@,
                Err(f) => spec_parse_compact14(value@) is None && f
                    == TimestampFault::MalformedTimestamp,
            },
    {
        match parse_compact14(value) {
            Some(_) => Ok(TimestampStrftime { text: String::from_str(value) }),
            None => Err(TimestampFault::MalformedTimestamp),
        }
    }

    /// Renders the timestamp inside its display wrapper.
    pub fn to_string(&self) -> (r: String)
        ensures
            r@ == "TimestampStrftimeRange ("@ + self@ + ")"@,
    {
        let mut s = String::from_str("TimestampStrftimeRange (");
        s.append(self.text.as_str());
        s.append(")");
        s
    }
}

/// The start adjustment: the start is moved back to the previous grid
/// point, where it is not already on the grid.
pub open spec fn spec_adjust_start(dt: CivilDateTime, inc: Interval) -> CivilDateTime {
    let a = (dt.minute * 60 + dt.second) % (inc.spec_seconds() as int);
    if a != 0 {
        spec_with_sod(dt, dt.spec_seconds_of_day() - a)
    } else {
        dt
    }
}

/// The end adjustment: the end is moved forward to the next grid point,
/// where it is not already on the grid.
pub open spec fn spec_adjust_end(dt: CivilDateTime, inc: Interval) -> CivilDateTime {
    let a = inc.spec_seconds() as int - (dt.minute * 60 + dt.second) % (inc.spec_seconds() as int);
    if a != inc.spec_seconds() as int {
        spec_add_seconds(dt, a)
    } else {
        dt
    }
}

/// An end date the generator can step past without leaving the calendar.
pub open spec fn grid_end_ok(end: CivilDateTime) -> bool {
    end.year < 9999 || end.month == 1
}

/// Generates timestamps from an adjusted start to an adjusted end on a
/// regular grid.
pub struct TimestampGenerator {
    pub start_date: CivilDateTime,
    pub end_date: CivilDateTime,
    pub increment: Interval,
}

impl TimestampGenerator {
    /// The generator's dates are real readings it can step through.
    pub open spec fn wf(&self) -> bool {
        valid_civil(self.start_date) && valid_civil(self.end_date) && grid_end_ok(self.end_date)
            && (self.start_date.year < 9999 || self.start_date.month < 12 || self.start_date.day
            < 31)
    }

    /// Builds a generator, aligning the start back and the end forward to
    /// the grid.
    pub fn new(start_date: CivilDateTime, end_date: CivilDateTime, increment: Interval) -> (r:
        TimestampGenerator)
        requires
            valid_civil(start_date),
            valid_civil(end_date),
            start_date.year <= 9998,
            end_date.year <= 9998,
        ensures
            r.increment == increment,
            r.start_date == spec_adjust_start(start_date, increment),
            r.end_date == spec_adjust_end(end_date, increment),
            r.wf(),
    {
        let mut generator = TimestampGenerator { start_date, end_date, increment };
        generator.adjust_start_date();
        generator.adjust_end_date();
        proof {
            assert(spec_adjust_start(start_date, increment).year == start_date.year);
        }
        generator
    }

    /// Moves the start back to the previous grid point, where it is not
    /// already on the grid.
    pub fn adjust_start_date(&mut self)
        requires
            valid_civil(old(self).start_date),
        ensures
            final(self).start_date == spec_adjust_start(old(self).start_date, old(self).increment),
            final(self).end_date == old(self).end_date,
            final(self).increment == old(self).increment,
            valid_civil(final(self).start_date),
            final(self).start_date.year == old(self).start_date.year,
    {
        let interval_seconds = self.increment.seconds();
        let start_adjustment = ((self.start_date.minute as i64) * 60 + (self.start_date.second
            as i64)) % interval_seconds;
        if start_adjustment != 0 {
            self.start_date = sub_within_day(&self.start_date, start_adjustment as u32);
        }
    }

    /// Moves the end forward to the next grid point, where it is not
    /// already on the grid.
    pub fn adjust_end_date(&mut self)
        requires
            valid_civil(old(self).end_date),
            old(self).end_date.year <= 9998,
        ensures
            final(self).end_date == spec_adjust_end(old(self).end_date, old(self).increment),
            final(self).start_date == old(self).start_date,
            final(self).increment == old(self).increment,
            valid_civil(final(self).end_date),
            grid_end_ok(final(self).end_date),
    {
        let interval_seconds = self.increment.seconds();
        let end_adjustment = interval_seconds - (((self.end_date.minute as i64) * 60 + (
        self.end_date.second as i64)) % interval_seconds);
        if end_adjustment != interval_seconds {
            self.end_date = add_seconds(&self.end_date, end_adjustment as u32);
        }
    }

    /// Generates the grid readings from the start to the last one at or
    /// before the end, stepping by the increment, each rendered in the
    /// compact pattern.
    pub fn generate(&self) -> (r: Vec<TimestampStrftime>)
        requires
            self.wf(),
        ensures
            r@.map_values(|t: TimestampStrftime| t@) == spec_grid(
                self.start_date,
                self.end_date,
                self.increment,
            ).map_values(|dt: CivilDateTime| spec_format_compact14(dt)),
    {
        let inc = self.increment.seconds() as u32;
        let mut date = self.start_date;
        let mut timestamps: Vec<TimestampStrftime> = Vec::new();
        let ghost mut done: Seq<CivilDateTime> = Seq::empty();
        proof {
            assert(done + spec_grid(date, self.end_date, self.increment) =~= spec_grid(
                self.start_date,
                self.end_date,
                self.increment,
            ));
            assert(timestamps@.map_values(|t: TimestampStrftime| t@) =~= done.map_values(
                |dt: CivilDateTime| spec_format_compact14(dt),
            ));
        }
        while date.le(&self.end_date)
            invariant
                self.wf(),
                inc == self.increment.spec_seconds(),
                valid_civil(date),
                date.year < 9999 || date.month < 12 || date.day < 31,
                spec_grid(self.start_date, self.end_date, self.increment) == done + spec_grid(
                    date,
                    self.end_date,
                    self.increment,
                ),
                timestamps@.map_values(|t: TimestampStrftime| t@) == done.map_values(
                    |dt: CivilDateTime| spec_format_compact14(dt),
                ),
            decreases self.end_date.index() + 3456000 - date.index(),
        {
            let ghost pre_ts = timestamps@;
            let ghost pre_done = done;
            let text = format_compact14(&date);
            proof {
                lemma_format_parse_roundtrip(date);
            }
            match TimestampStrftime::try_from(text.as_str()) {
                Ok(ts) => {
                    timestamps.push(ts);
                },
                Err(_) => {
                    proof {
                        assert(false);
                    }
                },
            }
            let prev = date;
            date = add_seconds(&date, inc);
            proof {
                done = done.push(prev);
                lemma_generate_step(
                    self.start_date,
                    self.end_date,
                    self.increment,
                    prev,
                    pre_ts,
                    pre_done,
                    timestamps@,
                    done,
                );
            }
        }
        proof {
            assert(spec_grid(date, self.end_date, self.increment) =~= Seq::<CivilDateTime>::empty());
            assert(done + spec_grid(date, self.end_date, self.increment) =~= done);
        }
        timestamps
    }
}

/// One step of the generator's bookkeeping: pushing the current reading
/// extends the grid prefix, keeps the rendered sequence aligned, and the
/// next reading stays clear of the calendar's edge.
#[verifier::rlimit(100)]
proof fn lemma_generate_step(
    start: CivilDateTime,
    end: CivilDateTime,
    inc: Interval,
    date: CivilDateTime,
    pre_ts: Seq<TimestampStrftime>,
    pre_done: Seq<CivilDateTime>,
    new_ts: Seq<TimestampStrftime>,
    new_done: Seq<CivilDateTime>,
)
    requires
        valid_civil(date),
        valid_civil(end),
        grid_end_ok(end),
        date.year < 9999 || date.month < 12 || date.day < 31,
        date.index() <= end.index(),
        new_ts.len() == pre_ts.len() + 1,
        forall|k: int| 0 <= k < pre_ts.len() ==> new_ts[k] == pre_ts[k],
        new_ts.last()@ == spec_format_compact14(date),
        new_done == pre_done.push(date),
        spec_grid(start, end, inc) == pre_done + spec_grid(date, end, inc),
        pre_ts.map_values(|t: TimestampStrftime| t@) == pre_done.map_values(
            |dt: CivilDateTime| spec_format_compact14(dt),
        ),
    ensures
        spec_grid(start, end, inc) == new_done + spec_grid(
            spec_add_seconds(date, inc.spec_seconds() as int),
            end,
            inc,
        ),
        new_ts.map_values(|t: TimestampStrftime| t@) == new_done.map_values(
            |dt: CivilDateTime| spec_format_compact14(dt),
        ),
        spec_add_seconds(date, inc.spec_seconds() as int).year < 9999 || spec_add_seconds(
            date,
            inc.spec_seconds() as int,
        ).month < 12 || spec_add_seconds(date, inc.spec_seconds() as int).day < 31,
{
    let s = inc.spec_seconds() as int;
    let next = spec_add_seconds(date, s);
    assert(spec_grid(date, end, inc) == seq![date] + spec_grid(next, end, inc));
    assert(spec_grid(start, end, inc) =~= new_done + spec_grid(next, end, inc));
    assert(pre_ts.map_values(|t: TimestampStrftime| t@).len() == pre_ts.len());
    assert(pre_done.map_values(|dt: CivilDateTime| spec_format_compact14(dt)).len()
        == pre_done.len());
    assert(pre_ts.len() == pre_done.len());
    assert forall|k: int| 0 <= k < new_ts.len() implies (#[trigger] new_ts[k])@
        == spec_format_compact14(new_done[k]) by {
        if k < new_ts.len() - 1 {
            assert(new_ts[k] == pre_ts[k]);
            assert(new_done[k] == pre_done[k]);
            assert(pre_ts.map_values(|t: TimestampStrftime| t@)[k] == pre_done.map_values(
                |dt: CivilDateTime| spec_format_compact14(dt),
            )[k]);
            assert(pre_ts.map_values(|t: TimestampStrftime| t@)[k] == pre_ts[k]@);
            assert(pre_done.map_values(|dt: CivilDateTime| spec_format_compact14(dt))[k]
                == spec_format_compact14(pre_done[k]));
        } else {
            assert(new_ts[k] == new_ts.last());
            assert(new_done[k] == date);
        }
    }
    assert(new_ts.map_values(|t: TimestampStrftime| t@) =~= new_done.map_values(
        |dt: CivilDateTime| spec_format_compact14(dt),
    ));
    // The reading is at or before the end, so its year and month are
    // bounded by the end's, and one more step stays on the calendar.
    assert(date.year <= end.year);
    if date.year == 9999 {
        assert(date.month <= end.month);
    }
}

/// The grid readings from `start` to the last one at or before `end`.
pub open spec fn spec_grid(start: CivilDateTime, end: CivilDateTime, inc: Interval) -> Seq<
    CivilDateTime,
>
    decreases end.index() + 3456000 - start.index()
        when valid_civil(start)
    via spec_grid_decreases
{
    if start.index() > end.index() {
        Seq::empty()
    } else {
        seq![start] + spec_grid(spec_add_seconds(start, inc.spec_seconds() as int), end, inc)
    }
}

#[via_fn]
proof fn spec_grid_decreases(start: CivilDateTime, end: CivilDateTime, inc: Interval) {
    if start.index() <= end.index() {
        lemma_add_seconds_index(start, inc.spec_seconds() as int);
    }
}

} // verus!
