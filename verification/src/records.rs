//! The typed record variants the parser emits, and the deserializers that
//! build them from the fields of one data row.

use vstd::prelude::*;
use vstd::string::StrSliceExecFns;

use crate::civil::TimestampFault;
use crate::civil::UtcInstant;
use crate::civil::spec_sydney_field;
use crate::civil::deserialize_sydney_datetime_to_utc;
use crate::numbers::Decimal;
use crate::numbers::spec_parse_opt_decimal;
use crate::numbers::spec_parse_decimal;
use crate::numbers::spec_parse_opt_u32;
use crate::numbers::parse_opt_decimal;
use crate::numbers::parse_decimal;
use crate::numbers::parse_opt_u32;
use crate::rows::spec_split_fields;
use crate::rows::split_fields;
use crate::text::spec_starts_with;
use crate::text::str_starts_with;

verus! {

/// Why one data row could not be deserialized.
#[derive(Clone, Copy, Debug, PartialEq, Eq, Structural)]
pub enum RowFault {
    /// The row does not have the number of fields its schema expects.
    MalformedRow,
    /// The named field does not convert to its declared numeric type.
    FieldTypeError { index: usize },
    /// The named field does not match the timestamp pattern.
    MalformedTimestamp { index: usize },
    /// The named field names a wall-clock reading with no unique UTC meaning.
    AmbiguousLocalTime { index: usize },
}

/// The row fault standing for a timestamp fault at the given field.
pub open spec fn spec_ts_fault(f: TimestampFault, index: usize) -> RowFault {
    match f {
        TimestampFault::MalformedTimestamp => RowFault::MalformedTimestamp { index },
        TimestampFault::AmbiguousLocalTime => RowFault::AmbiguousLocalTime { index },
    }
}

/// An optional text field: an empty field is absent.
pub open spec fn spec_opt_text(s: Seq<char>) -> Option<Seq<char>> {
    if s.len() == 0 {
        None
    } else {
        Some(s)
    }
}

/// View of an optional owned string.
pub open spec fn opt_string_view(o: Option<String>) -> Option<Seq<char>> {
    match o {
        Some(s) => Some(s@),
        None => None,
    }
}

/// Reads a required text field.
fn field_string(fields: &Vec<String>, i: usize) -> (r: String)
    requires
        i < fields@.len(),
    ensures
        r@ == fields.deep_view()[i as int],
{
    fields[i].clone()
}

/// Reads an optional text field.
fn field_opt_string(fields: &Vec<String>, i: usize) -> (r: Option<String>)
    requires
        i < fields@.len(),
    ensures
        opt_string_view(r) == spec_opt_text(fields.deep_view()[i as int]),
{
    if fields[i].as_str().unicode_len() == 0 {
        None
    } else {
        Some(fields[i].clone())
    }
}

/// Reads an optional unsigned integer field.
fn field_opt_u32(fields: &Vec<String>, i: usize) -> (r: Result<Option<u32>, RowFault>)
    requires
        i < fields@.len(),
    ensures
        match r {
            Ok(v) => spec_parse_opt_u32(fields.deep_view()[i as int]) == Some(v),
            Err(f) => spec_parse_opt_u32(fields.deep_view()[i as int]) is None && f
                == (RowFault::FieldTypeError { index: i }),
        },
{
    match parse_opt_u32(fields[i].as_str()) {
        Some(v) => Ok(v),
        None => Err(RowFault::FieldTypeError { index: i }),
    }
}

/// Reads an optional decimal field.
fn field_opt_decimal(fields: &Vec<String>, i: usize) -> (r: Result<Option<Decimal>, RowFault>)
    requires
        i < fields@.len(),
    ensures
        match r {
            Ok(v) => spec_parse_opt_decimal(fields.deep_view()[i as int]) == Some(v),
            Err(f) => spec_parse_opt_decimal(fields.deep_view()[i as int]) is None && f
                == (RowFault::FieldTypeError { index: i }),
        },
{
    match parse_opt_decimal(fields[i].as_str()) {
        Some(v) => Ok(v),
        None => Err(RowFault::FieldTypeError { index: i }),
    }
}

/// Reads a required decimal field.
fn field_decimal(fields: &Vec<String>, i: usize) -> (r: Result<Decimal, RowFault>)
    requires
        i < fields@.len(),
    ensures
        match r {
            Ok(v) => spec_parse_decimal(fields.deep_view()[i as int]) == Some(v),
            Err(f) => spec_parse_decimal(fields.deep_view()[i as int]) is None && f
                == (RowFault::FieldTypeError { index: i }),
        },
{
    match parse_decimal(fields[i].as_str()) {
        Some(v) => Ok(v),
        None => Err(RowFault::FieldTypeError { index: i }),
    }
}

/// Reads a timestamp field, normalized from Sydney local time to UTC.
fn field_ts(fields: &Vec<String>, i: usize) -> (r: Result<UtcInstant, RowFault>)
    requires
        i < fields@.len(),
    ensures
        match r {
            Ok(t) => spec_sydney_field(fields.deep_view()[i as int]) == Ok::<i64, TimestampFault>(
                t.epoch_seconds,
            ),
            Err(f) => match spec_sydney_field(fields.deep_view()[i as int]) {
                Ok(_) => false,
                Err(tf) => f == spec_ts_fault(tf, i),
            },
        },
{
    match deserialize_sydney_datetime_to_utc(fields[i].as_str()) {
        Ok(t) => Ok(t),
        Err(TimestampFault::MalformedTimestamp) => Err(RowFault::MalformedTimestamp { index: i }),
        Err(TimestampFault::AmbiguousLocalTime) => Err(RowFault::AmbiguousLocalTime { index: i }),
    }
}

/// One interconnector flow reading.
#[derive(Clone, Debug)]
pub struct Interconnector {
    pub csv_row_identifier: String,
    pub category: String,
    pub report_type: String,
    pub report_type_int: String,
    pub settlement_date: UtcInstant,
    pub run_no: Option<u32>,
    pub interconnector_id: Option<String>,
    pub period_id: Option<u32>,
    pub metered_mw_flow: Option<Decimal>,
    pub mw_flow: Option<Decimal>,
    pub mw_losses: Option<Decimal>,
    pub last_changed: Option<String>,
}

/// Mathematical view of an interconnector reading.
#[verifier::ext_equal]
pub ghost struct InterconnectorV {
    pub csv_row_identifier: Seq<char>,
    pub category: Seq<char>,
    pub report_type: Seq<char>,
    pub report_type_int: Seq<char>,
    pub settlement_date: i64,
    pub run_no: Option<u32>,
    pub interconnector_id: Option<Seq<char>>,
    pub period_id: Option<u32>,
    pub metered_mw_flow: Option<Decimal>,
    pub mw_flow: Option<Decimal>,
    pub mw_losses: Option<Decimal>,
    pub last_changed: Option<Seq<char>>,
}

impl View for Interconnector {
    type V = InterconnectorV;

    open spec fn view(&self) -> InterconnectorV {
        InterconnectorV {
            csv_row_identifier: self.csv_row_identifier@,
            category: self.category@,
            report_type: self.report_type@,
            report_type_int: self.report_type_int@,
            settlement_date: self.settlement_date.epoch_seconds,
            run_no: self.run_no,
            interconnector_id: opt_string_view(self.interconnector_id),
            period_id: self.period_id,
            metered_mw_flow: self.metered_mw_flow,
            mw_flow: self.mw_flow,
            mw_losses: self.mw_losses,
            last_changed: opt_string_view(self.last_changed),
        }
    }
}

/// The first fault met reading an interconnector data row, if any.
pub open spec fn spec_interconnector_fault(fs: Seq<Seq<char>>) -> Option<RowFault> {
    if fs.len() != 12 {
        Some(RowFault::MalformedRow)
    } else if spec_sydney_field(fs[4]) is Err {
        Some(spec_ts_fault(spec_sydney_field(fs[4]).unwrap_err(), 4))
    } else if spec_parse_opt_u32(fs[5]) is None {
        Some(RowFault::FieldTypeError { index: 5 })
    } else if spec_parse_opt_u32(fs[7]) is None {
        Some(RowFault::FieldTypeError { index: 7 })
    } else if spec_parse_opt_decimal(fs[8]) is None {
        Some(RowFault::FieldTypeError { index: 8 })
    } else if spec_parse_opt_decimal(fs[9]) is None {
        Some(RowFault::FieldTypeError { index: 9 })
    } else if spec_parse_opt_decimal(fs[10]) is None {
        Some(RowFault::FieldTypeError { index: 10 })
    } else {
        None
    }
}

/// The interconnector reading named by a faultless data row.
pub open spec fn spec_interconnector_value(fs: Seq<Seq<char>>) -> InterconnectorV {
    InterconnectorV {
        csv_row_identifier: fs[0],
        category: fs[1],
        report_type: fs[2],
        report_type_int: fs[3],
        settlement_date: spec_sydney_field(fs[4]).unwrap(),
        run_no: spec_parse_opt_u32(fs[5]).unwrap(),
        interconnector_id: spec_opt_text(fs[6]),
        period_id: spec_parse_opt_u32(fs[7]).unwrap(),
        metered_mw_flow: spec_parse_opt_decimal(fs[8]).unwrap(),
        mw_flow: spec_parse_opt_decimal(fs[9]).unwrap(),
        mw_losses: spec_parse_opt_decimal(fs[10]).unwrap(),
        last_changed: spec_opt_text(fs[11]),
    }
}

/// Builds an interconnector reading from the fields of one data row.
pub fn deserialize_interconnector(fields: &Vec<String>) -> (r: Result<Interconnector, RowFault>)
    ensures
        match r {
            Ok(rec) => spec_interconnector_fault(fields.deep_view()) is None && rec@
                == spec_interconnector_value(fields.deep_view()),
            Err(f) => spec_interconnector_fault(fields.deep_view()) == Some(f),
        },
{
    if fields.len() != 12 {
        return Err(RowFault::MalformedRow);
    }
    let settlement_date = match field_ts(fields, 4) {
        Ok(t) => t,
        Err(f) => {
            return Err(f);
        },
    };
    let run_no = match field_opt_u32(fields, 5) {
        Ok(v) => v,
        Err(f) => {
            return Err(f);
        },
    };
    let period_id = match field_opt_u32(fields, 7) {
        Ok(v) => v,
        Err(f) => {
            return Err(f);
        },
    };
    let metered_mw_flow = match field_opt_decimal(fields, 8) {
        Ok(v) => v,
        Err(f) => {
            return Err(f);
        },
    };
    let mw_flow = match field_opt_decimal(fields, 9) {
        Ok(v) => v,
        Err(f) => {
            return Err(f);
        },
    };
    let mw_losses = match field_opt_decimal(fields, 10) {
        Ok(v) => v,
        Err(f) => {
            return Err(f);
        },
    };
    Ok(
        Interconnector {
            csv_row_identifier: field_string(fields, 0),
            category: field_string(fields, 1),
            report_type: field_string(fields, 2),
            report_type_int: field_string(fields, 3),
            settlement_date,
            run_no,
            interconnector_id: field_opt_string(fields, 6),
            period_id,
            metered_mw_flow,
            mw_flow,
            mw_losses,
            last_changed: field_opt_string(fields, 11),
        },
    )
}

/// One regional price reading.
#[derive(Clone, Debug)]
pub struct Price {
    pub csv_row_identifier: String,
    pub category: String,
    pub report_type: String,
    pub report_type_int: String,
    pub settlement_date: UtcInstant,
    pub run_no: Option<u32>,
    pub region_id: Option<String>,
    pub period_id: Option<u32>,
    pub rrp: Option<Decimal>,
    pub eep: Option<Decimal>,
    pub invalid_flag: Option<u32>,
    pub last_changed: UtcInstant,
    pub rop: Option<Decimal>,
    pub raise_6_sec_rrp: Option<Decimal>,
    pub raise_6_sec_rop: Option<Decimal>,
    pub raise_60_sec_rrp: Option<Decimal>,
    pub raise_60_sec_rop: Option<Decimal>,
    pub raise_5_min_rrp: Option<Decimal>,
    pub raise_5_min_rop: Option<Decimal>,
    pub raise_reg_rrp: Option<Decimal>,
    pub raise_reg_rop: Option<Decimal>,
    pub lower_6_sec_rrp: Option<Decimal>,
    pub lower_6_sec_rop: Option<Decimal>,
    pub lower_60_sec_rrp: Option<Decimal>,
    pub lower_60_sec_rop: Option<Decimal>,
    pub lower_5_min_rrp: Option<Decimal>,
    pub lower_5_min_rop: Option<Decimal>,
    pub lower_reg_rrp: Option<Decimal>,
    pub lower_reg_rop: Option<Decimal>,
    pub raise_1_sec_rrp: Option<Decimal>,
    pub raise_1_sec_rop: Option<Decimal>,
    pub lower_1_sec_rrp: Option<Decimal>,
    pub lower_1_sec_rop: Option<Decimal>,
    pub price_status: Option<String>,
}

/// Mathematical view of a price reading.
#[verifier::ext_equal]
pub ghost struct PriceV {
    pub csv_row_identifier: Seq<char>,
    pub category: Seq<char>,
    pub report_type: Seq<char>,
    pub report_type_int: Seq<char>,
    pub settlement_date: i64,
    pub run_no: Option<u32>,
    pub region_id: Option<Seq<char>>,
    pub period_id: Option<u32>,
    pub rrp: Option<Decimal>,
    pub eep: Option<Decimal>,
    pub invalid_flag: Option<u32>,
    pub last_changed: i64,
    pub rop: Option<Decimal>,
    pub raise_6_sec_rrp: Option<Decimal>,
    pub raise_6_sec_rop: Option<Decimal>,
    pub raise_60_sec_rrp: Option<Decimal>,
    pub raise_60_sec_rop: Option<Decimal>,
    pub raise_5_min_rrp: Option<Decimal>,
    pub raise_5_min_rop: Option<Decimal>,
    pub raise_reg_rrp: Option<Decimal>,
    pub raise_reg_rop: Option<Decimal>,
    pub lower_6_sec_rrp: Option<Decimal>,
    pub lower_6_sec_rop: Option<Decimal>,
    pub lower_60_sec_rrp: Option<Decimal>,
    pub lower_60_sec_rop: Option<Decimal>,
    pub lower_5_min_rrp: Option<Decimal>,
    pub lower_5_min_rop: Option<Decimal>,
    pub lower_reg_rrp: Option<Decimal>,
    pub lower_reg_rop: Option<Decimal>,
    pub raise_1_sec_rrp: Option<Decimal>,
    pub raise_1_sec_rop: Option<Decimal>,
    pub lower_1_sec_rrp: Option<Decimal>,
    pub lower_1_sec_rop: Option<Decimal>,
    pub price_status: Option<Seq<char>>,
}

impl View for Price {
    type V = PriceV;

    open spec fn view(&self) -> PriceV {
        PriceV {
            csv_row_identifier: self.csv_row_identifier@,
            category: self.category@,
            report_type: self.report_type@,
            report_type_int: self.report_type_int@,
            settlement_date: self.settlement_date.epoch_seconds,
            run_no: self.run_no,
            region_id: opt_string_view(self.region_id),
            period_id: self.period_id,
            rrp: self.rrp,
            eep: self.eep,
            invalid_flag: self.invalid_flag,
            last_changed: self.last_changed.epoch_seconds,
            rop: self.rop,
            raise_6_sec_rrp: self.raise_6_sec_rrp,
            raise_6_sec_rop: self.raise_6_sec_rop,
            raise_60_sec_rrp: self.raise_60_sec_rrp,
            raise_60_sec_rop: self.raise_60_sec_rop,
            raise_5_min_rrp: self.raise_5_min_rrp,
            raise_5_min_rop: self.raise_5_min_rop,
            raise_reg_rrp: self.raise_reg_rrp,
            raise_reg_rop: self.raise_reg_rop,
            lower_6_sec_rrp: self.lower_6_sec_rrp,
            lower_6_sec_rop: self.lower_6_sec_rop,
            lower_60_sec_rrp: self.lower_60_sec_rrp,
            lower_60_sec_rop: self.lower_60_sec_rop,
            lower_5_min_rrp: self.lower_5_min_rrp,
            lower_5_min_rop: self.lower_5_min_rop,
            lower_reg_rrp: self.lower_reg_rrp,
            lower_reg_rop: self.lower_reg_rop,
            raise_1_sec_rrp: self.raise_1_sec_rrp,
            raise_1_sec_rop: self.raise_1_sec_rop,
            lower_1_sec_rrp: self.lower_1_sec_rrp,
            lower_1_sec_rop: self.lower_1_sec_rop,
            price_status: opt_string_view(self.price_status),
        }
    }
}

/// Whether the named field of a price row holds an optional decimal.
pub open spec fn price_dec_ok(fs: Seq<Seq<char>>, i: int) -> bool {
    spec_parse_opt_decimal(fs[i]) is Some
}

/// The first fault met reading a price data row, if any.
pub open spec fn spec_price_fault(fs: Seq<Seq<char>>) -> Option<RowFault> {
    if fs.len() != 34 {
        Some(RowFault::MalformedRow)
    } else if spec_sydney_field(fs[4]) is Err {
        Some(spec_ts_fault(spec_sydney_field(fs[4]).unwrap_err(), 4))
    } else if spec_parse_opt_u32(fs[5]) is None {
        Some(RowFault::FieldTypeError { index: 5 })
    } else if spec_parse_opt_u32(fs[7]) is None {
        Some(RowFault::FieldTypeError { index: 7 })
    } else if !price_dec_ok(fs, 8) {
        Some(RowFault::FieldTypeError { index: 8 })
    } else if !price_dec_ok(fs, 9) {
        Some(RowFault::FieldTypeError { index: 9 })
    } else if spec_parse_opt_u32(fs[10]) is None {
        Some(RowFault::FieldTypeError { index: 10 })
    } else if spec_sydney_field(fs[11]) is Err {
        Some(spec_ts_fault(spec_sydney_field(fs[11]).unwrap_err(), 11))
    } else if !price_dec_ok(fs, 12) {
        Some(RowFault::FieldTypeError { index: 12 })
    } else if !price_dec_ok(fs, 13) {
        Some(RowFault::FieldTypeError { index: 13 })
    } else if !price_dec_ok(fs, 14) {
        Some(RowFault::FieldTypeError { index: 14 })
    } else if !price_dec_ok(fs, 15) {
        Some(RowFault::FieldTypeError { index: 15 })
    } else if !price_dec_ok(fs, 16) {
        Some(RowFault::FieldTypeError { index: 16 })
    } else if !price_dec_ok(fs, 17) {
        Some(RowFault::FieldTypeError { index: 17 })
    } else if !price_dec_ok(fs, 18) {
        Some(RowFault::FieldTypeError { index: 18 })
    } else if !price_dec_ok(fs, 19) {
        Some(RowFault::FieldTypeError { index: 19 })
    } else if !price_dec_ok(fs, 20) {
        Some(RowFault::FieldTypeError { index: 20 })
    } else if !price_dec_ok(fs, 21) {
        Some(RowFault::FieldTypeError { index: 21 })
    } else if !price_dec_ok(fs, 22) {
        Some(RowFault::FieldTypeError { index: 22 })
    } else if !price_dec_ok(fs, 23) {
        Some(RowFault::FieldTypeError { index: 23 })
    } else if !price_dec_ok(fs, 24) {
        Some(RowFault::FieldTypeError { index: 24 })
    } else if !price_dec_ok(fs, 25) {
        Some(RowFault::FieldTypeError { index: 25 })
    } else if !price_dec_ok(fs, 26) {
        Some(RowFault::FieldTypeError { index: 26 })
    } else if !price_dec_ok(fs, 27) {
        Some(RowFault::FieldTypeError { index: 27 })
    } else if !price_dec_ok(fs, 28) {
        Some(RowFault::FieldTypeError { index: 28 })
    } else if !price_dec_ok(fs, 29) {
        Some(RowFault::FieldTypeError { index: 29 })
    } else if !price_dec_ok(fs, 30) {
        Some(RowFault::FieldTypeError { index: 30 })
    } else if !price_dec_ok(fs, 31) {
        Some(RowFault::FieldTypeError { index: 31 })
    } else if !price_dec_ok(fs, 32) {
        Some(RowFault::FieldTypeError { index: 32 })
    } else {
        None
    }
}

/// The price reading named by a faultless data row.
pub open spec fn spec_price_value(fs: Seq<Seq<char>>) -> PriceV {
    PriceV {
        csv_row_identifier: fs[0],
        category: fs[1],
        report_type: fs[2],
        report_type_int: fs[3],
        settlement_date: spec_sydney_field(fs[4]).unwrap(),
        run_no: spec_parse_opt_u32(fs[5]).unwrap(),
        region_id: spec_opt_text(fs[6]),
        period_id: spec_parse_opt_u32(fs[7]).unwrap(),
        rrp: spec_parse_opt_decimal(fs[8]).unwrap(),
        eep: spec_parse_opt_decimal(fs[9]).unwrap(),
        invalid_flag: spec_parse_opt_u32(fs[10]).unwrap(),
        last_changed: spec_sydney_field(fs[11]).unwrap(),
        rop: spec_parse_opt_decimal(fs[12]).unwrap(),
        raise_6_sec_rrp: spec_parse_opt_decimal(fs[13]).unwrap(),
        raise_6_sec_rop: spec_parse_opt_decimal(fs[14]).unwrap(),
        raise_60_sec_rrp: spec_parse_opt_decimal(fs[15]).unwrap(),
        raise_60_sec_rop: spec_parse_opt_decimal(fs[16]).unwrap(),
        raise_5_min_rrp: spec_parse_opt_decimal(fs[17]).unwrap(),
        raise_5_min_rop: spec_parse_opt_decimal(fs[18]).unwrap(),
        raise_reg_rrp: spec_parse_opt_decimal(fs[19]).unwrap(),
        raise_reg_rop: spec_parse_opt_decimal(fs[20]).unwrap(),
        lower_6_sec_rrp: spec_parse_opt_decimal(fs[21]).unwrap(),
        lower_6_sec_rop: spec_parse_opt_decimal(fs[22]).unwrap(),
        lower_60_sec_rrp: spec_parse_opt_decimal(fs[23]).unwrap(),
        lower_60_sec_rop: spec_parse_opt_decimal(fs[24]).unwrap(),
        lower_5_min_rrp: spec_parse_opt_decimal(fs[25]).unwrap(),
        lower_5_min_rop: spec_parse_opt_decimal(fs[26]).unwrap(),
        lower_reg_rrp: spec_parse_opt_decimal(fs[27]).unwrap(),
        lower_reg_rop: spec_parse_opt_decimal(fs[28]).unwrap(),
        raise_1_sec_rrp: spec_parse_opt_decimal(fs[29]).unwrap(),
        raise_1_sec_rop: spec_parse_opt_decimal(fs[30]).unwrap(),
        lower_1_sec_rrp: spec_parse_opt_decimal(fs[31]).unwrap(),
        lower_1_sec_rop: spec_parse_opt_decimal(fs[32]).unwrap(),
        price_status: spec_opt_text(fs[33]),
    }
}

/// Builds a price reading from the fields of one data row.
pub fn deserialize_price(fields: &Vec<String>) -> (r: Result<Price, RowFault>)
    ensures
        match r {
            Ok(rec) => spec_price_fault(fields.deep_view()) is None && rec@ == spec_price_value(
                fields.deep_view(),
            ),
            Err(f) => spec_price_fault(fields.deep_view()) == Some(f),
        },
{
    if fields.len() != 34 {
        return Err(RowFault::MalformedRow);
    }
    let settlement_date = match field_ts(fields, 4) {
        Ok(t) => t,
        Err(f) => {
            return Err(f);
        },
    };
    let run_no = match field_opt_u32(fields, 5) {
        Ok(v) => v,
        Err(f) => {
            return Err(f);
        },
    };
    let period_id = match field_opt_u32(fields, 7) {
        Ok(v) => v,
        Err(f) => {
            return Err(f);
        },
    };
    let rrp = match field_opt_decimal(fields, 8) {
        Ok(v) => v,
        Err(f) => {
            return Err(f);
        },
    };
    let eep = match field_opt_decimal(fields, 9) {
        Ok(v) => v,
        Err(f) => {
            return Err(f);
        },
    };
    let invalid_flag = match field_opt_u32(fields, 10) {
        Ok(v) => v,
        Err(f) => {
            return Err(f);
        },
    };
    let last_changed = match field_ts(fields, 11) {
        Ok(t) => t,
        Err(f) => {
            return Err(f);
        },
    };
    let rop = match field_opt_decimal(fields, 12) {
        Ok(v) => v,
        Err(f) => {
            return Err(f);
        },
    };
    let raise_6_sec_rrp = match field_opt_decimal(fields, 13) {
        Ok(v) => v,
        Err(f) => {
            return Err(f);
        },
    };
    let raise_6_sec_rop = match field_opt_decimal(fields, 14) {
        Ok(v) => v,
        Err(f) => {
            return Err(f);
        },
    };
    let raise_60_sec_rrp = match field_opt_decimal(fields, 15) {
        Ok(v) => v,
        Err(f) => {
            return Err(f);
        },
    };
    let raise_60_sec_rop = match field_opt_decimal(fields, 16) {
        Ok(v) => v,
        Err(f) => {
            return Err(f);
        },
    };
    let raise_5_min_rrp = match field_opt_decimal(fields, 17) {
        Ok(v) => v,
        Err(f) => {
            return Err(f);
        },
    };
    let raise_5_min_rop = match field_opt_decimal(fields, 18) {
        Ok(v) => v,
        Err(f) => {
            return Err(f);
        },
    };
    let raise_reg_rrp = match field_opt_decimal(fields, 19) {
        Ok(v) => v,
        Err(f) => {
            return Err(f);
        },
    };
    let raise_reg_rop = match field_opt_decimal(fields, 20) {
        Ok(v) => v,
        Err(f) => {
            return Err(f);
        },
    };
    let lower_6_sec_rrp = match field_opt_decimal(fields, 21) {
        Ok(v) => v,
        Err(f) => {
            return Err(f);
        },
    };
    let lower_6_sec_rop = match field_opt_decimal(fields, 22) {
        Ok(v) => v,
        Err(f) => {
            return Err(f);
        },
    };
    let lower_60_sec_rrp = match field_opt_decimal(fields, 23) {
        Ok(v) => v,
        Err(f) => {
            return Err(f);
        },
    };
    let lower_60_sec_rop = match field_opt_decimal(fields, 24) {
        Ok(v) => v,
        Err(f) => {
            return Err(f);
        },
    };
    let lower_5_min_rrp = match field_opt_decimal(fields, 25) {
        Ok(v) => v,
        Err(f) => {
            return Err(f);
        },
    };
    let lower_5_min_rop = match field_opt_decimal(fields, 26) {
        Ok(v) => v,
        Err(f) => {
            return Err(f);
        },
    };
    let lower_reg_rrp = match field_opt_decimal(fields, 27) {
        Ok(v) => v,
        Err(f) => {
            return Err(f);
        },
    };
    let lower_reg_rop = match field_opt_decimal(fields, 28) {
        Ok(v) => v,
        Err(f) => {
            return Err(f);
        },
    };
    let raise_1_sec_rrp = match field_opt_decimal(fields, 29) {
        Ok(v) => v,
        Err(f) => {
            return Err(f);
        },
    };
    let raise_1_sec_rop = match field_opt_decimal(fields, 30) {
        Ok(v) => v,
        Err(f) => {
            return Err(f);
        },
    };
    let lower_1_sec_rrp = match field_opt_decimal(fields, 31) {
        Ok(v) => v,
        Err(f) => {
            return Err(f);
        },
    };
    let lower_1_sec_rop = match field_opt_decimal(fields, 32) {
        Ok(v) => v,
        Err(f) => {
            return Err(f);
        },
    };
    Ok(
        Price {
            csv_row_identifier: field_string(fields, 0),
            category: field_string(fields, 1),
            report_type: field_string(fields, 2),
            report_type_int: field_string(fields, 3),
            settlement_date,
            run_no,
            region_id: field_opt_string(fields, 6),
            period_id,
            rrp,
            eep,
            invalid_flag,
            last_changed,
            rop,
            raise_6_sec_rrp,
            raise_6_sec_rop,
            raise_60_sec_rrp,
            raise_60_sec_rop,
            raise_5_min_rrp,
            raise_5_min_rop,
            raise_reg_rrp,
            raise_reg_rop,
            lower_6_sec_rrp,
            lower_6_sec_rop,
            lower_60_sec_rrp,
            lower_60_sec_rop,
            lower_5_min_rrp,
            lower_5_min_rop,
            lower_reg_rrp,
            lower_reg_rop,
            raise_1_sec_rrp,
            raise_1_sec_rop,
            lower_1_sec_rrp,
            lower_1_sec_rop,
            price_status: field_opt_string(fields, 33),
        },
    )
}

/// One rooftop photovoltaic actual-generation reading.
#[derive(Clone, Debug)]
pub struct RooftopPvActual {
    pub csv_row_identifier: String,
    pub category: String,
    pub report_type: String,
    pub report_type_int: String,
    pub interval_datetime: UtcInstant,
    pub regionid: String,
    pub power: Option<Decimal>,
    pub qi: Option<Decimal>,
    pub type_: String,
    pub lastchanged: UtcInstant,
}

/// Mathematical view of a rooftop actual reading.
#[verifier::ext_equal]
pub ghost struct RooftopPvActualV {
    pub csv_row_identifier: Seq<char>,
    pub category: Seq<char>,
    pub report_type: Seq<char>,
    pub report_type_int: Seq<char>,
    pub interval_datetime: i64,
    pub regionid: Seq<char>,
    pub power: Option<Decimal>,
    pub qi: Option<Decimal>,
    pub type_: Seq<char>,
    pub lastchanged: i64,
}

impl View for RooftopPvActual {
    type V = RooftopPvActualV;

    open spec fn view(&self) -> RooftopPvActualV {
        RooftopPvActualV {
            csv_row_identifier: self.csv_row_identifier@,
            category: self.category@,
            report_type: self.report_type@,
            report_type_int: self.report_type_int@,
            interval_datetime: self.interval_datetime.epoch_seconds,
            regionid: self.regionid@,
            power: self.power,
            qi: self.qi,
            type_: self.type_@,
            lastchanged: self.lastchanged.epoch_seconds,
        }
    }
}

/// The first fault met reading a rooftop actual data row, if any.
pub open spec fn spec_rooftop_actual_fault(fs: Seq<Seq<char>>) -> Option<RowFault> {
    if fs.len() != 10 {
        Some(RowFault::MalformedRow)
    } else if spec_sydney_field(fs[4]) is Err {
        Some(spec_ts_fault(spec_sydney_field(fs[4]).unwrap_err(), 4))
    } else if spec_parse_opt_decimal(fs[6]) is None {
        Some(RowFault::FieldTypeError { index: 6 })
    } else if spec_parse_opt_decimal(fs[7]) is None {
        Some(RowFault::FieldTypeError { index: 7 })
    } else if spec_sydney_field(fs[9]) is Err {
        Some(spec_ts_fault(spec_sydney_field(fs[9]).unwrap_err(), 9))
    } else {
        None
    }
}

/// The rooftop actual reading named by a faultless data row.
pub open spec fn spec_rooftop_actual_value(fs: Seq<Seq<char>>) -> RooftopPvActualV {
    RooftopPvActualV {
        csv_row_identifier: fs[0],
        category: fs[1],
        report_type: fs[2],
        report_type_int: fs[3],
        interval_datetime: spec_sydney_field(fs[4]).unwrap(),
        regionid: fs[5],
        power: spec_parse_opt_decimal(fs[6]).unwrap(),
        qi: spec_parse_opt_decimal(fs[7]).unwrap(),
        type_: fs[8],
        lastchanged: spec_sydney_field(fs[9]).unwrap(),
    }
}

/// Builds a rooftop actual reading from the fields of one data row.
pub fn deserialize_rooftop_actual(fields: &Vec<String>) -> (r: Result<RooftopPvActual, RowFault>)
    ensures
        match r {
            Ok(rec) => spec_rooftop_actual_fault(fields.deep_view()) is None && rec@
                == spec_rooftop_actual_value(fields.deep_view()),
            Err(f) => spec_rooftop_actual_fault(fields.deep_view()) == Some(f),
        },
{
    if fields.len() != 10 {
        return Err(RowFault::MalformedRow);
    }
    let interval_datetime = match field_ts(fields, 4) {
        Ok(t) => t,
        Err(f) => {
            return Err(f);
        },
    };
    let power = match field_opt_decimal(fields, 6) {
        Ok(v) => v,
        Err(f) => {
            return Err(f);
        },
    };
    let qi = match field_opt_decimal(fields, 7) {
        Ok(v) => v,
        Err(f) => {
            return Err(f);
        },
    };
    let lastchanged = match field_ts(fields, 9) {
        Ok(t) => t,
        Err(f) => {
            return Err(f);
        },
    };
    Ok(
        RooftopPvActual {
            csv_row_identifier: field_string(fields, 0),
            category: field_string(fields, 1),
            report_type: field_string(fields, 2),
            report_type_int: field_string(fields, 3),
            interval_datetime,
            regionid: field_string(fields, 5),
            power,
            qi,
            type_: field_string(fields, 8),
            lastchanged,
        },
    )
}

/// One rooftop photovoltaic forecast reading.
#[derive(Clone, Debug)]
pub struct RooftopPvForecast {
    pub csv_row_identifier: String,
    pub category: String,
    pub report_type: String,
    pub report_type_int: String,
    pub version_datetime: UtcInstant,
    pub regionid: String,
    pub interval_datetime: UtcInstant,
    pub power_mean: Decimal,
    pub power_poe50: Decimal,
    pub power_poelow: Decimal,
    pub power_poehigh: Decimal,
    pub lastchanged: UtcInstant,
}

/// Mathematical view of a rooftop forecast reading.
#[verifier::ext_equal]
pub ghost struct RooftopPvForecastV {
    pub csv_row_identifier: Seq<char>,
    pub category: Seq<char>,
    pub report_type: Seq<char>,
    pub report_type_int: Seq<char>,
    pub version_datetime: i64,
    pub regionid: Seq<char>,
    pub interval_datetime: i64,
    pub power_mean: Decimal,
    pub power_poe50: Decimal,
    pub power_poelow: Decimal,
    pub power_poehigh: Decimal,
    pub lastchanged: i64,
}

impl View for RooftopPvForecast {
    type V = RooftopPvForecastV;

    open spec fn view(&self) -> RooftopPvForecastV {
        RooftopPvForecastV {
            csv_row_identifier: self.csv_row_identifier@,
            category: self.category@,
            report_type: self.report_type@,
            report_type_int: self.report_type_int@,
            version_datetime: self.version_datetime.epoch_seconds,
            regionid: self.regionid@,
            interval_datetime: self.interval_datetime.epoch_seconds,
            power_mean: self.power_mean,
            power_poe50: self.power_poe50,
            power_poelow: self.power_poelow,
            power_poehigh: self.power_poehigh,
            lastchanged: self.lastchanged.epoch_seconds,
        }
    }
}

/// The first fault met reading a rooftop forecast data row, if any.
pub open spec fn spec_rooftop_forecast_fault(fs: Seq<Seq<char>>) -> Option<RowFault> {
    if fs.len() != 12 {
        Some(RowFault::MalformedRow)
    } else if spec_sydney_field(fs[4]) is Err {
        Some(spec_ts_fault(spec_sydney_field(fs[4]).unwrap_err(), 4))
    } else if spec_sydney_field(fs[6]) is Err {
        Some(spec_ts_fault(spec_sydney_field(fs[6]).unwrap_err(), 6))
    } else if spec_parse_decimal(fs[7]) is None {
        Some(RowFault::FieldTypeError { index: 7 })
    } else if spec_parse_decimal(fs[8]) is None {
        Some(RowFault::FieldTypeError { index: 8 })
    } else if spec_parse_decimal(fs[9]) is None {
        Some(RowFault::FieldTypeError { index: 9 })
    } else if spec_parse_decimal(fs[10]) is None {
        Some(RowFault::FieldTypeError { index: 10 })
    } else if spec_sydney_field(fs[11]) is Err {
        Some(spec_ts_fault(spec_sydney_field(fs[11]).unwrap_err(), 11))
    } else {
        None
    }
}

/// The rooftop forecast reading named by a faultless data row.
pub open spec fn spec_rooftop_forecast_value(fs: Seq<Seq<char>>) -> RooftopPvForecastV {
    RooftopPvForecastV {
        csv_row_identifier: fs[0],
        category: fs[1],
        report_type: fs[2],
        report_type_int: fs[3],
        version_datetime: spec_sydney_field(fs[4]).unwrap(),
        regionid: fs[5],
        interval_datetime: spec_sydney_field(fs[6]).unwrap(),
        power_mean: spec_parse_decimal(fs[7]).unwrap(),
        power_poe50: spec_parse_decimal(fs[8]).unwrap(),
        power_poelow: spec_parse_decimal(fs[9]).unwrap(),
        power_poehigh: spec_parse_decimal(fs[10]).unwrap(),
        lastchanged: spec_sydney_field(fs[11]).unwrap(),
    }
}

/// Builds a rooftop forecast reading from the fields of one data row.
pub fn deserialize_rooftop_forecast(fields: &Vec<String>) -> (r: Result<
    RooftopPvForecast,
    RowFault,
>)
    ensures
        match r {
            Ok(rec) => spec_rooftop_forecast_fault(fields.deep_view()) is None && rec@
                == spec_rooftop_forecast_value(fields.deep_view()),
            Err(f) => spec_rooftop_forecast_fault(fields.deep_view()) == Some(f),
        },
{
    if fields.len() != 12 {
        return Err(RowFault::MalformedRow);
    }
    let version_datetime = match field_ts(fields, 4) {
        Ok(t) => t,
        Err(f) => {
            return Err(f);
        },
    };
    let interval_datetime = match field_ts(fields, 6) {
        Ok(t) => t,
        Err(f) => {
            return Err(f);
        },
    };
    let power_mean = match field_decimal(fields, 7) {
        Ok(v) => v,
        Err(f) => {
            return Err(f);
        },
    };
    let power_poe50 = match field_decimal(fields, 8) {
        Ok(v) => v,
        Err(f) => {
            return Err(f);
        },
    };
    let power_poelow = match field_decimal(fields, 9) {
        Ok(v) => v,
        Err(f) => {
            return Err(f);
        },
    };
    let power_poehigh = match field_decimal(fields, 10) {
        Ok(v) => v,
        Err(f) => {
            return Err(f);
        },
    };
    let lastchanged = match field_ts(fields, 11) {
        Ok(t) => t,
        Err(f) => {
            return Err(f);
        },
    };
    Ok(
        RooftopPvForecast {
            csv_row_identifier: field_string(fields, 0),
            category: field_string(fields, 1),
            report_type: field_string(fields, 2),
            report_type_int: field_string(fields, 3),
            version_datetime,
            regionid: field_string(fields, 5),
            interval_datetime,
            power_mean,
            power_poe50,
            power_poelow,
            power_poehigh,
            lastchanged,
        },
    )
}

/// One emitted record: exactly one of the registered payloads.
#[derive(Clone, Debug)]
pub enum RecordType {
    Interconnector(Interconnector),
    Price(Box<Price>),
    RooftopPvActual(RooftopPvActual),
    RooftopPvForecast(RooftopPvForecast),
}

/// Mathematical view of an emitted record.
pub ghost enum RecordV {
    Interconnector(InterconnectorV),
    Price(PriceV),
    RooftopPvActual(RooftopPvActualV),
    RooftopPvForecast(RooftopPvForecastV),
}

impl View for RecordType {
    type V = RecordV;

    open spec fn view(&self) -> RecordV {
        match self {
            RecordType::Interconnector(x) => RecordV::Interconnector(x@),
            RecordType::Price(x) => RecordV::Price(x@),
            RecordType::RooftopPvActual(x) => RecordV::RooftopPvActual(x@),
            RecordType::RooftopPvForecast(x) => RecordV::RooftopPvForecast(x@),
        }
    }
}

/// Whether a line starts with the embedded tag of a record kind.
pub trait RecordTypeStartsWith {
    /// The data-row prefix that marks this record kind.
    spec fn spec_prefix() -> Seq<char>;

    /// Returns whether the line begins with this kind's data-row tag.
    fn matches(line: &str) -> (r: bool)
        ensures
            r == spec_starts_with(line@, Self::spec_prefix()),
    ;
}

impl RecordTypeStartsWith for Interconnector {
    open spec fn spec_prefix() -> Seq<char> {
        "D,TRADING,INTERCONNECTORRES,2"@
    }

    fn matches(line: &str) -> (r: bool) {
        str_starts_with(line, "D,TRADING,INTERCONNECTORRES,2")
    }
}

impl RecordTypeStartsWith for Price {
    open spec fn spec_prefix() -> Seq<char> {
        "D,TRADING,PRICE,3"@
    }

    fn matches(line: &str) -> (r: bool) {
        str_starts_with(line, "D,TRADING,PRICE,3")
    }
}

impl RecordTypeStartsWith for RooftopPvActual {
    open spec fn spec_prefix() -> Seq<char> {
        "D,ROOFTOP,ACTUAL,2"@
    }

    fn matches(line: &str) -> (r: bool) {
        str_starts_with(line, "D,ROOFTOP,ACTUAL,2")
    }
}

impl RecordTypeStartsWith for RooftopPvForecast {
    open spec fn spec_prefix() -> Seq<char> {
        "D,ROOFTOP,FORECAST,1"@
    }

    fn matches(line: &str) -> (r: bool) {
        str_starts_with(line, "D,ROOFTOP,FORECAST,1")
    }
}

/// Why one line could not be deserialized into a record.
#[derive(Clone, Debug)]
pub enum DeserializeError {
    /// The line could not be read as a row of the expected shape; the text
    /// describes the fault.
    Csv(String),
    /// The line was empty: there was no record to read.
    NoRecordFound,
}

/// Deserializes one line into a record of the implementing kind.
pub trait ProcessRecord<T> {
    /// Reads one line as a record, with no tag check: the caller has already
    /// dispatched on the embedded tag.
    fn process(line: &str) -> Result<T, DeserializeError>;
}

/// What deserializing one whole line as the given kind yields.
pub open spec fn spec_process_line(line: Seq<char>, kind: crate::schema::RecordKind) -> Result<
    RecordV,
    (),
> {
    if line.len() == 0 {
        Err(())
    } else {
        match spec_split_fields(line) {
            None => Err(()),
            Some(fs) => match kind {
                crate::schema::RecordKind::Interconnector => {
                    if spec_interconnector_fault(fs) is None {
                        Ok(RecordV::Interconnector(spec_interconnector_value(fs)))
                    } else {
                        Err(())
                    }
                },
                crate::schema::RecordKind::Price => {
                    if spec_price_fault(fs) is None {
                        Ok(RecordV::Price(spec_price_value(fs)))
                    } else {
                        Err(())
                    }
                },
                crate::schema::RecordKind::RooftopPvActual => {
                    if spec_rooftop_actual_fault(fs) is None {
                        Ok(RecordV::RooftopPvActual(spec_rooftop_actual_value(fs)))
                    } else {
                        Err(())
                    }
                },
                crate::schema::RecordKind::RooftopPvForecast => {
                    if spec_rooftop_forecast_fault(fs) is None {
                        Ok(RecordV::RooftopPvForecast(spec_rooftop_forecast_value(fs)))
                    } else {
                        Err(())
                    }
                },
            },
        }
    }
}

/// Deserializes one whole line as the given record kind.
pub fn process_line(line: &str, kind: crate::schema::RecordKind) -> (r: Result<
    RecordType,
    DeserializeError,
>)
    ensures
        match r {
            Ok(rec) => spec_process_line(line@, kind) == Ok::<RecordV, ()>(rec@),
            Err(_) => spec_process_line(line@, kind) is Err,
        },
{
    if line.unicode_len() == 0 {
        return Err(DeserializeError::NoRecordFound);
    }
    let fields = match split_fields(line) {
        Some(fs) => fs,
        None => {
            return Err(DeserializeError::Csv(String::from_str("malformed row")));
        },
    };
    match kind {
        crate::schema::RecordKind::Interconnector => match deserialize_interconnector(&fields) {
            Ok(rec) => Ok(RecordType::Interconnector(rec)),
            Err(_) => Err(DeserializeError::Csv(String::from_str("field error"))),
        },
        crate::schema::RecordKind::Price => match deserialize_price(&fields) {
            Ok(rec) => Ok(RecordType::Price(Box::new(rec))),
            Err(_) => Err(DeserializeError::Csv(String::from_str("field error"))),
        },
        crate::schema::RecordKind::RooftopPvActual => match deserialize_rooftop_actual(&fields) {
            Ok(rec) => Ok(RecordType::RooftopPvActual(rec)),
            Err(_) => Err(DeserializeError::Csv(String::from_str("field error"))),
        },
        crate::schema::RecordKind::RooftopPvForecast => match deserialize_rooftop_forecast(
            &fields,
        ) {
            Ok(rec) => Ok(RecordType::RooftopPvForecast(rec)),
            Err(_) => Err(DeserializeError::Csv(String::from_str("field error"))),
        },
    }
}

impl ProcessRecord<RecordType> for Interconnector {
    fn process(line: &str) -> Result<RecordType, DeserializeError> {
        process_line(line, crate::schema::RecordKind::Interconnector)
    }
}

impl ProcessRecord<RecordType> for Price {
    fn process(line: &str) -> Result<RecordType, DeserializeError> {
        process_line(line, crate::schema::RecordKind::Price)
    }
}

impl ProcessRecord<RecordType> for RooftopPvActual {
    fn process(line: &str) -> Result<RecordType, DeserializeError> {
        process_line(line, crate::schema::RecordKind::RooftopPvActual)
    }
}

impl ProcessRecord<RecordType> for RooftopPvForecast {
    fn process(line: &str) -> Result<RecordType, DeserializeError> {
        process_line(line, crate::schema::RecordKind::RooftopPvForecast)
    }
}

} // verus!
