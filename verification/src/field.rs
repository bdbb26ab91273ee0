//! The types that describe the fields of graph elements.

use vstd::prelude::*;

use crate::raw::{
    field_payload_ok, RawFieldData, RawFieldDataView, RawFieldSpec, RawFieldSpecView,
    FIELD_TYPE_BLOB, FIELD_TYPE_BOOL, FIELD_TYPE_DATE, FIELD_TYPE_DATETIME, FIELD_TYPE_DOUBLE,
    FIELD_TYPE_FLOAT, FIELD_TYPE_INT16, FIELD_TYPE_INT32, FIELD_TYPE_INT64, FIELD_TYPE_INT8,
    FIELD_TYPE_NULL, FIELD_TYPE_STRING,
};
use crate::text::c_safe;
use crate::types::{day_number_exists, timestamp_exists, Date, DateTime};
use crate::Error;

verus! {

/// The type of a field.
#[derive(Clone, Copy, Debug, PartialEq, Eq, Structural, PartialOrd, Ord, Hash)]
pub enum FieldType {
    Null,
    Bool,
    Int8,
    Int16,
    Int32,
    Int64,
    Float,
    Double,
    Date,
    DateTime,
    String,
    Blob,
}

impl FieldType {
    /// The engine's code of this type.
    pub open spec fn code_spec(self) -> u32 {
        match self {
            FieldType::Null => FIELD_TYPE_NULL,
            FieldType::Bool => FIELD_TYPE_BOOL,
            FieldType::Int8 => FIELD_TYPE_INT8,
            FieldType::Int16 => FIELD_TYPE_INT16,
            FieldType::Int32 => FIELD_TYPE_INT32,
            FieldType::Int64 => FIELD_TYPE_INT64,
            FieldType::Float => FIELD_TYPE_FLOAT,
            FieldType::Double => FIELD_TYPE_DOUBLE,
            FieldType::Date => FIELD_TYPE_DATE,
            FieldType::DateTime => FIELD_TYPE_DATETIME,
            FieldType::String => FIELD_TYPE_STRING,
            FieldType::Blob => FIELD_TYPE_BLOB,
        }
    }

    /// The engine's code of this type.
    #[verifier::when_used_as_spec(code_spec)]
    pub fn code(self) -> (value: u32)
        ensures
            value == self.code_spec(),
    {
        match self {
            FieldType::Null => FIELD_TYPE_NULL,
            FieldType::Bool => FIELD_TYPE_BOOL,
            FieldType::Int8 => FIELD_TYPE_INT8,
            FieldType::Int16 => FIELD_TYPE_INT16,
            FieldType::Int32 => FIELD_TYPE_INT32,
            FieldType::Int64 => FIELD_TYPE_INT64,
            FieldType::Float => FIELD_TYPE_FLOAT,
            FieldType::Double => FIELD_TYPE_DOUBLE,
            FieldType::Date => FIELD_TYPE_DATE,
            FieldType::DateTime => FIELD_TYPE_DATETIME,
            FieldType::String => FIELD_TYPE_STRING,
            FieldType::Blob => FIELD_TYPE_BLOB,
        }
    }

    /// The type that one of the engine's codes stands for.
    pub fn of(value: u32) -> (ty: FieldType)
        requires
            value <= FIELD_TYPE_BLOB,
        ensures
            ty.code_spec() == value,
    {
        if value == FIELD_TYPE_NULL {
            FieldType::Null
        } else if value == FIELD_TYPE_BOOL {
            FieldType::Bool
        } else if value == FIELD_TYPE_INT8 {
            FieldType::Int8
        } else if value == FIELD_TYPE_INT16 {
            FieldType::Int16
        } else if value == FIELD_TYPE_INT32 {
            FieldType::Int32
        } else if value == FIELD_TYPE_INT64 {
            FieldType::Int64
        } else if value == FIELD_TYPE_FLOAT {
            FieldType::Float
        } else if value == FIELD_TYPE_DOUBLE {
            FieldType::Double
        } else if value == FIELD_TYPE_DATE {
            FieldType::Date
        } else if value == FIELD_TYPE_DATETIME {
            FieldType::DateTime
        } else if value == FIELD_TYPE_STRING {
            FieldType::String
        } else {
            FieldType::Blob
        }
    }

    /// Every type has its own code, and the codes are the numbers 0 to 11.
    pub proof fn lemma_codes(a: FieldType, b: FieldType)
        ensures
            a.code_spec() <= FIELD_TYPE_BLOB,
            a.code_spec() == b.code_spec() ==> a == b,
    {
    }
}

impl vstd::std_specs::convert::TryFromSpecImpl<u32> for FieldType {
    /// The error of a refused code is a fresh value, so the conversion is
    /// stated by the contract of `try_from`.
    open spec fn obeys_try_from_spec() -> bool {
        false
    }

    open spec fn try_from_spec(value: u32) -> core::result::Result<FieldType, Error> {
        arbitrary()
    }
}

impl TryFrom<u32> for FieldType {
    type Error = Error;

    /// The type that `value` stands for; a value that is no code of the
    /// engine is an invalid parameter.
    fn try_from(value: u32) -> (r: core::result::Result<FieldType, Error>)
        ensures
            value <= FIELD_TYPE_BLOB ==> r is Ok && r->Ok_0.code_spec() == value,
            value > FIELD_TYPE_BLOB ==> r is Err && r->Err_0@ == "Invalid parameter."@,
    {
        if value <= FIELD_TYPE_BLOB {
            Ok(FieldType::of(value))
        } else {
            Err(Error::new("Invalid parameter.".to_owned()))
        }
    }
}

impl vstd::std_specs::convert::FromSpecImpl<FieldType> for u32 {
    open spec fn obeys_from_spec() -> bool {
        true
    }

    open spec fn from_spec(value: FieldType) -> u32 {
        value.code_spec()
    }
}

impl From<FieldType> for u32 {
    /// The engine's code of `value`.
    fn from(value: FieldType) -> (code: u32) {
        value.code()
    }
}

/// The value of a field: one of the engine's twelve types with its payload.
///
/// A floating-point value is held as its IEEE 754 bit pattern.
#[derive(Clone, Debug, PartialEq)]
pub enum FieldData {
    Null,
    Bool(bool),
    Int8(i8),
    Int16(i16),
    Int32(i32),
    Int64(i64),
    Float(u32),
    Double(u64),
    Date(Date),
    DateTime(DateTime),
    String(String),
    Blob(Vec<u8>),
}

/// What a [`FieldData`] holds; a date is given by its day number and a date
/// and time by its seconds.
pub enum FieldDataView {
    Null,
    Bool(bool),
    Int8(i8),
    Int16(i16),
    Int32(i32),
    Int64(i64),
    Float(u32),
    Double(u64),
    Date(i32),
    DateTime(i64),
    String(Seq<char>),
    Blob(Seq<u8>),
}

impl View for FieldData {
    type V = FieldDataView;

    open spec fn view(&self) -> FieldDataView {
        match self {
            FieldData::Null => FieldDataView::Null,
            FieldData::Bool(b) => FieldDataView::Bool(*b),
            FieldData::Int8(i) => FieldDataView::Int8(*i),
            FieldData::Int16(i) => FieldDataView::Int16(*i),
            FieldData::Int32(i) => FieldDataView::Int32(*i),
            FieldData::Int64(i) => FieldDataView::Int64(*i),
            FieldData::Float(f) => FieldDataView::Float(*f),
            FieldData::Double(d) => FieldDataView::Double(*d),
            FieldData::Date(date) => FieldDataView::Date(date.days()),
            FieldData::DateTime(datetime) => FieldDataView::DateTime(datetime.seconds()),
            FieldData::String(s) => FieldDataView::String(s@),
            FieldData::Blob(b) => FieldDataView::Blob(b@),
        }
    }
}

impl FieldDataView {
    /// The engine's representation of this value.
    pub open spec fn raw(self) -> RawFieldDataView {
        let blank = RawFieldDataView {
            ty: FIELD_TYPE_NULL,
            num: 0,
            bits: 0,
            text: Seq::empty(),
            blob: Seq::empty(),
        };
        match self {
            FieldDataView::Null => blank,
            FieldDataView::Bool(b) => RawFieldDataView {
                ty: FIELD_TYPE_BOOL,
                num: if b { 1i64 } else { 0i64 },
                ..blank
            },
            FieldDataView::Int8(i) => RawFieldDataView {
                ty: FIELD_TYPE_INT8,
                num: i as i64,
                ..blank
            },
            FieldDataView::Int16(i) => RawFieldDataView {
                ty: FIELD_TYPE_INT16,
                num: i as i64,
                ..blank
            },
            FieldDataView::Int32(i) => RawFieldDataView {
                ty: FIELD_TYPE_INT32,
                num: i as i64,
                ..blank
            },
            FieldDataView::Int64(i) => RawFieldDataView { ty: FIELD_TYPE_INT64, num: i, ..blank },
            FieldDataView::Float(f) => RawFieldDataView {
                ty: FIELD_TYPE_FLOAT,
                bits: f as u64,
                ..blank
            },
            FieldDataView::Double(d) => RawFieldDataView {
                ty: FIELD_TYPE_DOUBLE,
                bits: d,
                ..blank
            },
            FieldDataView::Date(days) => RawFieldDataView {
                ty: FIELD_TYPE_DATE,
                num: days as i64,
                ..blank
            },
            FieldDataView::DateTime(seconds) => RawFieldDataView {
                ty: FIELD_TYPE_DATETIME,
                num: seconds,
                ..blank
            },
            FieldDataView::String(s) => RawFieldDataView {
                ty: FIELD_TYPE_STRING,
                text: s,
                ..blank
            },
            FieldDataView::Blob(b) => RawFieldDataView { ty: FIELD_TYPE_BLOB, blob: b, ..blank },
        }
    }

    /// The value that the engine's representation `raw` stands for.
    pub open spec fn of_raw(raw: RawFieldDataView) -> FieldDataView {
        if raw.ty == FIELD_TYPE_BOOL {
            FieldDataView::Bool(raw.num != 0)
        } else if raw.ty == FIELD_TYPE_INT8 {
            FieldDataView::Int8(raw.num as i8)
        } else if raw.ty == FIELD_TYPE_INT16 {
            FieldDataView::Int16(raw.num as i16)
        } else if raw.ty == FIELD_TYPE_INT32 {
            FieldDataView::Int32(raw.num as i32)
        } else if raw.ty == FIELD_TYPE_INT64 {
            FieldDataView::Int64(raw.num)
        } else if raw.ty == FIELD_TYPE_FLOAT {
            FieldDataView::Float(raw.bits as u32)
        } else if raw.ty == FIELD_TYPE_DOUBLE {
            FieldDataView::Double(raw.bits)
        } else if raw.ty == FIELD_TYPE_DATE {
            FieldDataView::Date(raw.num as i32)
        } else if raw.ty == FIELD_TYPE_DATETIME {
            FieldDataView::DateTime(raw.num)
        } else if raw.ty == FIELD_TYPE_STRING {
            FieldDataView::String(raw.text)
        } else if raw.ty == FIELD_TYPE_BLOB {
            FieldDataView::Blob(raw.blob)
        } else {
            FieldDataView::Null
        }
    }

    /// Whether the engine can take this value: a string must hold no NUL
    /// character.
    pub open spec fn sendable(self) -> bool {
        self matches FieldDataView::String(s) ==> c_safe(s)
    }

    /// Whether a date, or a date and time, is one that the calendar has.
    pub open spec fn in_calendar(self) -> bool {
        &&& self matches FieldDataView::Date(days) ==> day_number_exists(days)
        &&& self matches FieldDataView::DateTime(seconds) ==> timestamp_exists(seconds)
    }

    /// A value that went to the engine's representation comes back
    /// unchanged, whatever its type.
    pub proof fn law_round_trip(self)
        ensures
            FieldDataView::of_raw(self.raw()) == self,
            self.in_calendar() ==> field_payload_ok(self.raw()),
    {
    }
}

impl Default for FieldData {
    /// The null value.
    fn default() -> (value: FieldData)
        ensures
            value@ == FieldDataView::Null,
    {
        FieldData::Null
    }
}

impl FieldData {
    /// The value that the engine's representation `raw` stands for.
    pub fn from_raw_field_data(raw: &RawFieldData) -> (value: FieldData)
        requires
            field_payload_ok(raw@),
        ensures
            value@ == FieldDataView::of_raw(raw@),
    {
        match raw.ty() {
            FieldType::Null => FieldData::Null,
            FieldType::Bool => FieldData::Bool(raw.as_bool_unchecked()),
            FieldType::Int8 => FieldData::Int8(raw.as_int8_unchecked()),
            FieldType::Int16 => FieldData::Int16(raw.as_int16_unchecked()),
            FieldType::Int32 => FieldData::Int32(raw.as_int32_unchecked()),
            FieldType::Int64 => FieldData::Int64(raw.as_int64_unchecked()),
            FieldType::Float => FieldData::Float(raw.as_float_unchecked()),
            FieldType::Double => FieldData::Double(raw.as_double_unchecked()),
            FieldType::Date => FieldData::Date(Date::from_raw_date(&raw.as_date_unchecked())),
            FieldType::DateTime => FieldData::DateTime(
                DateTime::from_raw_datetime(&raw.as_datetime_unchecked()),
            ),
            FieldType::String => FieldData::String(raw.as_string_unchecked()),
            FieldType::Blob => FieldData::Blob(raw.as_blob_unchecked()),
        }
    }

    /// The value that `raw` stands for, or an invalid parameter where its
    /// type code and payload do not fit together.
    pub fn try_from_raw(raw: &RawFieldData) -> (r: core::result::Result<FieldData, Error>)
        ensures
            field_payload_ok(raw@) ==> r is Ok && r->Ok_0@ == FieldDataView::of_raw(raw@),
            !field_payload_ok(raw@) ==> r is Err && r->Err_0@ == "Invalid parameter."@,
    {
        if raw.is_payload_ok() {
            Ok(FieldData::from_raw_field_data(raw))
        } else {
            Err(Error::new("Invalid parameter.".to_owned()))
        }
    }

    /// Whether the engine can take this value.
    pub fn is_sendable(&self) -> (ok: bool)
        ensures
            ok == self@.sendable(),
    {
        match self {
            FieldData::String(s) => crate::text::is_c_safe(s.as_str()),
            _ => true,
        }
    }

    /// The engine's representation of this value.
    pub fn as_raw_field_data(&self) -> (raw: RawFieldData)
        requires
            self@.sendable(),
        ensures
            raw@ == self@.raw(),
            field_payload_ok(raw@),
    {
        match self {
            FieldData::Null => RawFieldData::new(),
            FieldData::Bool(b) => RawFieldData::from_bool(*b),
            FieldData::Int8(i) => RawFieldData::from_int8(*i),
            FieldData::Int16(i) => RawFieldData::from_int16(*i),
            FieldData::Int32(i) => RawFieldData::from_int32(*i),
            FieldData::Int64(i) => RawFieldData::from_int64(*i),
            FieldData::Float(f) => RawFieldData::from_float(*f),
            FieldData::Double(d) => RawFieldData::from_double(*d),
            FieldData::Date(date) => RawFieldData::from_date(date.as_raw_date()),
            FieldData::DateTime(datetime) => RawFieldData::from_datetime(
                datetime.as_raw_datetime()
            ),
            FieldData::String(s) => RawFieldData::from_str(s.as_str()),
            FieldData::Blob(b) => RawFieldData::from_blob(b.as_slice()),
        }
    }
}

/// The description of a field.
#[derive(Clone, PartialEq, Eq, Hash, Debug)]
pub struct FieldSpec {
    /// The name of the field.
    pub name: String,
    /// The type of the field.
    pub ty: FieldType,
    /// Whether an element may lack the field.
    pub optional: bool,
}

impl FieldSpec {
    /// The engine's form of this description.
    pub open spec fn raw(&self) -> RawFieldSpecView {
        RawFieldSpecView { name: self.name@, ty: self.ty.code_spec(), optional: self.optional }
    }

    /// The description that the engine's description `raw` stands for.
    pub fn from_raw_field_spec(raw: &RawFieldSpec) -> (spec: FieldSpec)
        requires
            raw.ty <= FIELD_TYPE_BLOB,
        ensures
            spec.raw() == raw@,
    {
        FieldSpec { name: raw.name(), ty: raw.ty(), optional: raw.optional() }
    }

    /// The description that `raw` stands for, or an invalid parameter where
    /// its type code is none of the engine's.
    pub fn try_from_raw(raw: &RawFieldSpec) -> (r: core::result::Result<FieldSpec, Error>)
        ensures
            raw.ty <= FIELD_TYPE_BLOB ==> r is Ok && r->Ok_0.raw() == raw@,
            raw.ty > FIELD_TYPE_BLOB ==> r is Err && r->Err_0@ == "Invalid parameter."@,
    {
        if raw.ty <= FIELD_TYPE_BLOB {
            Ok(FieldSpec::from_raw_field_spec(raw))
        } else {
            Err(Error::new("Invalid parameter.".to_owned()))
        }
    }

    /// The engine's description for this description; the name must be one
    /// that the engine can take.
    pub fn as_raw_field_spec(&self) -> (raw: RawFieldSpec)
        requires
            c_safe(self.name@),
        ensures
            raw@ == self.raw(),
    {
        RawFieldSpec::from_name_ty_optional(self.name.as_str(), self.ty.into(), self.optional)
    }
}

} // verus!
