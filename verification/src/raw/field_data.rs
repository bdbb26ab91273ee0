use vstd::prelude::*;
use vstd::slice::slice_to_vec;

use crate::field::FieldType;
use crate::raw::types::{
    FIELD_TYPE_BLOB, FIELD_TYPE_BOOL, FIELD_TYPE_DATE, FIELD_TYPE_DATETIME, FIELD_TYPE_DOUBLE,
    FIELD_TYPE_FLOAT, FIELD_TYPE_INT16, FIELD_TYPE_INT32, FIELD_TYPE_INT64, FIELD_TYPE_INT8,
    FIELD_TYPE_NULL, FIELD_TYPE_STRING,
};
use crate::raw::types::{RawDate, RawDateTime};
use crate::text::c_safe;
use crate::types::{day_number_exists, timestamp_exists, Date, DateTime};

verus! {

/// The engine's field value: a type code and the payload that the code
/// selects.
///
/// `num` holds a boolean (0 or 1), an integer of any width, a day number or a
/// number of seconds; `bits` holds the bit pattern of a float or a double;
/// `text` holds a string; `blob` holds a binary value.
#[derive(Debug, PartialEq, Eq)]
pub struct RawFieldData {
    pub ty: u32,
    pub num: i64,
    pub bits: u64,
    pub text: String,
    pub blob: Vec<u8>,
}

/// What a [`RawFieldData`] holds.
pub struct RawFieldDataView {
    pub ty: u32,
    pub num: i64,
    pub bits: u64,
    pub text: Seq<char>,
    pub blob: Seq<u8>,
}

impl View for RawFieldData {
    type V = RawFieldDataView;

    open spec fn view(&self) -> RawFieldDataView {
        RawFieldDataView {
            ty: self.ty,
            num: self.num,
            bits: self.bits,
            text: self.text@,
            blob: self.blob@,
        }
    }
}

impl DeepView for RawFieldData {
    type V = RawFieldDataView;

    open spec fn deep_view(&self) -> RawFieldDataView {
        self@
    }
}

/// What a list of engine field values holds.
pub open spec fn fields_view(fields: Seq<RawFieldData>) -> Seq<RawFieldDataView> {
    Seq::new(fields.len(), |i: int| fields[i]@)
}

/// Whether the type code of `raw` is one of the engine's and its payload is
/// one that a value of that type can have.
pub open spec fn field_payload_ok(raw: RawFieldDataView) -> bool {
    if raw.ty == FIELD_TYPE_INT8 {
        i8::MIN <= raw.num <= i8::MAX
    } else if raw.ty == FIELD_TYPE_INT16 {
        i16::MIN <= raw.num <= i16::MAX
    } else if raw.ty == FIELD_TYPE_INT32 {
        i32::MIN <= raw.num <= i32::MAX
    } else if raw.ty == FIELD_TYPE_FLOAT {
        raw.bits <= u32::MAX
    } else if raw.ty == FIELD_TYPE_DATE {
        i32::MIN <= raw.num <= i32::MAX && day_number_exists(raw.num as i32)
    } else if raw.ty == FIELD_TYPE_DATETIME {
        timestamp_exists(raw.num)
    } else {
        raw.ty <= FIELD_TYPE_BLOB
    }
}

/// A copy of `bytes`.
pub fn copy_bytes(bytes: &Vec<u8>) -> (copy: Vec<u8>)
    ensures
        copy@ == bytes@,
{
    let mut copy: Vec<u8> = Vec::new();
    let mut i: usize = 0;
    while i < bytes.len()
        invariant
            i <= bytes.len(),
            copy@ == bytes@.take(i as int),
        decreases bytes.len() - i,
    {
        copy.push(bytes[i]);
        assert(bytes@.take(i + 1) == bytes@.take(i as int).push(bytes@[i as int]));
        i = i + 1;
    }
    assert(bytes@.take(bytes.len() as int) == bytes@);
    copy
}

impl RawFieldData {
    /// The value of type `ty` whose payload is all zero and empty.
    fn blank(ty: u32) -> (raw: RawFieldData)
        ensures
            raw@ == (
                RawFieldDataView { ty, num: 0, bits: 0, text: Seq::empty(), blob: Seq::empty() }
            ),
    {
        RawFieldData { ty, num: 0, bits: 0, text: String::new(), blob: Vec::new() }
    }

    /// The null value.
    pub fn new() -> (raw: RawFieldData)
        ensures
            raw@ == (RawFieldDataView {
                ty: FIELD_TYPE_NULL,
                num: 0,
                bits: 0,
                text: Seq::empty(),
                blob: Seq::empty(),
            }),
    {
        RawFieldData::blank(FIELD_TYPE_NULL)
    }

    /// The boolean `b`.
    pub fn from_bool(b: bool) -> (raw: RawFieldData)
        ensures
            raw@ == (RawFieldDataView {
                ty: FIELD_TYPE_BOOL,
                num: if b { 1i64 } else { 0i64 },
                bits: 0,
                text: Seq::empty(),
                blob: Seq::empty(),
            }),
    {
        let mut raw = RawFieldData::blank(FIELD_TYPE_BOOL);
        raw.num = if b { 1 } else { 0 };
        raw
    }

    /// The 8-bit integer `i`.
    pub fn from_int8(i: i8) -> (raw: RawFieldData)
        ensures
            raw@ == (RawFieldDataView {
                ty: FIELD_TYPE_INT8,
                num: i as i64,
                bits: 0,
                text: Seq::empty(),
                blob: Seq::empty(),
            }),
    {
        let mut raw = RawFieldData::blank(FIELD_TYPE_INT8);
        raw.num = i as i64;
        raw
    }

    /// The 16-bit integer `i`.
    pub fn from_int16(i: i16) -> (raw: RawFieldData)
        ensures
            raw@ == (RawFieldDataView {
                ty: FIELD_TYPE_INT16,
                num: i as i64,
                bits: 0,
                text: Seq::empty(),
                blob: Seq::empty(),
            }),
    {
        let mut raw = RawFieldData::blank(FIELD_TYPE_INT16);
        raw.num = i as i64;
        raw
    }

    /// The 32-bit integer `i`.
    pub fn from_int32(i: i32) -> (raw: RawFieldData)
        ensures
            raw@ == (RawFieldDataView {
                ty: FIELD_TYPE_INT32,
                num: i as i64,
                bits: 0,
                text: Seq::empty(),
                blob: Seq::empty(),
            }),
    {
        let mut raw = RawFieldData::blank(FIELD_TYPE_INT32);
        raw.num = i as i64;
        raw
    }

    /// The 64-bit integer `i`.
    pub fn from_int64(i: i64) -> (raw: RawFieldData)
        ensures
            raw@ == (RawFieldDataView {
                ty: FIELD_TYPE_INT64,
                num: i,
                bits: 0,
                text: Seq::empty(),
                blob: Seq::empty(),
            }),
    {
        let mut raw = RawFieldData::blank(FIELD_TYPE_INT64);
        raw.num = i;
        raw
    }

    /// The single-precision number with the bit pattern `f`.
    pub fn from_float(f: u32) -> (raw: RawFieldData)
        ensures
            raw@ == (RawFieldDataView {
                ty: FIELD_TYPE_FLOAT,
                num: 0,
                bits: f as u64,
                text: Seq::empty(),
                blob: Seq::empty(),
            }),
    {
        let mut raw = RawFieldData::blank(FIELD_TYPE_FLOAT);
        raw.bits = f as u64;
        raw
    }

    /// The double-precision number with the bit pattern `d`.
    pub fn from_double(d: u64) -> (raw: RawFieldData)
        ensures
            raw@ == (RawFieldDataView {
                ty: FIELD_TYPE_DOUBLE,
                num: 0,
                bits: d,
                text: Seq::empty(),
                blob: Seq::empty(),
            }),
    {
        let mut raw = RawFieldData::blank(FIELD_TYPE_DOUBLE);
        raw.bits = d;
        raw
    }

    /// The date `date`.
    pub fn from_date(date: RawDate) -> (raw: RawFieldData)
        ensures
            raw@ == (RawFieldDataView {
                ty: FIELD_TYPE_DATE,
                num: date.days as i64,
                bits: 0,
                text: Seq::empty(),
                blob: Seq::empty(),
            }),
    {
        let mut raw = RawFieldData::blank(FIELD_TYPE_DATE);
        raw.num = date.days_since_epoch() as i64;
        raw
    }

    /// The date and time `datetime`.
    pub fn from_datetime(datetime: RawDateTime) -> (raw: RawFieldData)
        ensures
            raw@ == (RawFieldDataView {
                ty: FIELD_TYPE_DATETIME,
                num: datetime.seconds,
                bits: 0,
                text: Seq::empty(),
                blob: Seq::empty(),
            }),
    {
        let mut raw = RawFieldData::blank(FIELD_TYPE_DATETIME);
        raw.num = datetime.seconds_since_epoch();
        raw
    }

    /// The string `s`, which must be one that the engine can take.
    pub fn from_str(s: &str) -> (raw: RawFieldData)
        requires
            c_safe(s@),
        ensures
            raw@ == (RawFieldDataView {
                ty: FIELD_TYPE_STRING,
                num: 0,
                bits: 0,
                text: s@,
                blob: Seq::empty(),
            }),
    {
        let mut raw = RawFieldData::blank(FIELD_TYPE_STRING);
        raw.text = s.to_owned();
        raw
    }

    /// The binary value `blob`.
    pub fn from_blob(blob: &[u8]) -> (raw: RawFieldData)
        ensures
            raw@ == (RawFieldDataView {
                ty: FIELD_TYPE_BLOB,
                num: 0,
                bits: 0,
                text: Seq::empty(),
                blob: blob@,
            }),
    {
        let mut raw = RawFieldData::blank(FIELD_TYPE_BLOB);
        raw.blob = slice_to_vec(blob);
        raw
    }

    /// Whether the type code and the payload fit together.
    pub fn is_payload_ok(&self) -> (ok: bool)
        ensures
            ok == field_payload_ok(self@),
    {
        if self.ty == FIELD_TYPE_INT8 {
            -128 <= self.num && self.num <= 127
        } else if self.ty == FIELD_TYPE_INT16 {
            -32768 <= self.num && self.num <= 32767
        } else if self.ty == FIELD_TYPE_INT32 {
            -2147483648 <= self.num && self.num <= 2147483647
        } else if self.ty == FIELD_TYPE_FLOAT {
            self.bits <= 0xffff_ffff
        } else if self.ty == FIELD_TYPE_DATE {
            if -2147483648 <= self.num && self.num <= 2147483647 {
                Date::from_days(self.num as i32).is_some()
            } else {
                false
            }
        } else if self.ty == FIELD_TYPE_DATETIME {
            DateTime::from_timestamp_opt(self.num).is_some()
        } else {
            self.ty <= FIELD_TYPE_BLOB
        }
    }

    /// The type of the value.
    pub fn ty(&self) -> (ty: FieldType)
        requires
            self.ty <= FIELD_TYPE_BLOB,
        ensures
            ty.code_spec() == self.ty,
    {
        FieldType::of(self.ty)
    }

    /// The boolean that a value of type bool holds.
    pub fn as_bool_unchecked(&self) -> (b: bool)
        requires
            self.ty == FIELD_TYPE_BOOL,
        ensures
            b == (self.num != 0),
    {
        self.num != 0
    }

    /// The integer that a value of type int8 holds.
    pub fn as_int8_unchecked(&self) -> (i: i8)
        requires
            self.ty == FIELD_TYPE_INT8,
            field_payload_ok(self@),
        ensures
            i == self.num,
    {
        self.num as i8
    }

    /// The integer that a value of type int16 holds.
    pub fn as_int16_unchecked(&self) -> (i: i16)
        requires
            self.ty == FIELD_TYPE_INT16,
            field_payload_ok(self@),
        ensures
            i == self.num,
    {
        self.num as i16
    }

    /// The integer that a value of type int32 holds.
    pub fn as_int32_unchecked(&self) -> (i: i32)
        requires
            self.ty == FIELD_TYPE_INT32,
            field_payload_ok(self@),
        ensures
            i == self.num,
    {
        self.num as i32
    }

    /// The integer that a value of type int64 holds.
    pub fn as_int64_unchecked(&self) -> (i: i64)
        requires
            self.ty == FIELD_TYPE_INT64,
        ensures
            i == self.num,
    {
        self.num
    }

    /// The bit pattern of the number that a value of type float holds.
    pub fn as_float_unchecked(&self) -> (f: u32)
        requires
            self.ty == FIELD_TYPE_FLOAT,
            field_payload_ok(self@),
        ensures
            f == self.bits,
    {
        self.bits as u32
    }

    /// The bit pattern of the number that a value of type double holds.
    pub fn as_double_unchecked(&self) -> (d: u64)
        requires
            self.ty == FIELD_TYPE_DOUBLE,
        ensures
            d == self.bits,
    {
        self.bits
    }

    /// The date that a value of type date holds.
    pub fn as_date_unchecked(&self) -> (date: RawDate)
        requires
            self.ty == FIELD_TYPE_DATE,
            field_payload_ok(self@),
        ensures
            date.days == self.num,
    {
        RawDate::from_days(self.num as i32)
    }

    /// The date and time that a value of type datetime holds.
    pub fn as_datetime_unchecked(&self) -> (datetime: RawDateTime)
        requires
            self.ty == FIELD_TYPE_DATETIME,
        ensures
            datetime.seconds == self.num,
    {
        RawDateTime::from_seconds_since_epoch(self.num)
    }

    /// The string that a value of type string holds.
    pub fn as_string_unchecked(&self) -> (s: String)
        requires
            self.ty == FIELD_TYPE_STRING,
        ensures
            s@ == self.text@,
    {
        self.text.clone()
    }

    /// The bytes that a value of type blob holds.
    pub fn as_blob_unchecked(&self) -> (b: Vec<u8>)
        requires
            self.ty == FIELD_TYPE_BLOB,
        ensures
            b@ == self.blob@,
    {
        copy_bytes(&self.blob)
    }
}

} // verus!
