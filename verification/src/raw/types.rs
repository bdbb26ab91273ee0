use vstd::prelude::*;

verus! {

/// The engine's code of the field type "null".
pub const FIELD_TYPE_NULL: u32 = 0;

/// The engine's code of the field type "bool".
pub const FIELD_TYPE_BOOL: u32 = 1;

/// The engine's code of the field type "int8".
pub const FIELD_TYPE_INT8: u32 = 2;

/// The engine's code of the field type "int16".
pub const FIELD_TYPE_INT16: u32 = 3;

/// The engine's code of the field type "int32".
pub const FIELD_TYPE_INT32: u32 = 4;

/// The engine's code of the field type "int64".
pub const FIELD_TYPE_INT64: u32 = 5;

/// The engine's code of the field type "float".
pub const FIELD_TYPE_FLOAT: u32 = 6;

/// The engine's code of the field type "double".
pub const FIELD_TYPE_DOUBLE: u32 = 7;

/// The engine's code of the field type "date".
pub const FIELD_TYPE_DATE: u32 = 8;

/// The engine's code of the field type "datetime".
pub const FIELD_TYPE_DATETIME: u32 = 9;

/// The engine's code of the field type "string".
pub const FIELD_TYPE_STRING: u32 = 10;

/// The engine's code of the field type "blob".
pub const FIELD_TYPE_BLOB: u32 = 11;

/// The engine's code of the access level "none".
pub const ACCESS_LEVEL_NONE: u32 = 0;

/// The engine's code of the access level "read".
pub const ACCESS_LEVEL_READ: u32 = 1;

/// The engine's code of the access level "write".
pub const ACCESS_LEVEL_WRITE: u32 = 2;

/// The engine's code of the access level "full".
pub const ACCESS_LEVEL_FULL: u32 = 3;

/// The engine's edge identifier: five numbers, in the order in which the
/// engine takes them.
#[derive(Clone, Copy, Debug, PartialEq, Eq, Structural)]
pub struct RawEdgeUid {
    pub src: i64,
    pub dst: i64,
    pub lid: u16,
    pub tid: i64,
    pub eid: i64,
}

impl RawEdgeUid {
    /// The source vertex.
    pub fn src(&self) -> (v: i64)
        ensures
            v == self.src,
    {
        self.src
    }

    /// The label id.
    pub fn lid(&self) -> (v: u16)
        ensures
            v == self.lid,
    {
        self.lid
    }

    /// The temporal id.
    pub fn tid(&self) -> (v: i64)
        ensures
            v == self.tid,
    {
        self.tid
    }

    /// The edge id.
    pub fn eid(&self) -> (v: i64)
        ensures
            v == self.eid,
    {
        self.eid
    }

    /// The destination vertex.
    pub fn dst(&self) -> (v: i64)
        ensures
            v == self.dst,
    {
        self.dst
    }
}

/// The engine's date: a day number.
#[derive(Clone, Copy, Debug, PartialEq, Eq, Structural)]
pub struct RawDate {
    pub days: i32,
}

impl RawDate {
    /// The date with this day number.
    pub fn from_days(days: i32) -> (raw: RawDate)
        ensures
            raw.days == days,
    {
        RawDate { days }
    }

    /// The day number.
    pub fn days_since_epoch(&self) -> (days: i32)
        ensures
            days == self.days,
    {
        self.days
    }
}

/// The engine's date and time: a number of seconds.
#[derive(Clone, Copy, Debug, PartialEq, Eq, Structural)]
pub struct RawDateTime {
    pub seconds: i64,
}

impl RawDateTime {
    /// The date and time with this number of seconds.
    pub fn from_seconds_since_epoch(seconds: i64) -> (raw: RawDateTime)
        ensures
            raw.seconds == seconds,
    {
        RawDateTime { seconds }
    }

    /// The number of seconds.
    pub fn seconds_since_epoch(&self) -> (seconds: i64)
        ensures
            seconds == self.seconds,
    {
        self.seconds
    }
}

} // verus!
