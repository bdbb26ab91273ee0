//! Identifiers, access levels and calendar values.

use vstd::prelude::*;

use crate::raw::{RawDate, RawDateTime, RawEdgeUid};
use crate::raw::{ACCESS_LEVEL_FULL, ACCESS_LEVEL_NONE, ACCESS_LEVEL_READ, ACCESS_LEVEL_WRITE};
use crate::Error;

verus! {

/// The primary key of an edge.
#[derive(Clone, Copy, Default, Debug, PartialEq, Eq, Structural, PartialOrd, Ord, Hash)]
pub struct EdgeUid {
    /// The key of the source vertex.
    pub src: i64,
    /// The id of the edge's label.
    pub lid: u16,
    /// The temporal id, which ranks edges between the same two vertices.
    pub tid: i64,
    /// The key of the destination vertex.
    pub dst: i64,
    /// The id that tells edges apart whose other parts are all the same.
    pub eid: i64,
}

impl EdgeUid {
    /// The key that the engine's identifier `raw` stands for.
    pub fn from_raw(raw: &RawEdgeUid) -> (uid: EdgeUid)
        ensures
            uid == (
                EdgeUid { src: raw.src, lid: raw.lid, tid: raw.tid, dst: raw.dst, eid: raw.eid }
            ),
    {
        EdgeUid { src: raw.src(), lid: raw.lid(), tid: raw.tid(), dst: raw.dst(), eid: raw.eid() }
    }

    /// The engine's identifier for this key.
    pub fn as_raw(&self) -> (raw: RawEdgeUid)
        ensures
            raw == (RawEdgeUid {
                src: self.src,
                dst: self.dst,
                lid: self.lid,
                tid: self.tid,
                eid: self.eid,
            }),
    {
        RawEdgeUid { src: self.src, dst: self.dst, lid: self.lid, tid: self.tid, eid: self.eid }
    }

    /// A key that went to the engine's form comes back unchanged.
    pub proof fn law_round_trip(self)
        ensures
            (EdgeUid {
                src: self.as_raw_spec().src,
                lid: self.as_raw_spec().lid,
                tid: self.as_raw_spec().tid,
                dst: self.as_raw_spec().dst,
                eid: self.as_raw_spec().eid,
            }) == self,
    {
    }

    /// The engine's identifier for this key.
    pub open spec fn as_raw_spec(self) -> RawEdgeUid {
        RawEdgeUid { src: self.src, dst: self.dst, lid: self.lid, tid: self.tid, eid: self.eid }
    }
}

/// What an account may do with a graph, ordered from the least to the most.
#[derive(Debug, Clone, Copy, PartialEq, Eq, Structural, PartialOrd, Ord, Hash, Default)]
pub enum AccessLevel {
    /// Neither read nor write.
    #[default]
    NoAccess,
    /// Read only.
    Read,
    /// Read and write.
    Write,
    /// Read, write and administrate.
    Full,
}

impl AccessLevel {
    /// The engine's code of this level.
    pub open spec fn code_spec(self) -> u32 {
        match self {
            AccessLevel::NoAccess => ACCESS_LEVEL_NONE,
            AccessLevel::Read => ACCESS_LEVEL_READ,
            AccessLevel::Write => ACCESS_LEVEL_WRITE,
            AccessLevel::Full => ACCESS_LEVEL_FULL,
        }
    }

    /// The level that the engine's code `value` stands for, if any.
    pub open spec fn of_code(value: u32) -> Option<AccessLevel> {
        if value == ACCESS_LEVEL_NONE {
            Some(AccessLevel::NoAccess)
        } else if value == ACCESS_LEVEL_READ {
            Some(AccessLevel::Read)
        } else if value == ACCESS_LEVEL_WRITE {
            Some(AccessLevel::Write)
        } else if value == ACCESS_LEVEL_FULL {
            Some(AccessLevel::Full)
        } else {
            None
        }
    }

    /// The engine's code of this level.
    #[verifier::when_used_as_spec(code_spec)]
    pub fn code(self) -> (value: u32)
        ensures
            value == self.code_spec(),
    {
        match self {
            AccessLevel::NoAccess => ACCESS_LEVEL_NONE,
            AccessLevel::Read => ACCESS_LEVEL_READ,
            AccessLevel::Write => ACCESS_LEVEL_WRITE,
            AccessLevel::Full => ACCESS_LEVEL_FULL,
        }
    }

    /// The level that one of the engine's codes stands for.
    pub fn of(value: u32) -> (level: AccessLevel)
        requires
            value <= ACCESS_LEVEL_FULL,
        ensures
            AccessLevel::of_code(value) == Some(level),
            level.code_spec() == value,
    {
        if value == ACCESS_LEVEL_NONE {
            AccessLevel::NoAccess
        } else if value == ACCESS_LEVEL_READ {
            AccessLevel::Read
        } else if value == ACCESS_LEVEL_WRITE {
            AccessLevel::Write
        } else {
            AccessLevel::Full
        }
    }

    /// The codes keep the order of the levels, and each code stands for its
    /// own level.
    pub proof fn lemma_codes(a: AccessLevel, b: AccessLevel)
        ensures
            AccessLevel::of_code(a.code_spec()) == Some(a),
            a.code_spec() == b.code_spec() ==> a == b,
            a.code_spec() <= 3,
    {
    }
}

impl vstd::std_specs::convert::TryFromSpecImpl<u32> for AccessLevel {
    /// The error of a refused code is a fresh value, so the conversion is
    /// stated by the contract of `try_from` and by [`AccessLevel::of_code`].
    open spec fn obeys_try_from_spec() -> bool {
        false
    }

    open spec fn try_from_spec(value: u32) -> core::result::Result<AccessLevel, Error> {
        arbitrary()
    }
}

impl TryFrom<u32> for AccessLevel {
    type Error = Error;

    /// The level that `value` stands for; any other value is an invalid
    /// parameter.
    fn try_from(value: u32) -> (r: core::result::Result<AccessLevel, Error>)
        ensures
            match AccessLevel::of_code(value) {
                Some(level) => r == Ok::<AccessLevel, Error>(level),
                None => r is Err && r->Err_0@ == "Invalid parameter."@,
            },
    {
        if value == ACCESS_LEVEL_NONE {
            Ok(AccessLevel::NoAccess)
        } else if value == ACCESS_LEVEL_READ {
            Ok(AccessLevel::Read)
        } else if value == ACCESS_LEVEL_WRITE {
            Ok(AccessLevel::Write)
        } else if value == ACCESS_LEVEL_FULL {
            Ok(AccessLevel::Full)
        } else {
            Err(Error::new("Invalid parameter.".to_owned()))
        }
    }
}

/// The calendar type that a [`Date`] is made from and gives back.
#[verifier::external_type_specification]
#[verifier::external_body]
pub struct ExNaiveDate(chrono::NaiveDate);

/// The calendar type that a [`DateTime`] is made from and gives back.
#[verifier::external_type_specification]
#[verifier::external_body]
pub struct ExNaiveDateTime(chrono::NaiveDateTime);

/// The date with this day number, counted from January 1 of the year 1 as
/// day 1, or none where the calendar has no such date.
pub uninterp spec fn date_of_day_number(days: i32) -> Option<chrono::NaiveDate>;

/// The date and time this many whole seconds after the midnight that began
/// January 1, 1970, or none where the calendar has no such date and time.
pub uninterp spec fn date_time_of_timestamp(seconds: i64) -> Option<chrono::NaiveDateTime>;

/// `chrono::NaiveDate::from_num_days_from_ce_opt`: the date with this day
/// number, or none. It is claimed to give the same for the same day number
/// every time; [`date_of_day_number`] names what it gives.
#[verifier::external_body]
fn naive_date(days: i32) -> (date: Option<chrono::NaiveDate>)
    ensures
        date == date_of_day_number(days),
{
    chrono::NaiveDate::from_num_days_from_ce_opt(days)
}

/// `chrono::Datelike::num_days_from_ce` on a `NaiveDate`: its day number. It
/// is claimed to be a number from which the calendar makes a date again.
#[verifier::external_body]
fn naive_date_days(date: &chrono::NaiveDate) -> (days: i32)
    ensures
        day_number_exists(days),
{
    chrono::Datelike::num_days_from_ce(date)
}

/// `chrono::NaiveDateTime::from_timestamp_opt` with no nanoseconds: the date
/// and time this many seconds after the epoch, or none. It is claimed to give
/// the same for the same number; [`date_time_of_timestamp`] names what it gives.
#[verifier::external_body]
#[allow(deprecated)]
fn naive_date_time(seconds: i64) -> (date_time: Option<chrono::NaiveDateTime>)
    ensures
        date_time == date_time_of_timestamp(seconds),
{
    chrono::NaiveDateTime::from_timestamp_opt(seconds, 0)
}

/// `chrono::NaiveDateTime::timestamp`: the whole seconds since the epoch. It
/// is claimed to be a number from which the calendar makes a date and time
/// again.
#[verifier::external_body]
#[allow(deprecated)]
fn naive_date_time_seconds(date_time: &chrono::NaiveDateTime) -> (seconds: i64)
    ensures
        timestamp_exists(seconds),
{
    date_time.timestamp()
}

/// A calendar date without a time zone, held as its day number.
#[derive(Clone, Copy, Debug, PartialEq, Eq, PartialOrd, Ord, Hash)]
pub struct Date {
    days: i32,
}

impl Date {
    /// Every date is one that the calendar has.
    #[verifier::type_invariant]
    pub closed spec fn in_calendar(self) -> bool {
        day_number_exists(self.days)
    }

    /// The day number, counted from January 1 of the year 1 as day 1.
    pub closed spec fn days(self) -> i32 {
        self.days
    }

    /// The date with this day number, if the calendar has one.
    pub fn from_days(days: i32) -> (date: Option<Date>)
        ensures
            date.is_some() == day_number_exists(days),
            date matches Some(d) ==> d.days() == days,
    {
        match naive_date(days) {
            Some(_) => Some(Date { days }),
            None => None,
        }
    }

    /// The date that `native` is.
    pub fn from_native(native: chrono::NaiveDate) -> (date: Date) {
        let days = naive_date_days(&native);
        Date { days }
    }

    /// This date as a calendar value: the date that has its day number.
    pub fn to_native(&self) -> (native: chrono::NaiveDate)
        ensures
            date_of_day_number(self.days()) == Some(native),
    {
        proof {
            use_type_invariant(self);
        }
        naive_date(self.days).unwrap()
    }

    /// The day number, counted from January 1 of the year 1 as day 1.
    pub fn num_days_from_ce(&self) -> (days: i32)
        ensures
            days == self.days(),
            day_number_exists(days),
    {
        proof {
            use_type_invariant(self);
        }
        self.days
    }

    /// The date that the engine's date `raw` stands for.
    pub fn from_raw_date(raw: &RawDate) -> (date: Date)
        requires
            day_number_exists(raw.days),
        ensures
            date.days() == raw.days,
    {
        Date { days: raw.days_since_epoch() }
    }

    /// The engine's date for this date.
    pub fn as_raw_date(&self) -> (raw: RawDate)
        ensures
            raw.days == self.days(),
            day_number_exists(raw.days),
    {
        proof {
            use_type_invariant(self);
        }
        RawDate::from_days(self.days)
    }
}

/// A calendar date and time without a time zone, held as the whole seconds
/// since the midnight that began January 1, 1970.
#[derive(Clone, Copy, Debug, PartialEq, Eq, PartialOrd, Ord, Hash)]
pub struct DateTime {
    seconds: i64,
}

impl DateTime {
    /// Every date and time is one that the calendar has.
    #[verifier::type_invariant]
    pub closed spec fn in_calendar(self) -> bool {
        timestamp_exists(self.seconds)
    }

    /// The whole seconds since the epoch.
    pub closed spec fn seconds(self) -> i64 {
        self.seconds
    }

    /// The date and time that `native` is, to the second.
    pub fn from_native(native: chrono::NaiveDateTime) -> (date_time: DateTime) {
        let seconds = naive_date_time_seconds(&native);
        DateTime { seconds }
    }

    /// The date and time this many seconds after the epoch, if the calendar
    /// has one.
    pub fn from_timestamp_opt(secs: i64) -> (date_time: Option<DateTime>)
        ensures
            date_time.is_some() == timestamp_exists(secs),
            date_time matches Some(d) ==> d.seconds() == secs,
    {
        match naive_date_time(secs) {
            Some(_) => Some(DateTime { seconds: secs }),
            None => None,
        }
    }

    /// This date and time as a calendar value: the one at its second.
    pub fn to_native(&self) -> (native: chrono::NaiveDateTime)
        ensures
            date_time_of_timestamp(self.seconds()) == Some(native),
    {
        proof {
            use_type_invariant(self);
        }
        naive_date_time(self.seconds).unwrap()
    }

    /// The whole seconds since the epoch.
    pub fn timestamp(&self) -> (seconds: i64)
        ensures
            seconds == self.seconds(),
            timestamp_exists(seconds),
    {
        proof {
            use_type_invariant(self);
        }
        self.seconds
    }

    /// The date and time that the engine's value `raw` stands for.
    pub fn from_raw_datetime(raw: &RawDateTime) -> (date_time: DateTime)
        requires
            timestamp_exists(raw.seconds),
        ensures
            date_time.seconds() == raw.seconds,
    {
        DateTime { seconds: raw.seconds_since_epoch() }
    }

    /// The engine's value for this date and time.
    pub fn as_raw_datetime(&self) -> (raw: RawDateTime)
        ensures
            raw.seconds == self.seconds(),
            timestamp_exists(raw.seconds),
    {
        proof {
            use_type_invariant(self);
        }
        RawDateTime::from_seconds_since_epoch(self.seconds)
    }
}

/// Whether the calendar has a date with this day number, counted from
/// January 1 of the year 1 as day 1.
pub open spec fn day_number_exists(days: i32) -> bool {
    date_of_day_number(days) is Some
}

/// Whether the calendar has a date and time this many whole seconds after
/// the midnight that began January 1, 1970.
pub open spec fn timestamp_exists(seconds: i64) -> bool {
    date_time_of_timestamp(seconds) is Some
}

} // verus!
