use chrono::Datelike;
use tugraph::raw::{
    RawDate, RawDateTime, RawEdgeUid, ACCESS_LEVEL_FULL, ACCESS_LEVEL_NONE, ACCESS_LEVEL_READ,
    ACCESS_LEVEL_WRITE,
};
use tugraph::types::{AccessLevel, Date, DateTime, EdgeUid};

#[test]
fn test_edge_uid() {
    let euid = EdgeUid {
        src: 1,
        lid: 1,
        tid: 1,
        dst: 1,
        eid: 1,
    };
    let raw_euid = euid.as_raw();
    assert_eq!(raw_euid.src(), 1);
    assert_eq!(raw_euid.lid(), 1);
    assert_eq!(raw_euid.tid(), 1);
    assert_eq!(raw_euid.dst(), 1);
    assert_eq!(raw_euid.eid(), 1);
}

#[test]
fn test_access_level() {
    let none: AccessLevel = ACCESS_LEVEL_NONE
        .try_into()
        .expect("faield to convert access_level_none");
    assert!(matches!(none, AccessLevel::NoAccess));
    let read: AccessLevel = ACCESS_LEVEL_READ
        .try_into()
        .expect("faield to convert access_level_read");
    assert!(matches!(read, AccessLevel::Read));
    let write: AccessLevel = ACCESS_LEVEL_WRITE
        .try_into()
        .expect("faield to convert access_level_write");
    assert!(matches!(write, AccessLevel::Write));
    let full: AccessLevel = ACCESS_LEVEL_FULL
        .try_into()
        .expect("faield to convert access_level_full");
    assert!(matches!(full, AccessLevel::Full));
    let invalid: Result<AccessLevel, _> = 4_u32.try_into();
    assert!(invalid.is_err());
}

#[test]
fn test_date() {
    let date = Date::from_native(chrono::NaiveDate::from_num_days_from_ce_opt(10000).unwrap());
    let raw_date = date.as_raw_date();
    assert_eq!(raw_date.days_since_epoch(), date.num_days_from_ce());
}

#[test]
#[allow(deprecated)]
fn test_datetime() {
    let datetime = DateTime::from_native(
        chrono::NaiveDateTime::from_timestamp_opt(1_000_000_000, 0).unwrap(),
    );
    let raw_datetime = datetime.as_raw_datetime();
    assert_eq!(raw_datetime.seconds_since_epoch(), datetime.timestamp());
}

#[test]
fn edge_uid_keeps_each_part_apart() {
    let euid = EdgeUid {
        src: 1,
        lid: 2,
        tid: 3,
        dst: 4,
        eid: 5,
    };
    let raw = euid.as_raw();
    assert_eq!(
        raw,
        RawEdgeUid {
            src: 1,
            dst: 4,
            lid: 2,
            tid: 3,
            eid: 5
        }
    );
    assert_eq!(EdgeUid::from_raw(&raw), euid);
    assert_eq!(EdgeUid::default().as_raw().eid(), 0);
}

#[test]
fn access_levels_are_ordered_and_coded() {
    assert!(AccessLevel::NoAccess < AccessLevel::Read);
    assert!(AccessLevel::Read < AccessLevel::Write);
    assert!(AccessLevel::Write < AccessLevel::Full);
    assert_eq!(AccessLevel::NoAccess.code(), 0);
    assert_eq!(AccessLevel::Read.code(), 1);
    assert_eq!(AccessLevel::Write.code(), 2);
    assert_eq!(AccessLevel::Full.code(), 3);
    assert_eq!(AccessLevel::of(2), AccessLevel::Write);
    assert_eq!(AccessLevel::default(), AccessLevel::NoAccess);
    let refused = AccessLevel::try_from(4).unwrap_err();
    assert_eq!(refused.msg(), "Invalid parameter.");
}

#[test]
fn date_is_made_only_of_days_that_the_calendar_has() {
    assert!(Date::from_days(100_000_000).is_none());
    assert!(Date::from_days(-100_000_000).is_none());
    assert!(Date::from_days(i32::MAX).is_none());
    let date = Date::from_days(719_163).unwrap();
    assert_eq!(date.num_days_from_ce(), 719_163);
    assert_eq!(
        date.to_native(),
        chrono::NaiveDate::from_ymd_opt(1970, 1, 1).unwrap()
    );
    assert_eq!(date.to_native().num_days_from_ce(), 719_163);
    assert_eq!(Date::from_raw_date(&RawDate::from_days(1)).as_raw_date().days, 1);
}

#[test]
fn datetime_is_made_only_of_seconds_that_the_calendar_has() {
    assert!(DateTime::from_timestamp_opt(0).is_some());
    assert!(DateTime::from_timestamp_opt(1000_000_000).is_some());
    assert!(DateTime::from_timestamp_opt(i64::MAX).is_none());
    assert!(DateTime::from_timestamp_opt(i64::MIN).is_none());
    let dt = DateTime::from_timestamp_opt(33011).unwrap();
    assert_eq!(dt.timestamp(), 33011);
    assert_eq!(
        dt.to_native(),
        chrono::NaiveDate::from_ymd_opt(1970, 1, 1)
            .unwrap()
            .and_hms_opt(9, 10, 11)
            .unwrap()
    );
    assert_eq!(
        DateTime::from_raw_datetime(&RawDateTime::from_seconds_since_epoch(7))
            .as_raw_datetime()
            .seconds,
        7
    );
}
