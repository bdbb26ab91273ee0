use chrono::{NaiveDate, NaiveDateTime};
use tugraph::field::{FieldData, FieldSpec, FieldType};
use tugraph::raw::{
    RawFieldData, FIELD_TYPE_BLOB, FIELD_TYPE_BOOL, FIELD_TYPE_DATE, FIELD_TYPE_DATETIME,
    FIELD_TYPE_DOUBLE, FIELD_TYPE_FLOAT, FIELD_TYPE_INT16, FIELD_TYPE_INT32, FIELD_TYPE_INT64,
    FIELD_TYPE_INT8, FIELD_TYPE_NULL, FIELD_TYPE_STRING,
};
use tugraph::types::{Date, DateTime};
use tugraph::ErrorKind;

#[test]
fn test_field_type() {
    let t_null: FieldType = FIELD_TYPE_NULL.try_into().unwrap();
    assert_eq!(t_null, FieldType::Null);
    let t_bool: FieldType = FIELD_TYPE_BOOL.try_into().unwrap();
    assert_eq!(t_bool, FieldType::Bool);
    let t_int8: FieldType = FIELD_TYPE_INT8.try_into().unwrap();
    assert_eq!(t_int8, FieldType::Int8);
    let t_int16: FieldType = FIELD_TYPE_INT16.try_into().unwrap();
    assert_eq!(t_int16, FieldType::Int16);
    let t_int32: FieldType = FIELD_TYPE_INT32.try_into().unwrap();
    assert_eq!(t_int32, FieldType::Int32);
    let t_int64: FieldType = FIELD_TYPE_INT64.try_into().unwrap();
    assert_eq!(t_int64, FieldType::Int64);
    let t_float: FieldType = FIELD_TYPE_FLOAT.try_into().unwrap();
    assert_eq!(t_float, FieldType::Float);
    let t_double: FieldType = FIELD_TYPE_DOUBLE.try_into().unwrap();
    assert_eq!(t_double, FieldType::Double);
    let t_date: FieldType = FIELD_TYPE_DATE.try_into().unwrap();
    assert_eq!(t_date, FieldType::Date);
    let t_datetime: FieldType = FIELD_TYPE_DATETIME.try_into().unwrap();
    assert_eq!(t_datetime, FieldType::DateTime);
    let t_string: FieldType = FIELD_TYPE_STRING.try_into().unwrap();
    assert_eq!(t_string, FieldType::String);
    let t_blob: FieldType = FIELD_TYPE_BLOB.try_into().unwrap();
    assert_eq!(t_blob, FieldType::Blob);
    let t_invalid: Result<FieldType, _> = 12_u32.try_into();
    assert!(t_invalid.is_err());
}

#[test]
fn test_field_data() {
    let d_null = FieldData::Null;
    assert_eq!(d_null.as_raw_field_data().ty(), FieldType::Null);

    let d_bool = FieldData::Bool(true);
    let raw_bool = d_bool.as_raw_field_data();
    assert_eq!(raw_bool.ty(), FieldType::Bool);
    assert!(raw_bool.as_bool_unchecked());

    let d_int8 = FieldData::Int8(12);
    let raw_int8 = d_int8.as_raw_field_data();
    assert_eq!(raw_int8.ty(), FieldType::Int8);
    assert_eq!(raw_int8.as_int8_unchecked(), 12);

    let d_int16 = FieldData::Int16((1 << 8) + 1);
    let raw_int16 = d_int16.as_raw_field_data();
    assert_eq!(raw_int16.ty(), FieldType::Int16);
    assert_eq!(raw_int16.as_int16_unchecked(), (1 << 8) + 1);

    let d_int32 = FieldData::Int32((1 << 16) + 1);
    let raw_int32 = d_int32.as_raw_field_data();
    assert_eq!(raw_int32.ty(), FieldType::Int32);
    assert_eq!(raw_int32.as_int32_unchecked(), (1 << 16) + 1);

    let d_int64 = FieldData::Int64((1 << 32) + 1);
    let raw_int64 = d_int64.as_raw_field_data();
    assert_eq!(raw_int64.ty(), FieldType::Int64);
    assert_eq!(raw_int64.as_int64_unchecked(), (1 << 32) + 1);

    let d_float = FieldData::Float(1.555_f32.to_bits());
    let raw_float = d_float.as_raw_field_data();
    assert_eq!(raw_float.ty(), FieldType::Float);
    assert_eq!(f32::from_bits(raw_float.as_float_unchecked()), 1.555f32);

    let d_double = FieldData::Double(1.555_f64.to_bits());
    let raw_double = d_double.as_raw_field_data();
    assert_eq!(raw_double.ty(), FieldType::Double);
    assert_eq!(f64::from_bits(raw_double.as_double_unchecked()), 1.555_f64);

    let d_date = FieldData::Date(Date::from_native(
        NaiveDate::from_num_days_from_ce_opt(10000).unwrap(),
    ));
    let raw_date = d_date.as_raw_field_data();
    assert_eq!(raw_date.ty(), FieldType::Date);
    assert_eq!(raw_date.as_date_unchecked().days_since_epoch(), 10000);

    #[allow(deprecated)]
    let d_datetime = FieldData::DateTime(DateTime::from_native(
        NaiveDateTime::from_timestamp_opt(1_000_000_000, 0).unwrap(),
    ));
    let raw_datetime = d_datetime.as_raw_field_data();
    assert_eq!(raw_datetime.ty(), FieldType::DateTime);
    assert_eq!(
        raw_datetime.as_datetime_unchecked().seconds_since_epoch(),
        1_000_000_000
    );

    let d_string = FieldData::String("fielddata".to_string());
    let raw_string = d_string.as_raw_field_data();
    assert_eq!(raw_string.ty(), FieldType::String);
    assert_eq!(raw_string.as_string_unchecked(), "fielddata".to_string());

    let d_blob = FieldData::Blob(b"rawdata".to_vec());
    let raw_blob = d_blob.as_raw_field_data();
    assert_eq!(raw_blob.ty(), FieldType::Blob);
    assert_eq!(raw_blob.as_blob_unchecked(), b"rawdata".to_vec())
}

#[test]
fn test_field_spec() {
    let fs = FieldSpec {
        name: "name".to_string(),
        ty: FieldType::String,
        optional: true,
    };
    let raw_fs = fs.as_raw_field_spec();
    assert_eq!(raw_fs.name(), "name".to_string());
    assert_eq!(raw_fs.ty(), FieldType::String);
    assert!(raw_fs.optional())
}

#[test]
fn field_type_codes_are_zero_to_eleven() {
    let all = [
        FieldType::Null,
        FieldType::Bool,
        FieldType::Int8,
        FieldType::Int16,
        FieldType::Int32,
        FieldType::Int64,
        FieldType::Float,
        FieldType::Double,
        FieldType::Date,
        FieldType::DateTime,
        FieldType::String,
        FieldType::Blob,
    ];
    for (i, ty) in all.iter().enumerate() {
        assert_eq!(ty.code(), i as u32);
        assert_eq!(u32::from(*ty), i as u32);
        assert_eq!(FieldType::try_from(i as u32).unwrap(), *ty);
        assert_eq!(FieldType::of(i as u32), *ty);
    }
    let refused = FieldType::try_from(u32::MAX).unwrap_err();
    assert_eq!(refused.msg(), "Invalid parameter.");
    assert_eq!(refused.kind(), ErrorKind::InvalidParameter);
}

fn round_trip(value: FieldData) {
    let raw = value.as_raw_field_data();
    assert!(raw.is_payload_ok());
    assert_eq!(FieldData::from_raw_field_data(&raw), value);
    assert_eq!(FieldData::try_from_raw(&raw).unwrap(), value);
}

#[test]
fn field_data_round_trips_for_every_variant() {
    round_trip(FieldData::Null);
    round_trip(FieldData::Bool(true));
    round_trip(FieldData::Bool(false));
    round_trip(FieldData::Int8(i8::MIN));
    round_trip(FieldData::Int8(i8::MAX));
    round_trip(FieldData::Int16(i16::MIN));
    round_trip(FieldData::Int16(-1));
    round_trip(FieldData::Int32(i32::MAX));
    round_trip(FieldData::Int32(i32::MIN));
    round_trip(FieldData::Int64(4294967297));
    round_trip(FieldData::Int64(i64::MIN));
    round_trip(FieldData::Float(1.5_f32.to_bits()));
    round_trip(FieldData::Float(f32::NAN.to_bits()));
    round_trip(FieldData::Float(u32::MAX));
    round_trip(FieldData::Double(f64::MIN_POSITIVE.to_bits()));
    round_trip(FieldData::Double(u64::MAX));
    round_trip(FieldData::Date(Date::from_days(10000).unwrap()));
    round_trip(FieldData::Date(Date::from_days(-365).unwrap()));
    round_trip(FieldData::DateTime(DateTime::from_timestamp_opt(1_000_000_000).unwrap()));
    round_trip(FieldData::DateTime(DateTime::from_timestamp_opt(-1).unwrap()));
    round_trip(FieldData::String("x".to_string()));
    round_trip(FieldData::String(String::new()));
    round_trip(FieldData::String("gr\u{fc}\u{df}e \u{4e16}\u{754c}".to_string()));
    round_trip(FieldData::Blob(vec![0, 255, 0, 1]));
    round_trip(FieldData::Blob(Vec::new()));
}

#[test]
fn field_data_default_is_null() {
    assert_eq!(FieldData::default(), FieldData::Null);
}

#[test]
fn raw_field_data_with_a_payload_out_of_range_is_refused() {
    let mut raw = RawFieldData::from_int8(1);
    raw.num = 128;
    assert!(!raw.is_payload_ok());
    let e = FieldData::try_from_raw(&raw).unwrap_err();
    assert_eq!(e.msg(), "Invalid parameter.");

    let mut raw = RawFieldData::new();
    raw.ty = 12;
    assert!(!raw.is_payload_ok());
    assert!(FieldData::try_from_raw(&raw).is_err());

    let mut raw = RawFieldData::from_float(0);
    raw.bits = 1 << 32;
    assert!(!raw.is_payload_ok());

    let mut raw = RawFieldData::from_int64(0);
    raw.ty = FIELD_TYPE_DATE;
    raw.num = 100_000_000;
    assert!(!raw.is_payload_ok());
    raw.num = i64::MAX;
    assert!(!raw.is_payload_ok());

    let mut raw = RawFieldData::from_int64(i64::MAX);
    raw.ty = FIELD_TYPE_DATETIME;
    assert!(!raw.is_payload_ok());
}

#[test]
fn field_data_with_a_nul_cannot_be_sent() {
    assert!(!FieldData::String("foo\0bar".to_string()).is_sendable());
    assert!(FieldData::String("foobar".to_string()).is_sendable());
    assert!(FieldData::Blob(vec![0, 0]).is_sendable());
    assert!(FieldData::Null.is_sendable());
}

#[test]
fn field_spec_goes_to_raw_and_back() {
    let fs = FieldSpec {
        name: "age".to_string(),
        ty: FieldType::Int8,
        optional: false,
    };
    let raw = fs.as_raw_field_spec();
    assert_eq!(raw.ty, 2);
    assert_eq!(FieldSpec::from_raw_field_spec(&raw), fs);
    assert_eq!(FieldSpec::try_from_raw(&raw).unwrap(), fs);
    let mut bad = fs.as_raw_field_spec();
    bad.ty = 12;
    assert_eq!(FieldSpec::try_from_raw(&bad).unwrap_err().msg(), "Invalid parameter.");
}
