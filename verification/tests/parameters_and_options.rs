use odbc_rs::config::{
    bigint_mapping, busy, check_connection_string, check_option_names, check_sql, connect_options, frame_rows,
    invalid_pointer, string_option,
};
use odbc_rs::error::DriverError;
use odbc_rs::parameters::{
    binary_parameter_type, integer64_value, parameter_rows, require_scalar, server_fraction, time_text,
    time_unit_seconds, value_width, Parameters,
};
use odbc_rs::types::{BigInt, SqlType};

#[test]
fn batch_failure_annotation() {
    let mut p = Parameters::new(2, 3);
    assert_eq!(p.len(), 2);
    assert_eq!(p.statuses, vec![u16::MAX; 3]);
    assert!(p.failure().is_none());
    p.statuses = vec![0, 5, 6];
    *p.processed = 3;
    let e = p.failure().unwrap();
    assert_eq!((e.operation, e.kind), ("execute", "batch"));
    assert_eq!(e.batch_size, Some(3));
    assert_eq!(e.batch_processed, Some(3));
    assert_eq!(e.batch_succeeded, Some(2));
    assert!(e.batch_outcome_uncertain);
}

#[test]
fn annotation_without_statuses() {
    let p = Parameters::new(1, 4);
    let mut e = DriverError::new("execute", "database", "x".to_string());
    p.annotate_failure(&mut e);
    assert_eq!(e.batch_size, Some(4));
    assert_eq!(e.batch_processed, None);
    assert_eq!(e.batch_succeeded, None);
    assert!(e.batch_outcome_uncertain);
    let single = Parameters::none();
    let mut e = DriverError::new("execute", "database", "x".to_string());
    single.annotate_failure(&mut e);
    assert_eq!(e.batch_size, None);
    assert!(!e.batch_outcome_uncertain);
    let mut one = Parameters::new(1, 1);
    one.statuses = vec![5];
    assert!(one.failure().is_none());
    let d = Parameters::default();
    assert_eq!((d.columns, d.rows, d.statuses.clone(), *d.processed), (0, 1, vec![u16::MAX], usize::MAX));
}

#[test]
fn parameter_shapes() {
    assert_eq!(parameter_rows(None, &vec![]).unwrap(), 1);
    assert_eq!(parameter_rows(Some(2), &vec![3, 3]).unwrap(), 3);
    assert_eq!(parameter_rows(None, &vec![0, 0]).unwrap(), 0);
    let e = parameter_rows(Some(1), &vec![3, 3]).unwrap_err();
    assert_eq!(e.message, "Parameter count does not match the prepared statement");
    let e = parameter_rows(None, &vec![3, 2]).unwrap_err();
    assert_eq!(e.message, "Parameter columns must have equal lengths");
    let e = parameter_rows(None, &vec![1; 65536]).unwrap_err();
    assert_eq!(e.message, "Too many parameter columns");
    assert!(require_scalar(1).is_ok());
    assert!(require_scalar(2).is_err());
}

#[test]
fn parameter_values() {
    assert_eq!(integer64_value(5), Some(5));
    assert_eq!(integer64_value(i64::MIN as u64), None);
    assert_eq!(integer64_value(u64::MAX), Some(-1));
    assert_eq!(time_unit_seconds("weeks").unwrap(), 604800);
    assert_eq!(time_unit_seconds("secs").unwrap(), 1);
    assert_eq!(time_unit_seconds("fortnights").unwrap_err().message, "Invalid time units");
    assert_eq!(time_text(3723, 1_234_567), "01:02:03.1234567");
    assert_eq!(time_text(86399, 9_999_999), "23:59:59.9999999");
    assert_eq!(time_text(0, 0), "00:00:00.0000000");
    assert_eq!(value_width(&vec![]), 1);
    assert_eq!(value_width(&vec![None, Some(0)]), 1);
    assert_eq!(value_width(&vec![Some(3), None, Some(9), Some(2)]), 9);
    assert_eq!(binary_parameter_type(8000), SqlType::Varbinary { length: Some(8000) });
    assert_eq!(binary_parameter_type(8001), SqlType::LongVarbinary { length: Some(8001) });
    assert_eq!(server_fraction(123_456_789), 123_456_700);
}

#[test]
fn connection_options() {
    let o = connect_options(None, None, None, &vec![]).unwrap();
    assert_eq!(o.bigint, BigInt::Integer64);
    assert_eq!(o.timezone.name(), "UTC");
    let o = connect_options(
        Some(Some("character".into())),
        Some(Some("Europe/Berlin".into())),
        Some(Some("America/New_York".into())),
        &vec!["bigint".into(), "timeout".into()],
    )
    .unwrap();
    assert_eq!(o.bigint, BigInt::Character);
    assert_eq!(o.timezone.name(), "Europe/Berlin");
    assert_eq!(o.timezone_out, "America/New_York");
    let e = connect_options(Some(Some("float".into())), None, None, &vec![]).unwrap_err();
    assert_eq!(e.message, "Invalid bigint mapping");
    let e = connect_options(None, Some(Some("Mars/Olympus".into())), None, &vec![]).unwrap_err();
    assert_eq!(e.message, "Unknown server timezone");
    let e = connect_options(None, None, Some(Some("Nowhere".into())), &vec![]).unwrap_err();
    assert_eq!(e.message, "Unknown output timezone");
    let e = connect_options(None, None, None, &vec!["encoding".into()]).unwrap_err();
    assert_eq!(e.message, "Unsupported native option: encoding");
    let e = connect_options(Some(None), None, None, &vec![]).unwrap_err();
    assert_eq!((e.operation, e.message.as_str()), ("options", "bigint must be one nonmissing string"));
}

#[test]
fn refused_options_are_parameter_errors() {
    let refusals = [
        connect_options(Some(Some("float".into())), None, None, &vec![]),
        connect_options(None, Some(Some("Mars/Olympus".into())), None, &vec![]),
        connect_options(None, None, Some(Some("Nowhere".into())), &vec![]),
        connect_options(None, None, None, &vec!["encoding".into()]),
        connect_options(None, Some(None), None, &vec![]),
        connect_options(None, Some(Some("UTC\0".into())), None, &vec![]),
    ];
    for r in refusals {
        let e = r.unwrap_err();
        assert_eq!(e.kind, "parameter");
        assert!(e.operation == "connect" || e.operation == "options");
    }
    let e = connect_options(Some(Some("float".into())), Some(Some("Mars/Olympus".into())), None, &vec!["x".into()]).unwrap_err();
    assert_eq!(e.message, "Invalid bigint mapping");
    let e = connect_options(None, Some(Some("Mars/Olympus".into())), Some(None), &vec!["x".into()]).unwrap_err();
    assert_eq!(e.message, "Unknown server timezone");
    let e = connect_options(None, None, Some(None), &vec!["x".into()]).unwrap_err();
    assert_eq!((e.operation, e.message.as_str()), ("options", "timezone_out must be one nonmissing string"));
    let e = connect_options(None, None, None, &vec!["bigint".into(), "a".into(), "b".into()]).unwrap_err();
    assert_eq!(e.message, "Unsupported native option: a");
    for b in ["integer64", "integer", "numeric", "character"] {
        assert!(connect_options(Some(Some(b.into())), Some(Some("Asia/Tokyo".into())), Some(Some("UTC".into())),
            &vec!["bigint".into(), "timezone".into(), "timezone_out".into(), "timeout".into()]).is_ok());
    }
}

#[test]
fn option_helpers() {
    assert_eq!(bigint_mapping("integer").unwrap(), BigInt::Integer);
    assert_eq!(bigint_mapping("numeric").unwrap(), BigInt::Numeric);
    assert_eq!(string_option("timezone", None, "UTC").unwrap(), "UTC");
    assert_eq!(string_option("timezone", Some(Some("a\0b".into())), "UTC").unwrap_err().message,
        "timezone must be one nonmissing string");
    assert!(check_option_names(&vec!["timezone_out".into(), "timezone".into()]).is_ok());
    assert!(check_connection_string("DSN=x;UID=y").is_ok());
    assert_eq!(check_connection_string("DSN=\0").unwrap_err().message, "Connection string contains NUL");
    assert_eq!(check_sql("SELECT 1\0").unwrap_err().operation, "prepare");
    assert_eq!(frame_rows(10).unwrap(), 10);
    assert!(frame_rows(i32::MAX as usize + 1).is_err());
    assert_eq!(busy().message, "Result is already in use");
    assert_eq!(invalid_pointer().message, "Invalid or stale native pointer");
}
