use odbc_rs::error::{conversion, invalid, is_uncertain_state, kind_of_state, parameter, DriverError};
use odbc_rs::state::{attempt_outcome, diagnostics_text, is_unsupported_state};

fn record(state: &[u8; 5], code: i32) -> odbc_api::handles::Record {
    odbc_api::handles::Record {
        state: odbc_api::handles::State(*state),
        native_error: code,
        message: vec![],
    }
}

#[test]
fn odbc_timeout_is_uncertain() {
    let error = odbc_api::Error::Diagnostics { record: record(b"HYT00", 7), function: "SQLExecute" };
    let e = DriverError::odbc("execute", error);
    assert_eq!(e.operation, "execute");
    assert_eq!(e.kind, "timeout");
    assert!(e.uncertain);
    assert_eq!(e.sqlstate.as_deref(), Some("HYT00"));
    assert_eq!(e.native_code, Some(7));
}

#[test]
fn odbc_cancellation_and_connection_loss() {
    let e = DriverError::odbc("fetch", odbc_api::Error::Diagnostics { record: record(b"HY008", 0), function: "SQLFetch" });
    assert_eq!(e.kind, "cancelled");
    assert!(e.uncertain);
    let e = DriverError::odbc("fetch", odbc_api::Error::Diagnostics { record: record(b"08S01", 10054), function: "SQLFetch" });
    assert_eq!(e.kind, "database");
    assert!(e.uncertain);
    let e = DriverError::odbc("fetch", odbc_api::Error::UnableToRepresentNull(record(b"22002", 1)));
    assert_eq!(e.kind, "database");
    assert!(!e.uncertain);
    assert_eq!(e.sqlstate.as_deref(), Some("22002"));
}

#[test]
fn odbc_error_without_record() {
    let e = DriverError::odbc("prepare", odbc_api::Error::NoDiagnostics { function: "SQLPrepare" });
    assert_eq!(e.kind, "database");
    assert!(!e.uncertain);
    assert_eq!(e.sqlstate, None);
    assert_eq!(e.native_code, None);
    assert!(!e.message.is_empty());
}

#[test]
fn from_diagnostic_keeps_message_and_code() {
    let e = DriverError::from_diagnostic("bind", "boom".to_string(), Some(("40003".to_string(), -3)));
    assert_eq!(e.message, "boom");
    assert!(e.uncertain);
    assert_eq!(e.kind, "database");
    assert_eq!(e.native_code, Some(-3));
}

#[test]
fn uncertain_states() {
    for s in ["08001", "08S01", "40003", "HY117", "HYT00", "HYT01", "HY008"] {
        assert!(is_uncertain_state(s), "{s}");
    }
    for s in ["42S02", "23000", "0", "8", "HY000", ""] {
        assert!(!is_uncertain_state(s), "{s}");
    }
    assert_eq!(kind_of_state("HYT01"), "timeout");
    assert_eq!(kind_of_state("42000"), "database");
}

#[test]
fn unsupported_states() {
    for s in ["HYC00", "HY092", "HY096", "IM001", "S1C00", "S1092"] {
        assert!(is_unsupported_state(s));
    }
    assert!(!is_unsupported_state("HY000"));
    assert!(odbc_rs::state::unsupported(&odbc_api::Error::Diagnostics { record: record(b"HYC00", 0), function: "f" }));
    assert!(!odbc_rs::state::unsupported(&odbc_api::Error::UnsupportedOdbcApiVersion(record(b"HYC00", 0))));
}

#[test]
fn plain_constructors() {
    let e = DriverError::new("connect", "parameter", "bad".to_string());
    assert_eq!((e.operation, e.kind, e.message.as_str()), ("connect", "parameter", "bad"));
    assert!(!e.uncertain && e.batch_size.is_none() && !e.batch_outcome_uncertain);
    let e = invalid("fetch", "No cursor");
    assert_eq!((e.operation, e.kind), ("fetch", "state"));
    let e = conversion("x");
    assert_eq!((e.operation, e.kind), ("conversion", "conversion"));
    let e = parameter("y");
    assert_eq!((e.operation, e.kind), ("bind", "parameter"));
    assert_eq!(e.render(), "bind: y");
    let d = e.duplicate();
    assert_eq!(d.message, "y");
}

#[test]
fn attempt_outcomes() {
    assert_eq!(attempt_outcome(true, false, None), "success");
    assert_eq!(attempt_outcome(true, true, None), "failure");
    assert_eq!(attempt_outcome(false, false, Some("HYT00")), "timeout");
    assert_eq!(attempt_outcome(false, false, Some("HY008")), "cancelled");
    assert_eq!(attempt_outcome(false, false, Some("42000")), "failure");
    assert_eq!(attempt_outcome(false, false, None), "failure");
}

#[test]
fn sqlstate_text_of_diagnostics_errors() {
    let timeout = odbc_api::Error::Diagnostics { record: record(b"HYT01", 0), function: "SQLExecute" };
    assert_eq!(diagnostics_text(&timeout).as_deref(), Some("HYT01"));
    let null = odbc_api::Error::UnableToRepresentNull(record(b"22002", 1));
    assert_eq!(diagnostics_text(&null), None);
    let no_record = odbc_api::Error::NoDiagnostics { function: "SQLExecute" };
    assert_eq!(diagnostics_text(&no_record), None);
}

#[test]
fn undecodable_sqlstate_does_not_panic() {
    let bad = || odbc_api::Error::Diagnostics { record: record(&[0xff, b'Y', b'C', b'0', b'0'], 12), function: "SQLExecute" };
    let e = DriverError::odbc("execute", bad());
    assert_eq!(e.message, "ODBC diagnostic record whose SQLSTATE is not UTF-8 text");
    assert_eq!(e.sqlstate, None);
    assert_eq!(e.native_code, Some(12));
    assert_eq!(e.kind, "database");
    assert!(e.uncertain);
    assert!(!odbc_rs::state::unsupported(&bad()));
    assert_eq!(diagnostics_text(&bad()), None);
}

#[test]
fn odbc_message_is_the_error_text() {
    let error = odbc_api::Error::Diagnostics { record: record(b"42S02", 208), function: "SQLExecute" };
    let text = error.to_string();
    let e = DriverError::odbc("execute", error);
    assert_eq!(e.message, text);
    assert_eq!(e.kind, "database");
    assert!(!e.uncertain);
}

#[test]
fn odbc_message_without_record_is_the_error_text() {
    let error = odbc_api::Error::NoDiagnostics { function: "SQLFetch" };
    let text = error.to_string();
    let e = DriverError::odbc("fetch", error);
    assert_eq!(e.message, text);
    assert!(!e.message.is_empty());
    assert_eq!((e.kind, e.sqlstate.clone(), e.native_code, e.uncertain), ("database", None, None, false));
}
