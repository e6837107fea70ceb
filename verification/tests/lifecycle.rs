use odbc_rs::error::DriverError;
use odbc_rs::fetch::{FetchStep, Fetcher};
use odbc_rs::state::{
    accumulate_affected, affected_of, after_call, count_step, keep_first, AfterCall, CountStep, given_catalog, table_entry, table_name, ClearStep, CloseStep, CompletionStep, ConnectionEffect,
    ConnectionState, ConnectionStatus, ExecutionOutcome, FetchStart, IdentitySource, Liveness, NativeAttempt,
    Recovery, Resource, ResultKind, ResultState,
};
use odbc_rs::types::{Column, Kind, Options, SqlType, Values};

const PID: u32 = 42;

fn connection() -> ConnectionState {
    ConnectionState::new(1, PID, Options::default())
}

fn result(kind: ResultKind, immediate: bool, count: Option<usize>) -> ResultState {
    ResultState::new(2, 1, PID, "SELECT 1".into(), count, immediate, kind)
}

fn int_column() -> Column {
    Column { name: "x".into(), native_type: SqlType::Integer, nullable: None, kind: Kind::Integer, buffer: None }
}

#[test]
fn connection_checks() {
    let mut c = connection();
    assert!(c.check("prepare", PID).is_ok());
    let e = c.check("prepare", 7).unwrap_err();
    assert_eq!(e.message, "Connection belongs to another process; reconnect in this process");
    c.observe_error(&DriverError::new("x", "y", String::new()));
    assert_eq!(c.status, ConnectionStatus::Open);
    let mut uncertain = DriverError::new("x", "y", String::new());
    uncertain.uncertain = true;
    c.observe_error(&uncertain);
    assert_eq!(c.status, ConnectionStatus::Uncertain);
    let e = c.check("prepare", PID).unwrap_err();
    assert!(e.uncertain);
    assert_eq!(e.message, "Connection is closed or uncertain; dispose of it");
    assert!(c.local(PID) && !c.local(PID + 1));
}

#[test]
fn liveness() {
    let mut c = connection();
    assert!(c.observe_liveness(Liveness::Alive));
    assert!(c.observe_liveness(Liveness::Failed { unsupported: true }));
    assert_eq!(c.status, ConnectionStatus::Open);
    assert!(!c.observe_liveness(Liveness::Dead));
    assert_eq!(c.status, ConnectionStatus::Uncertain);
}

#[test]
fn disconnect_flow() {
    let mut c = connection();
    assert_eq!(c.begin_close(PID + 1, true).unwrap_err().message, "Connection belongs to another process");
    assert_eq!(c.begin_close(PID, false).unwrap_err().message, "A result is in use");
    assert_eq!(c.status, ConnectionStatus::Open);
    assert_eq!(c.begin_close(PID, true).unwrap(), CloseStep::Release);
    assert_eq!(c.status, ConnectionStatus::Closing);
    let mut first = None;
    keep_first(&mut first, Ok(()));
    assert!(first.is_none());
    keep_first(&mut first, Err(DriverError::new("clear", "cleanup", "one".into())));
    keep_first(&mut first, Err(DriverError::new("disconnect", "cleanup", "two".into())));
    assert_eq!(first.as_ref().unwrap().message, "one");
    assert_eq!(c.finish_close(first).unwrap_err().message, "one");
    assert_eq!(c.status, ConnectionStatus::Uncertain);
    let mut c = connection();
    c.begin_close(PID, true).unwrap();
    assert!(c.finish_close(None).is_ok());
    assert_eq!(c.status, ConnectionStatus::Closed);
    assert_eq!(c.begin_close(PID, false).unwrap(), CloseStep::AlreadyClosed);
}

#[test]
fn prepared_result_lifecycle() {
    let c = connection();
    let mut r = result(ResultKind::Query, false, Some(1));
    assert_eq!(r.status(Some(&c), PID), "prepared");
    assert!(!r.complete());
    assert_eq!(r.begin_has_completed(PID, Some(&c)).unwrap(), CompletionStep::Known(false));
    assert!(r.begin_column_info(PID, Some(&c)).unwrap());
    let e = r.begin_fetch(PID, Some(&c), None).err().unwrap();
    assert_eq!(e.message, "Result is not fetchable; execute it first or create a new result");
    let e = r.begin_execute(PID, Some(&c), 2, 1).err().unwrap();
    assert_eq!(e.message, "Expected 1 parameters; received 2");
    assert!(matches!(r.resource, Resource::Ready));
    assert!(matches!(r.begin_execute(PID, Some(&c), 1, 1), Ok(Recovery::Reuse)));
    assert!(matches!(r.resource, Resource::Failed));
    r.reset_for_execute(1);
    let mut fetcher = Fetcher::new(vec![int_column()]);
    fetcher.accept(Some(vec![Values::Integer(vec![Some(7)])])).unwrap();
    let (outcome, effect) = r.finish_execution(9, 10, ExecutionOutcome::Cursor { fetcher, affected: None });
    assert!(outcome.is_ok());
    assert_eq!(effect, ConnectionEffect::Keep);
    assert!(r.bound);
    assert_eq!(r.columns.len(), 1);
    assert_eq!(r.status(Some(&c), PID), "fetchable");
    assert_eq!(r.begin_has_completed(PID, Some(&c)).unwrap(), CompletionStep::Probe);
    let mut progress = match r.begin_fetch(PID, Some(&c), None).ok().unwrap() {
        FetchStart::Cursor(p) => p,
        _ => panic!("expected a cursor"),
    };
    if let Resource::Active(Some(f)) = &mut r.resource {
        assert_eq!(f.advance(&mut progress), FetchStep::NeedRows);
        f.start_refill();
        f.accept(None).unwrap();
        assert_eq!(f.advance(&mut progress), FetchStep::Finished);
    }
    assert_eq!(progress.delivered, 1);
    r.record_delivery(1).unwrap();
    assert_eq!(r.delivered, 1);
    assert_eq!(r.status(Some(&c), PID), "exhausted");
    assert!(r.valid(Some(&c), PID));
    assert!(matches!(r.begin_clear(PID), Ok(ClearStep::CloseCursor)));
    let (outcome, _) = r.finish_clear(Ok(()));
    assert!(outcome.is_ok());
    assert!(!r.leased);
    assert_eq!(r.status(Some(&c), PID), "cleared");
    assert_eq!(r.delivered, 1);
    assert!(matches!(r.begin_clear(PID), Ok(ClearStep::AlreadyCleared)));
    assert_eq!(r.check("fetch", PID, Some(&c)).unwrap_err().message, "Result has been cleared or has failed");
}

#[test]
fn statement_results() {
    let c = connection();
    let mut r = result(ResultKind::Statement, true, None);
    assert_eq!(r.status(Some(&c), PID), "allocated");
    assert_eq!(r.begin_column_info(PID, Some(&c)).unwrap_err().message,
        "Direct statement must be executed before requesting columns");
    assert!(matches!(r.begin_execute(PID, Some(&c), 0, 1), Ok(Recovery::Reuse)));
    r.reset_for_execute(1);
    let (outcome, _) = r.finish_execution(1, 0, ExecutionOutcome::NoCursor { affected: Ok(Some(3)), batch_error: None });
    assert!(outcome.is_ok());
    assert_eq!(r.affected, Some(3));
    assert_eq!(r.status(Some(&c), PID), "completed");
    assert!(r.complete());
    match r.begin_fetch(PID, Some(&c), Some(5)).ok().unwrap() {
        FetchStart::Rows(v) => assert!(v.is_empty()),
        _ => panic!(),
    }
    assert_eq!(r.begin_has_completed(PID, Some(&c)).unwrap(), CompletionStep::Known(true));
}

#[test]
fn empty_batches_and_failures() {
    let c = connection();
    let mut r = result(ResultKind::Query, true, None);
    assert_eq!(r.begin_execute(PID, Some(&c), 1, 0).err().unwrap().message,
        "Empty query batches require prepared execution for typed metadata");
    let mut r2 = result(ResultKind::Query, false, Some(1));
    assert!(r2.begin_execute(PID, Some(&c), 1, 0).is_ok());
    r2.reset_for_execute(0);
    r2.finish_empty_execution(vec![int_column()]);
    assert_eq!(r2.affected, Some(0));
    assert_eq!(r2.status(Some(&c), PID), "completed");
    match r2.begin_fetch(PID, Some(&c), None).ok().unwrap() {
        FetchStart::Rows(v) => assert_eq!(v.len(), 1),
        _ => panic!(),
    }
    r.reset_for_execute(2);
    let batch = DriverError::new("execute", "batch", "rows failed".into());
    let (outcome, _) = r.finish_execution(1, 0,
        ExecutionOutcome::NoCursor { affected: Ok(Some(1)), batch_error: Some(batch) });
    assert_eq!(outcome.unwrap_err().kind, "batch");
    assert_eq!(r.native_attempt.as_ref().unwrap().outcome, "failure");
    assert_eq!(r.status(Some(&c), PID), "failed");
    let mut uncertain = DriverError::new("fetch", "database", "gone".into());
    uncertain.uncertain = true;
    let (e, effect) = r2.fail_consumption(uncertain);
    assert!(e.uncertain);
    assert_eq!(effect, ConnectionEffect::MarkUncertain);
    assert!(r2.consumption_error.is_some());
    assert_eq!(r2.begin_execute(PID, Some(&c), 1, 1).err().unwrap().message, "Result has been cleared or has failed");
    assert_eq!(r2.recover_statement().err().unwrap().message, "Result has failed; clear it and prepare a new result");
}

#[test]
fn released_and_foreign() {
    let c = connection();
    let r = result(ResultKind::Query, false, None);
    assert_eq!(r.check("fetch", PID, None).unwrap_err().message, "Connection has been released");
    assert_eq!(r.status(None, PID), "invalid");
    assert_eq!(r.status(Some(&c), PID + 1), "invalid");
    assert_eq!(r.check("fetch", PID + 1, Some(&c)).unwrap_err().message, "Result belongs to another process");
    let mut r = result(ResultKind::Query, false, None);
    assert_eq!(r.begin_clear(PID + 1).err().unwrap().message, "Result belongs to another process");
    r.begin_clear(PID).ok().unwrap();
    let (outcome, effect) = r.finish_clear(Err(DriverError::new("clear", "cleanup", "panic".into())));
    assert!(outcome.unwrap_err().uncertain);
    assert_eq!(effect, ConnectionEffect::MarkUncertain);
    let mut c2 = connection();
    c2.apply(effect);
    assert_eq!(c2.status, ConnectionStatus::Uncertain);
}

#[test]
fn counts_and_identities() {
    assert_eq!(affected_of(-1), None);
    assert_eq!(affected_of(4), Some(4));
    assert_eq!(accumulate_affected(Some(2), 3), Some(5));
    assert_eq!(accumulate_affected(Some(2), -1), None);
    assert_eq!(accumulate_affected(None, 3), None);
    assert_eq!(accumulate_affected(Some(usize::MAX), 1), None);
    let mut ids = IdentitySource::new();
    assert_eq!(ids.identity(), 1);
    assert_eq!(ids.identity(), 2);
    let t = table_entry(None, Some("dbo".into()), table_name(Some("t".into())).ok().unwrap(), None);
    assert_eq!((t.name.as_str(), t.table_type.as_str()), ("t", ""));
    assert_eq!(table_name(None).err().unwrap().message, "Missing table name");
    assert_eq!(given_catalog(""), None);
    assert_eq!(given_catalog("sales").as_deref(), Some("sales"));
}

#[test]
fn refused_executions_change_nothing() {
    let c = connection();
    let mut r = result(ResultKind::Query, false, Some(1));
    r.affected = Some(5);
    r.batch_size = 3;
    let e = r.begin_execute(PID, Some(&c), 2, 1).err().unwrap();
    assert_eq!((e.operation, e.kind), ("bind", "parameter"));
    assert_eq!((r.affected, r.batch_size), (Some(5), 3));
    assert!(matches!(r.resource, Resource::Ready));
    let e = r.begin_execute(PID + 1, Some(&c), 1, 1).err().unwrap();
    assert_eq!(e.operation, "execute");
    assert_eq!((r.affected, r.batch_size), (Some(5), 3));
    let mut d = result(ResultKind::Query, true, None);
    let e = d.begin_execute(PID, Some(&c), 0, 0).err().unwrap();
    assert_eq!((e.operation, e.kind), ("bind", "state"));
    assert!(matches!(d.resource, Resource::Ready));
}

#[test]
fn attempts_are_labelled_by_the_call() {
    let c = connection();
    let mut r = result(ResultKind::Query, false, Some(0));
    assert!(r.begin_execute(PID, Some(&c), 0, 2).is_ok());
    r.reset_for_execute(2);
    let mut fetcher = Fetcher::new(vec![int_column()]);
    fetcher.accept(Some(vec![Values::Integer(vec![Some(1)])])).unwrap();
    let (outcome, _) = r.finish_execution(4, 99, ExecutionOutcome::Cursor { fetcher, affected: Some(7) });
    assert!(outcome.is_ok());
    assert_eq!(r.affected, None);
    let a = r.native_attempt.as_ref().unwrap();
    assert_eq!((a.id, a.outcome, a.duration_nanos, a.batch_size), (4, "success", 99, 2));

    let refused = |state: Option<&str>| {
        let mut r = result(ResultKind::Statement, false, Some(0));
        assert!(r.begin_execute(PID, Some(&c), 0, 3).is_ok());
        r.reset_for_execute(3);
        let error = DriverError::new("execute", "timeout", "slow".into());
        let (outcome, _) = r.finish_execution(5, 1, ExecutionOutcome::Refused { error, state: state.map(String::from) });
        assert!(outcome.is_err());
        assert!(r.consumption_error.is_none());
        assert_eq!(r.native_attempt.as_ref().unwrap().batch_size, 3);
        r.native_attempt.unwrap().outcome
    };
    assert_eq!(refused(Some("HYT00")), "timeout");
    assert_eq!(refused(Some("HY008")), "cancelled");
    assert_eq!(refused(Some("42000")), "failure");
    assert_eq!(refused(None), "failure");

    let mut r = result(ResultKind::Statement, false, Some(0));
    assert!(r.begin_execute(PID, Some(&c), 0, 1).is_ok());
    r.reset_for_execute(1);
    let after = DriverError::new("rows_affected", "database", "lost".into());
    let (outcome, _) = r.finish_execution(6, 1, ExecutionOutcome::Failed { error: after });
    assert_eq!(outcome.unwrap_err().operation, "rows_affected");
    assert_eq!(r.native_attempt.as_ref().unwrap().outcome, "success");
    assert_eq!(r.consumption_error.as_ref().unwrap().message, "lost");

    let mut r = result(ResultKind::Statement, false, Some(0));
    assert!(r.begin_execute(PID, Some(&c), 0, 2).is_ok());
    r.reset_for_execute(2);
    let batch = DriverError::new("execute", "batch", "rows failed".into());
    let (outcome, _) = r.finish_execution(7, 1, ExecutionOutcome::BatchFailed { error: batch });
    assert!(outcome.is_err());
    assert_eq!(r.native_attempt.as_ref().unwrap().outcome, "failure");
    assert!(r.consumption_error.is_none());
}

#[test]
fn steps_after_the_call() {
    assert_eq!(count_step(ResultKind::Statement, 2), CountStep::DrainAll);
    assert_eq!(count_step(ResultKind::Statement, 1), CountStep::RowCount);
    assert_eq!(count_step(ResultKind::Query, 5), CountStep::NoCount);
    assert_eq!(after_call(ResultKind::Query, 1, true, true), AfterCall::AbortBatch);
    assert_eq!(after_call(ResultKind::Statement, 1, false, false), AfterCall::NoResultSet);
    assert_eq!(after_call(ResultKind::Statement, 4, true, false), AfterCall::WithCursor(CountStep::DrainAll));
    assert_eq!(after_call(ResultKind::Query, 4, true, false), AfterCall::WithCursor(CountStep::NoCount));
}

#[test]
fn empty_batch_resets_the_attempt() {
    let c = connection();
    let mut r = result(ResultKind::Statement, false, Some(0));
    r.native_attempt = Some(NativeAttempt { id: 1, outcome: "success", duration_nanos: 0, batch_size: 4 });
    assert!(r.begin_execute(PID, Some(&c), 0, 0).is_ok());
    r.reset_for_execute(0);
    r.finish_empty_execution(vec![]);
    assert!(r.native_attempt.is_none() && r.consumption_error.is_none());
    assert_eq!((r.batch_size, r.affected), (0, Some(0)));
}

#[test]
fn an_active_fetch_starts_filling() {
    let c = connection();
    let mut r = result(ResultKind::Query, false, Some(0));
    assert!(r.begin_execute(PID, Some(&c), 0, 1).is_ok());
    r.reset_for_execute(1);
    let mut fetcher = Fetcher::new(vec![int_column()]);
    fetcher.accept(Some(vec![Values::Integer(vec![Some(4), Some(5)])])).unwrap();
    let _ = r.finish_execution(1, 0, ExecutionOutcome::Cursor { fetcher, affected: None });
    match r.begin_fetch(PID, Some(&c), Some(2)).ok().unwrap() {
        FetchStart::Cursor(p) => assert_eq!(p.stage, odbc_rs::fetch::FetchStage::Filling),
        _ => panic!("expected a cursor"),
    }
    match r.begin_fetch(PID, Some(&c), Some(0)).ok().unwrap() {
        FetchStart::Cursor(p) => assert_eq!(p.stage, odbc_rs::fetch::FetchStage::Done),
        _ => panic!("expected a cursor"),
    }
}
