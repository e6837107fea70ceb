use odbc_rs::calendar::{Instant, SqlDate, SqlTimestamp};
use odbc_rs::fetch::{
    check_integer, check_integer64, decode_column, decode_integer, decode_integer64, decode_logical, decode_text,
    ColumnData, Decoded, Fetcher, FetchStage, FetchStep,
};
use odbc_rs::types::{Column, Kind, SqlType, Values, Zone};

fn int_column(name: &str) -> Column {
    Column { name: name.into(), native_type: SqlType::Integer, nullable: Some(true), kind: Kind::Integer, buffer: None }
}

fn ints(v: &[i32]) -> Values {
    Values::Integer(v.iter().map(|x| Some(*x)).collect())
}

fn as_ints(v: &Values) -> Vec<i32> {
    match v {
        Values::Integer(v) => v.iter().map(|x| x.unwrap()).collect(),
        _ => panic!("not integers"),
    }
}

/// Runs a fetch against a queue of blocks standing for the driver.
fn fetch(f: &mut Fetcher, limit: Option<usize>, blocks: &mut Vec<Vec<Values>>, native_calls: &mut usize) -> Vec<Values> {
    let mut p = f.begin_fetch(limit);
    loop {
        match f.advance(&mut p) {
            FetchStep::NeedRows => {
                assert!(f.needs_refill());
                *native_calls += 1;
                f.start_refill();
                let block = if blocks.is_empty() { None } else { Some(blocks.remove(0)) };
                f.accept(block).unwrap();
            }
            FetchStep::Finished => break,
        }
    }
    assert_eq!(p.stage, FetchStage::Done);
    p.out
}

#[test]
fn zero_limit_performs_no_native_fetch() {
    let mut f = Fetcher::new(vec![int_column("a")]);
    let mut blocks = vec![vec![ints(&[1, 2, 3])]];
    let mut calls = 0;
    let out = fetch(&mut f, Some(0), &mut blocks, &mut calls);
    assert_eq!(calls, 0);
    assert_eq!(out.len(), 1);
    assert_eq!(out[0].len(), 0);
    assert!(matches!(out[0], Values::Integer(_)));
}

#[test]
fn partial_fetches_keep_order_and_look_ahead() {
    let mut f = Fetcher::new(vec![int_column("a")]);
    let mut blocks = vec![vec![ints(&[1, 2, 3])], vec![ints(&[4, 5])]];
    let mut calls = 0;
    let out = fetch(&mut f, Some(2), &mut blocks, &mut calls);
    assert_eq!(as_ints(&out[0]), vec![1, 2]);
    assert_eq!(calls, 1);
    assert!(!f.complete());
    let out = fetch(&mut f, Some(2), &mut blocks, &mut calls);
    assert_eq!(as_ints(&out[0]), vec![3, 4]);
    assert_eq!(calls, 2);
    let out = fetch(&mut f, None, &mut blocks, &mut calls);
    assert_eq!(as_ints(&out[0]), vec![5]);
    assert!(f.complete());
    assert_eq!(calls, 3);
    let out = fetch(&mut f, None, &mut blocks, &mut calls);
    assert_eq!(out[0].len(), 0);
    assert_eq!(calls, 3);
}

#[test]
fn exact_boundary_records_exhaustion() {
    let mut f = Fetcher::new(vec![int_column("a")]);
    let mut blocks = vec![vec![ints(&[1, 2])]];
    let mut calls = 0;
    let out = fetch(&mut f, Some(2), &mut blocks, &mut calls);
    assert_eq!(as_ints(&out[0]), vec![1, 2]);
    // The look-ahead at the exact boundary learned that no rows remain.
    assert!(f.complete());
    assert_eq!(calls, 2);
}

#[test]
fn empty_rowset_and_mismatched_block_are_errors() {
    let mut f = Fetcher::new(vec![int_column("a")]);
    f.start_refill();
    let e = f.accept(Some(vec![ints(&[])])).unwrap_err();
    assert_eq!((e.operation, e.kind), ("fetch", "database"));
    assert_eq!(e.message, "Driver returned an empty successful rowset");
    let mut f = Fetcher::new(vec![int_column("a")]);
    let e = f.accept(Some(vec![Values::Logical(vec![Some(true)])])).unwrap_err();
    assert_eq!(e.message, "Native buffer does not match the column conversion plan");
    let mut f = Fetcher::new(vec![int_column("a"), int_column("b")]);
    let e = f.accept(Some(vec![ints(&[1, 2]), ints(&[1])])).unwrap_err();
    assert_eq!(e.kind, "conversion");
    let mut f = Fetcher::new(vec![int_column("a")]);
    let e = f.accept(Some(vec![])).unwrap_err();
    assert_eq!(e.kind, "conversion");
}

#[test]
fn result_without_rows_completes_after_one_probe() {
    let mut f = Fetcher::new(vec![int_column("a")]);
    assert!(!f.complete());
    assert!(f.needs_refill());
    f.accept(None).unwrap();
    assert!(f.complete());
    assert!(!f.needs_refill());
}

#[test]
fn na_sentinels_are_rejected() {
    assert!(check_integer(Some(i32::MIN)).is_err());
    assert_eq!(check_integer(Some(-5)).unwrap(), Some(-5));
    assert_eq!(check_integer(None).unwrap(), None);
    let e = check_integer64(Some(i64::MIN)).unwrap_err();
    assert!(e.message.contains("bigint='character'"));
    assert_eq!(check_integer64(Some(i64::MAX)).unwrap(), Some(i64::MAX));
    assert!(decode_integer(&vec![Some(1), Some(i32::MIN)]).is_err());
    assert_eq!(decode_integer(&vec![Some(1), None]).unwrap().len(), 2);
    assert!(decode_integer64(&vec![Some(i64::MIN)]).is_err());
}

#[test]
fn logical_and_text_decoding() {
    match decode_logical(&vec![Some(0), Some(1), Some(2), None]) {
        Values::Logical(v) => assert_eq!(v, vec![Some(false), Some(true), Some(true), None]),
        _ => panic!(),
    }
    let text: Vec<u16> = "héllo 😀".encode_utf16().collect();
    match decode_text(vec![Some(text), None, Some(vec![])]).unwrap() {
        Values::Text(v) => assert_eq!(v, vec![Some("héllo 😀".to_string()), None, Some(String::new())]),
        _ => panic!(),
    }
    let e = decode_text(vec![Some(vec![0xD800])]).unwrap_err();
    assert_eq!(e.message, "Invalid UTF-16 returned by driver");
}

#[test]
fn values_append_range() {
    let mut a = Values::empty(Kind::Text);
    let b = Values::Text(vec![Some("x".into()), None, Some("z".into())]);
    a.append_range(&b, 1, 3);
    match &a {
        Values::Text(v) => assert_eq!(v, &vec![None, Some("z".to_string())]),
        _ => panic!(),
    }
    let mut a = Values::empty(Kind::Binary);
    a.append_range(&Values::Binary(vec![Some(vec![1, 2]), Some(vec![])]), 0, 2);
    assert_eq!(a.len(), 2);
    assert!(Values::empty(Kind::Date).holds(Kind::Timestamp));
    assert!(!Values::empty(Kind::Text).holds(Kind::Binary));
}

#[test]
fn column_dispatch_matches_kind_and_buffer() {
    let utc = Zone::utc();
    match decode_column(Kind::Logical, ColumnData::Bits(vec![Some(2), None, Some(0)]), &utc).ok().unwrap() {
        Decoded::Column(Values::Logical(v)) => assert_eq!(v, vec![Some(true), None, Some(false)]),
        _ => panic!("expected logicals"),
    }
    match decode_column(Kind::Date, ColumnData::Dates(vec![Some(SqlDate { year: 1970, month: 1, day: 2 }), None]), &utc).ok().unwrap() {
        Decoded::Days(d) => assert_eq!(d, vec![Some(1), None]),
        _ => panic!("expected days"),
    }
    let t = SqlTimestamp { year: 1970, month: 1, day: 1, hour: 0, minute: 1, second: 0, fraction: 5 };
    match decode_column(Kind::Timestamp, ColumnData::Timestamps(vec![Some(t)]), &utc).ok().unwrap() {
        Decoded::Instants(i) => assert_eq!(i, vec![Some(Instant { seconds: 60, nanos: 5 })]),
        _ => panic!("expected instants"),
    }
    let bad = SqlTimestamp { month: 13, ..t };
    let e = decode_column(Kind::Timestamp, ColumnData::Timestamps(vec![Some(t), Some(bad)]), &utc).err().unwrap();
    assert_eq!((e.operation, e.kind, e.message.as_str()), ("conversion", "conversion", "Invalid database timestamp"));
    let e = decode_column(Kind::Integer, ColumnData::I64(vec![Some(1)]), &utc).err().unwrap();
    assert_eq!(e.message, "Native buffer does not match the column conversion plan");
    let e = decode_column(Kind::Time, ColumnData::Other, &utc).err().unwrap();
    assert_eq!(e.message, "Native buffer does not match the column conversion plan");
    let e = decode_column(Kind::Integer, ColumnData::I32(vec![Some(i32::MIN)]), &utc).err().unwrap();
    assert_eq!(e.message, "SQL integer collides with R's NA sentinel");
    match decode_column(Kind::Binary, ColumnData::Bytes(vec![Some(vec![]), None]), &utc).ok().unwrap() {
        Decoded::Column(Values::Binary(v)) => assert_eq!(v, vec![Some(vec![]), None]),
        _ => panic!("expected blobs"),
    }
}
