use odbc_rs::fetch::{plan_source, SourcePlan};
use odbc_rs::types::{bytes_per_row, plan_column, BigInt, BufferPlan, Column, Kind, Nullability, Options, SqlType};

fn options() -> Options {
    Options::default()
}

#[test]
fn default_options() {
    let o = options();
    assert_eq!(o.bigint, BigInt::Integer64);
    assert_eq!(o.timezone.name(), "UTC");
    assert_eq!(o.timezone_out, "UTC");
    assert_eq!(o.buffer_bytes, 4 * 1024 * 1024);
    assert_eq!(o.max_rows, 1024);
    assert_eq!(o.max_field_bytes, 64 * 1024);
}

#[test]
fn unnamed_columns_get_ordinal_names() {
    let c = plan_column(3, String::new(), SqlType::Integer, Nullability::Nullable, &options());
    assert_eq!(c.name, "V3");
    let c = plan_column(12, String::new(), SqlType::Integer, Nullability::Nullable, &options());
    assert_eq!(c.name, "V12");
    let c = plan_column(1, "id".to_string(), SqlType::Integer, Nullability::NoNulls, &options());
    assert_eq!(c.name, "id");
    assert_eq!(c.nullable, Some(false));
    assert_eq!(c.kind, Kind::Integer);
    assert_eq!(c.buffer, Some(BufferPlan::I32));
}

#[test]
fn kind_mapping() {
    let o = options();
    let kind = |t| plan_column(1, "x".into(), t, Nullability::Unknown, &o).kind;
    assert_eq!(kind(SqlType::Bit), Kind::Logical);
    assert_eq!(kind(SqlType::TinyInt), Kind::Integer);
    assert_eq!(kind(SqlType::SmallInt), Kind::Integer);
    assert_eq!(kind(SqlType::BigInt), Kind::Integer64);
    assert_eq!(kind(SqlType::Decimal { precision: 10, scale: 2 }), Kind::Double);
    assert_eq!(kind(SqlType::Real), Kind::Double);
    assert_eq!(kind(SqlType::Date), Kind::Date);
    assert_eq!(kind(SqlType::Time { precision: 0 }), Kind::Time);
    assert_eq!(kind(SqlType::Timestamp { precision: 3 }), Kind::Timestamp);
    assert_eq!(kind(SqlType::Varbinary { length: Some(16) }), Kind::Binary);
    assert_eq!(kind(SqlType::Other { data_type: -154, column_size: None, decimal_digits: 7 }), Kind::Time);
    assert_eq!(kind(SqlType::Other { data_type: -155, column_size: None, decimal_digits: 7 }), Kind::TimestampOffset);
    assert_eq!(kind(SqlType::Other { data_type: -150, column_size: None, decimal_digits: 0 }), Kind::Text);
    assert_eq!(kind(SqlType::Unknown), Kind::Text);
    assert_eq!(plan_column(1, "x".into(), SqlType::Unknown, Nullability::Unknown, &o).nullable, None);
}

#[test]
fn bigint_options() {
    let mut o = options();
    for (mapping, kind, buffer) in [
        (BigInt::Integer, Kind::Integer, Some(BufferPlan::I32)),
        (BigInt::Numeric, Kind::Double, Some(BufferPlan::F64)),
        (BigInt::Character, Kind::Text, Some(BufferPlan::WText { max_str_len: 21 })),
        (BigInt::Integer64, Kind::Integer64, Some(BufferPlan::I64)),
    ] {
        o.bigint = mapping;
        let c = plan_column(1, "n".into(), SqlType::BigInt, Nullability::Nullable, &o);
        assert_eq!(c.kind, kind);
        assert_eq!(c.buffer, buffer);
    }
}

#[test]
fn text_and_binary_buffers_respect_field_limit() {
    let o = options();
    let c = plan_column(1, "s".into(), SqlType::Varchar { length: Some(100) }, Nullability::Nullable, &o);
    assert_eq!(c.buffer, Some(BufferPlan::WText { max_str_len: 200 }));
    let c = plan_column(1, "s".into(), SqlType::WVarchar { length: Some(16384) }, Nullability::Nullable, &o);
    assert_eq!(c.buffer, Some(BufferPlan::WText { max_str_len: 32768 }));
    let c = plan_column(1, "s".into(), SqlType::WVarchar { length: Some(16385) }, Nullability::Nullable, &o);
    assert_eq!(c.buffer, None);
    let c = plan_column(1, "s".into(), SqlType::Varchar { length: None }, Nullability::Nullable, &o);
    assert_eq!(c.buffer, None);
    let c = plan_column(1, "s".into(), SqlType::LongVarchar { length: Some(10) }, Nullability::Nullable, &o);
    assert_eq!(c.buffer, None);
    let c = plan_column(1, "b".into(), SqlType::Binary { length: Some(65536) }, Nullability::Nullable, &o);
    assert_eq!(c.buffer, Some(BufferPlan::Binary { max_bytes: 65536 }));
    let c = plan_column(1, "b".into(), SqlType::Binary { length: Some(65537) }, Nullability::Nullable, &o);
    assert_eq!(c.buffer, None);
    let c = plan_column(1, "t".into(), SqlType::Time { precision: 7 }, Nullability::Nullable, &o);
    assert_eq!(c.buffer, None);
    let c = plan_column(1, "s".into(), SqlType::Char { length: Some(usize::MAX) }, Nullability::Nullable, &o);
    assert_eq!(c.buffer, None);
}

#[test]
fn row_widths() {
    let ind = std::mem::size_of::<isize>();
    assert_eq!(bytes_per_row(BufferPlan::Bit), 1 + ind);
    assert_eq!(bytes_per_row(BufferPlan::I32), 4 + ind);
    assert_eq!(bytes_per_row(BufferPlan::I64), 8 + ind);
    assert_eq!(bytes_per_row(BufferPlan::F64), 8 + ind);
    assert_eq!(bytes_per_row(BufferPlan::Date), 6 + ind);
    assert_eq!(bytes_per_row(BufferPlan::Timestamp), 16 + ind);
    assert_eq!(bytes_per_row(BufferPlan::WText { max_str_len: 10 }), 22 + ind);
    assert_eq!(bytes_per_row(BufferPlan::Binary { max_bytes: 10 }), 10 + ind);
}

fn column(buffer: Option<BufferPlan>) -> Column {
    Column { name: "c".into(), native_type: SqlType::Integer, nullable: None, kind: Kind::Integer, buffer }
}

#[test]
fn source_selection() {
    let o = options();
    let ind = std::mem::size_of::<isize>();
    let cols = vec![column(Some(BufferPlan::I32)), column(Some(BufferPlan::F64))];
    let width = 4 + ind + 8 + ind;
    let cap = (o.buffer_bytes / width).min(o.max_rows).max(1);
    assert_eq!(plan_source(&cols, &o), SourcePlan::Block { capacity: cap });
    assert_eq!(cap, 1024);
    let cols = vec![column(Some(BufferPlan::I32)), column(None)];
    assert_eq!(plan_source(&cols, &o), SourcePlan::Row);
    assert_eq!(plan_source(&vec![], &o), SourcePlan::Row);
    let cols = vec![column(Some(BufferPlan::Binary { max_bytes: 65536 }))];
    assert_eq!(plan_source(&cols, &o), SourcePlan::Block { capacity: 4 * 1024 * 1024 / (65536 + ind) });
    let mut small = options();
    small.buffer_bytes = 10;
    assert_eq!(plan_source(&vec![column(Some(BufferPlan::I64))], &small), SourcePlan::Row);
    small.buffer_bytes = 4 + ind;
    assert_eq!(plan_source(&vec![column(Some(BufferPlan::I32))], &small), SourcePlan::Block { capacity: 1 });
}
