//! Forward paging over one execution. SQL is never rewritten or re-executed.
use vstd::prelude::*;
use vstd::string::*;
use crate::error::{conversion, plain_error, DriverError, DriverResult};
use crate::calendar::{timestamp_error, timestamp_instant, epoch_days_of, date_to_days, timestamp_to_seconds, Instant, SqlDate, SqlTimestamp};
use crate::text::{decode_utf16, utf16_decode};
use crate::types::{Zone, text_view, bytes_view, bytes_per_row, row_bytes, BufferPlan, Column, Kind, Options, Values, ValuesView};

verus! {

/// Rejects the SQL integer that collides with R's `NA_integer_`.
pub fn check_integer(value: Option<i32>) -> (r: DriverResult<Option<i32>>)
    ensures
        value == Some(i32::MIN) ==> (r matches Err(e)
            && plain_error("conversion", "conversion", "SQL integer collides with R's NA sentinel"@, e)),
        value != Some(i32::MIN) ==> r == Ok::<Option<i32>, DriverError>(value),
{
    if value == Some(i32::MIN) {
        Err(conversion("SQL integer collides with R's NA sentinel"))
    } else {
        Ok(value)
    }
}

/// Rejects the SQL bigint that collides with integer64's NA.
pub fn check_integer64(value: Option<i64>) -> (r: DriverResult<Option<i64>>)
    ensures
        value == Some(i64::MIN) ==> (r matches Err(e)
            && plain_error("conversion", "conversion",
                "SQL bigint collides with integer64's NA sentinel; use bigint='character'"@, e)),
        value != Some(i64::MIN) ==> r == Ok::<Option<i64>, DriverError>(value),
{
    if value == Some(i64::MIN) {
        Err(conversion("SQL bigint collides with integer64's NA sentinel; use bigint='character'"))
    } else {
        Ok(value)
    }
}

/// BIT values as R logicals: any nonzero bit is true.
pub fn decode_logical(bits: &Vec<Option<u8>>) -> (v: Values)
    ensures
        v@ == ValuesView::Logical(bits@.map_values(|b: Option<u8>| match b { Some(x) => Some(x != 0), None => None::<bool> })),
{
    let mut out: Vec<Option<bool>> = Vec::new();
    let mut i: usize = 0;
    while i < bits.len()
        invariant
            i <= bits@.len(),
            out@ == bits@.subrange(0, i as int).map_values(|b: Option<u8>| match b { Some(x) => Some(x != 0), None => None::<bool> }),
        decreases bits@.len() - i,
    {
        let v = match bits[i] {
            Some(x) => Some(x != 0),
            None => None,
        };
        out.push(v);
        i = i + 1;
        assert(out@ =~= bits@.subrange(0, i as int).map_values(|b: Option<u8>| match b { Some(x) => Some(x != 0), None => None::<bool> }));
    }
    assert(bits@.subrange(0, i as int) =~= bits@);
    Values::Logical(out)
}

/// INTEGER values as R integers; the one colliding with R's NA is an error.
pub fn decode_integer(values: &Vec<Option<i32>>) -> (r: DriverResult<Values>)
    ensures
        (forall|i: int| 0 <= i < values@.len() ==> #[trigger] values@[i] != Some(i32::MIN)) ==> (r matches Ok(v)
            && v@ == ValuesView::Integer(values@)),
        (exists|i: int| 0 <= i < values@.len() && #[trigger] values@[i] == Some(i32::MIN)) ==> (r matches Err(e)
            && plain_error("conversion", "conversion", "SQL integer collides with R's NA sentinel"@, e)),
{
    let mut out: Vec<Option<i32>> = Vec::new();
    let mut i: usize = 0;
    while i < values.len()
        invariant
            i <= values@.len(),
            out@ == values@.subrange(0, i as int),
            forall|k: int| 0 <= k < i ==> #[trigger] values@[k] != Some(i32::MIN),
        decreases values@.len() - i,
    {
        match check_integer(values[i]) {
            Ok(v) => out.push(v),
            Err(e) => return Err(e),
        }
        i = i + 1;
        assert(out@ =~= values@.subrange(0, i as int));
    }
    assert(values@.subrange(0, i as int) =~= values@);
    Ok(Values::Integer(out))
}

/// BIGINT values as integer64; the one colliding with integer64's NA is an error.
pub fn decode_integer64(values: &Vec<Option<i64>>) -> (r: DriverResult<Values>)
    ensures
        (forall|i: int| 0 <= i < values@.len() ==> #[trigger] values@[i] != Some(i64::MIN)) ==> (r matches Ok(v)
            && v@ == ValuesView::Integer64(values@)),
        (exists|i: int| 0 <= i < values@.len() && #[trigger] values@[i] == Some(i64::MIN)) ==> (r matches Err(e)
            && plain_error("conversion", "conversion",
                "SQL bigint collides with integer64's NA sentinel; use bigint='character'"@, e)),
{
    let mut out: Vec<Option<i64>> = Vec::new();
    let mut i: usize = 0;
    while i < values.len()
        invariant
            i <= values@.len(),
            out@ == values@.subrange(0, i as int),
            forall|k: int| 0 <= k < i ==> #[trigger] values@[k] != Some(i64::MIN),
        decreases values@.len() - i,
    {
        match check_integer64(values[i]) {
            Ok(v) => out.push(v),
            Err(e) => return Err(e),
        }
        i = i + 1;
        assert(out@ =~= values@.subrange(0, i as int));
    }
    assert(values@.subrange(0, i as int) =~= values@);
    Ok(Values::Integer64(out))
}

/// The text of an optional UTF-16 value.
pub open spec fn decoded_view(o: Option<Vec<u16>>) -> Option<Option<Seq<char>>> {
    match o {
        Some(u) => match utf16_decode(u@) {
            Some(t) => Some(Some(t)),
            None => None,
        },
        None => Some(None),
    }
}

/// UTF-16 values from the driver as R character values; invalid UTF-16 is an error.
pub fn decode_text(values: Vec<Option<Vec<u16>>>) -> (r: DriverResult<Values>)
    ensures
        (forall|i: int| 0 <= i < values@.len() ==> #[trigger] decoded_view(values@[i]) is Some) ==> (r matches Ok(v)
            && v@ == ValuesView::Text(values@.map_values(|o: Option<Vec<u16>>| decoded_view(o)->0))),
        (exists|i: int| 0 <= i < values@.len() && #[trigger] decoded_view(values@[i]) is None) ==> (r matches Err(e)
            && plain_error("conversion", "conversion", "Invalid UTF-16 returned by driver"@, e)),
{
    let mut out: Vec<Option<String>> = Vec::new();
    let mut i: usize = 0;
    while i < values.len()
        invariant
            i <= values@.len(),
            out@.map_values(|o: Option<String>| text_view(o))
                == values@.subrange(0, i as int).map_values(|o: Option<Vec<u16>>| decoded_view(o)->0),
            forall|k: int| 0 <= k < i ==> #[trigger] decoded_view(values@[k]) is Some,
        decreases values@.len() - i,
    {
        let v = match &values[i] {
            Some(units) => match decode_utf16(units.as_slice()) {
                Some(s) => Some(s),
                None => {
                    assert(decoded_view(values@[i as int]) is None);
                    return Err(conversion("Invalid UTF-16 returned by driver"));
                },
            },
            None => None,
        };
        let ghost before = out@;
        out.push(v);
        proof {
            assert(out@ =~= before.push(v));
            assert(out@.map_values(|o: Option<String>| text_view(o))
                =~= before.map_values(|o: Option<String>| text_view(o)).push(text_view(v)));
        }
        i = i + 1;
        assert(out@.map_values(|o: Option<String>| text_view(o))
            =~= values@.subrange(0, i as int).map_values(|o: Option<Vec<u16>>| decoded_view(o)->0));
    }
    assert(values@.subrange(0, i as int) =~= values@);
    Ok(Values::Text(out))
}

/// Binary values as R raw vectors.
pub fn decode_binary(values: Vec<Option<Vec<u8>>>) -> (v: Values)
    ensures
        v@ == ValuesView::Binary(values@.map_values(|o: Option<Vec<u8>>| bytes_view(o))),
{
    Values::Binary(values)
}

/// DATE values as days since 1970-01-01 (R's Date); an invalid date is an error.
pub fn decode_dates(values: &Vec<Option<SqlDate>>) -> (r: DriverResult<Vec<Option<i64>>>)
    ensures
        r matches Ok(days) ==> days@.len() == values@.len() && forall|i: int| 0 <= i < values@.len() ==>
            #[trigger] days@[i] == (match values@[i] { Some(d) => Some(epoch_days_of(d)->0), None => None::<i64> }),
        r matches Ok(_) <==> forall|i: int| 0 <= i < values@.len() ==> (#[trigger] values@[i] matches Some(d) ==> epoch_days_of(d) is Some),
        r matches Err(e) ==> plain_error("conversion", "conversion", "Invalid database date"@, e),
{
    let mut out: Vec<Option<i64>> = Vec::new();
    let mut i: usize = 0;
    while i < values.len()
        invariant
            i <= values@.len(),
            out@.len() == i,
            forall|k: int| 0 <= k < i ==>
                #[trigger] out@[k] == (match values@[k] { Some(d) => Some(epoch_days_of(d)->0), None => None::<i64> }),
            forall|k: int| 0 <= k < i ==> (#[trigger] values@[k] matches Some(d) ==> epoch_days_of(d) is Some),
        decreases values@.len() - i,
    {
        match values[i] {
            Some(d) => match date_to_days(d) {
                Ok(n) => out.push(Some(n)),
                Err(e) => return Err(e),
            },
            None => out.push(None),
        }
        i = i + 1;
    }
    Ok(out)
}

/// TIMESTAMP values read in the server's time zone as instants (R's
/// POSIXct); the first invalid, ambiguous or nonexistent one is an error.
pub fn decode_timestamps(values: &Vec<Option<SqlTimestamp>>, zone: &Zone) -> (r: DriverResult<Vec<Option<Instant>>>)
    ensures
        r matches Ok(out) ==> out@.len() == values@.len() && forall|i: int| 0 <= i < values@.len() ==>
            (#[trigger] out@[i] is None <==> values@[i] is None),
        r matches Ok(out) ==> forall|i: int| 0 <= i < values@.len() ==> (#[trigger] values@[i] matches Some(t) ==>
            timestamp_instant(t, *zone) == Some(out@[i]->0)),
        r is Err <==> exists|i: int| 0 <= i < values@.len() && (#[trigger] values@[i] matches Some(t) && timestamp_instant(t, *zone) is None),
        r matches Err(e) ==> exists|i: int| 0 <= i < values@.len()
            && (forall|k: int| 0 <= k < i ==> (#[trigger] values@[k] matches Some(t) ==> timestamp_instant(t, *zone) is Some))
            && (#[trigger] values@[i] matches Some(t) && timestamp_instant(t, *zone) is None
                && plain_error("conversion", "conversion", timestamp_error(t), e)),
{
    let mut out: Vec<Option<Instant>> = Vec::new();
    let mut i: usize = 0;
    while i < values.len()
        invariant
            i <= values@.len(),
            out@.len() == i,
            forall|k: int| 0 <= k < i ==> (#[trigger] out@[k] is None <==> values@[k] is None),
            forall|k: int| 0 <= k < i ==> (#[trigger] values@[k] matches Some(t) ==> timestamp_instant(t, *zone) == Some(out@[k]->0)),
        decreases values@.len() - i,
    {
        match values[i] {
            Some(t) => match timestamp_to_seconds(t, zone) {
                Ok(instant) => out.push(Some(instant)),
                Err(e) => {
                    assert(timestamp_instant(t, *zone) is None);
                    assert(values@[i as int] matches Some(t) && timestamp_instant(t, *zone) is None
                        && plain_error("conversion", "conversion", timestamp_error(t), e));
                    return Err(e);
                },
            },
            None => out.push(None),
        }
        i = i + 1;
    }
    Ok(out)
}

/// The values of one bound column buffer, read out as plain values: BIT
/// bytes, integers, doubles by their bits, dates, timestamps, UTF-16 text
/// and bytes; `Other` for any other buffer.
pub enum ColumnData {
    Bits(Vec<Option<u8>>),
    I32(Vec<Option<i32>>),
    I64(Vec<Option<i64>>),
    F64(Vec<Option<u64>>),
    Dates(Vec<Option<SqlDate>>),
    Timestamps(Vec<Option<SqlTimestamp>>),
    WText(Vec<Option<Vec<u16>>>),
    Bytes(Vec<Option<Vec<u8>>>),
    Other,
}

/// A decoded column: R values, or days and instants that become R doubles.
pub enum Decoded {
    Column(Values),
    Days(Vec<Option<i64>>),
    Instants(Vec<Option<Instant>>),
}

/// The buffer that the block plan of a column of this kind binds.
pub open spec fn buffer_holds(kind: Kind, data: ColumnData) -> bool {
    match kind {
        Kind::Logical => data is Bits,
        Kind::Integer => data is I32,
        Kind::Integer64 => data is I64,
        Kind::Double => data is F64,
        Kind::Date => data is Dates,
        Kind::Timestamp => data is Timestamps,
        Kind::Text => data is WText,
        Kind::Binary => data is Bytes,
        _ => false,
    }
}

/// Decodes one bound column of a block for a column of `kind`, reading
/// timestamps in `zone`. A buffer that the kind does not bind is an error.
pub fn decode_column(kind: Kind, data: ColumnData, zone: &Zone) -> (r: DriverResult<Decoded>)
    ensures
        !buffer_holds(kind, data) ==> (r matches Err(e) && plain_error("conversion", "conversion",
            "Native buffer does not match the column conversion plan"@, e)),
        buffer_holds(kind, data) ==> match data {
            ColumnData::Bits(b) => r matches Ok(Decoded::Column(v)) && v@ == ValuesView::Logical(
                b@.map_values(|x: Option<u8>| match x { Some(y) => Some(y != 0), None => None::<bool> })),
            ColumnData::I32(x) => {
                &&& (forall|i: int| 0 <= i < x@.len() ==> #[trigger] x@[i] != Some(i32::MIN)) ==>
                    (r matches Ok(Decoded::Column(v)) && v@ == ValuesView::Integer(x@))
                &&& (exists|i: int| 0 <= i < x@.len() && #[trigger] x@[i] == Some(i32::MIN)) ==> (r matches Err(e)
                    && plain_error("conversion", "conversion", "SQL integer collides with R's NA sentinel"@, e))
            },
            ColumnData::I64(x) => {
                &&& (forall|i: int| 0 <= i < x@.len() ==> #[trigger] x@[i] != Some(i64::MIN)) ==>
                    (r matches Ok(Decoded::Column(v)) && v@ == ValuesView::Integer64(x@))
                &&& (exists|i: int| 0 <= i < x@.len() && #[trigger] x@[i] == Some(i64::MIN)) ==> (r matches Err(e)
                    && plain_error("conversion", "conversion",
                        "SQL bigint collides with integer64's NA sentinel; use bigint='character'"@, e))
            },
            ColumnData::F64(x) => r matches Ok(Decoded::Column(v)) && v@ == ValuesView::Double(x@),
            ColumnData::Dates(x) => {
                &&& (r matches Ok(Decoded::Days(days)) ==> days@.len() == x@.len() && forall|i: int| 0 <= i < x@.len() ==>
                    #[trigger] days@[i] == (match x@[i] { Some(d) => Some(epoch_days_of(d)->0), None => None::<i64> }))
                &&& r is Ok <==> forall|i: int| 0 <= i < x@.len() ==> (#[trigger] x@[i] matches Some(d) ==> epoch_days_of(d) is Some)
                &&& (r is Ok ==> r matches Ok(Decoded::Days(_)))
                &&& (r matches Err(e) ==> plain_error("conversion", "conversion", "Invalid database date"@, e))
            },
            ColumnData::Timestamps(x) => {
                &&& (r is Ok ==> r matches Ok(Decoded::Instants(_)))
                &&& (r matches Ok(Decoded::Instants(out)) ==> out@.len() == x@.len() && forall|i: int| 0 <= i < x@.len() ==>
                    (#[trigger] out@[i] is None <==> x@[i] is None))
                &&& (r matches Ok(Decoded::Instants(out)) ==> forall|i: int| 0 <= i < x@.len() ==>
                    (#[trigger] x@[i] matches Some(t) ==> timestamp_instant(t, *zone) == Some(out@[i]->0)))
                &&& r is Err <==> exists|i: int| 0 <= i < x@.len()
                    && (#[trigger] x@[i] matches Some(t) && timestamp_instant(t, *zone) is None)
                &&& (r matches Err(e) ==> exists|i: int| 0 <= i < x@.len()
                    && (forall|k: int| 0 <= k < i ==> (#[trigger] x@[k] matches Some(t) ==> timestamp_instant(t, *zone) is Some))
                    && (#[trigger] x@[i] matches Some(t) && timestamp_instant(t, *zone) is None
                        && plain_error("conversion", "conversion", timestamp_error(t), e)))
            },
            ColumnData::WText(x) => {
                &&& (forall|i: int| 0 <= i < x@.len() ==> #[trigger] decoded_view(x@[i]) is Some) ==> (r matches Ok(Decoded::Column(v))
                    && v@ == ValuesView::Text(x@.map_values(|o: Option<Vec<u16>>| decoded_view(o)->0)))
                &&& (exists|i: int| 0 <= i < x@.len() && #[trigger] decoded_view(x@[i]) is None) ==> (r matches Err(e)
                    && plain_error("conversion", "conversion", "Invalid UTF-16 returned by driver"@, e))
            },
            ColumnData::Bytes(x) => r matches Ok(Decoded::Column(v))
                && v@ == ValuesView::Binary(x@.map_values(|o: Option<Vec<u8>>| bytes_view(o))),
            ColumnData::Other => false,
        },
{
    match (kind, data) {
        (Kind::Logical, ColumnData::Bits(b)) => Ok(Decoded::Column(decode_logical(&b))),
        (Kind::Integer, ColumnData::I32(x)) => match decode_integer(&x) {
            Ok(v) => Ok(Decoded::Column(v)),
            Err(e) => Err(e),
        },
        (Kind::Integer64, ColumnData::I64(x)) => match decode_integer64(&x) {
            Ok(v) => Ok(Decoded::Column(v)),
            Err(e) => Err(e),
        },
        (Kind::Double, ColumnData::F64(x)) => Ok(Decoded::Column(Values::Double(x))),
        (Kind::Date, ColumnData::Dates(x)) => match decode_dates(&x) {
            Ok(d) => Ok(Decoded::Days(d)),
            Err(e) => Err(e),
        },
        (Kind::Timestamp, ColumnData::Timestamps(x)) => match decode_timestamps(&x, zone) {
            Ok(t) => Ok(Decoded::Instants(t)),
            Err(e) => Err(e),
        },
        (Kind::Text, ColumnData::WText(x)) => match decode_text(x) {
            Ok(v) => Ok(Decoded::Column(v)),
            Err(e) => Err(e),
        },
        (Kind::Binary, ColumnData::Bytes(x)) => Ok(Decoded::Column(decode_binary(x))),
        _ => Err(conversion("Native buffer does not match the column conversion plan")),
    }
}

/// How the rows of a result are read from the driver.
#[derive(Clone, Copy, Debug, PartialEq, Eq, Structural)]
pub enum SourcePlan {
    /// Bound columnar buffers of `capacity` rows.
    Block { capacity: usize },
    /// One row at a time, fetching each field on its own.
    Row,
}

/// The bytes of one row of bound buffers, when every column has a buffer.
pub open spec fn total_row_bytes(plans: Seq<Option<BufferPlan>>) -> Option<nat>
    decreases plans.len(),
{
    if plans.len() == 0 {
        Some(0)
    } else {
        match (total_row_bytes(plans.drop_last()), plans.last()) {
            (Some(t), Some(p)) => Some(t + row_bytes(p)),
            _ => None,
        }
    }
}

/// The buffer plans of these columns.
pub open spec fn plans_of(columns: Seq<Column>) -> Seq<Option<BufferPlan>> {
    columns.map_values(|c: Column| c.buffer)
}

/// The source for columns with these buffer plans: blocks of as many rows as
/// fit the buffer budget (at most `max_rows`, at least one) when every column
/// has a buffer and a row's width is positive and within the budget; rows
/// otherwise.
pub open spec fn source_for(plans: Seq<Option<BufferPlan>>, options: Options) -> SourcePlan {
    match total_row_bytes(plans) {
        Some(w) => if 0 < w && w <= options.buffer_bytes {
            let c = (options.buffer_bytes as nat / w) as int;
            let c = if c < options.max_rows { c } else { options.max_rows as int };
            SourcePlan::Block { capacity: (if c < 1 { 1 } else { c }) as usize }
        } else {
            SourcePlan::Row
        },
        None => SourcePlan::Row,
    }
}

/// Whether a buffer's row width is a machine-size number.
fn width_is_machine_size(plan: BufferPlan) -> (b: bool)
    ensures
        b == (row_bytes(plan) <= usize::MAX),
{
    let indicator = (usize::BITS / 8) as usize;
    match plan {
        BufferPlan::WText { max_str_len } => max_str_len <= (usize::MAX - indicator - 2) / 2,
        BufferPlan::Binary { max_bytes } => max_bytes <= usize::MAX - indicator,
        _ => true,
    }
}

proof fn lemma_total_grows(plans: Seq<Option<BufferPlan>>, i: int)
    requires
        0 <= i <= plans.len(),
        total_row_bytes(plans) is Some,
    ensures
        total_row_bytes(plans.subrange(0, i)) is Some,
        total_row_bytes(plans.subrange(0, i))->0 <= total_row_bytes(plans)->0,
    decreases plans.len(),
{
    if i < plans.len() {
        assert(plans.drop_last() =~= plans.subrange(0, plans.len() - 1));
        lemma_total_grows(plans.drop_last(), i);
        assert(plans.drop_last().subrange(0, i) =~= plans.subrange(0, i));
    } else {
        assert(plans.subrange(0, i) =~= plans);
    }
}

/// Chooses block or row-wise fetching for these result columns.
pub fn plan_source(columns: &Vec<Column>, options: &Options) -> (s: SourcePlan)
    ensures
        s == source_for(plans_of(columns@), *options),
{
    let ghost plans = plans_of(columns@);
    let n = columns.len();
    let mut width: usize = 0;
    let mut i: usize = 0;
    while i < n
        invariant
            n == columns@.len(),
            plans == plans_of(columns@),
            i <= n,
            total_row_bytes(plans.subrange(0, i as int)) == Some(width as nat),
        decreases n - i,
    {
        assert(plans.subrange(0, i + 1).drop_last() =~= plans.subrange(0, i as int));
        match columns[i].buffer {
            Some(p) => {
                if !width_is_machine_size(p) {
                    proof {
                        assert(plans.subrange(0, i + 1)[i as int] == Some(p));
                        if total_row_bytes(plans) is Some {
                            lemma_total_grows(plans, i + 1);
                        }
                        assert(plans.subrange(0, n as int) =~= plans);
                    }
                    return SourcePlan::Row;
                }
                let b = bytes_per_row(p);
                match width.checked_add(b) {
                    Some(w) => {
                        width = w;
                    },
                    None => {
                        proof {
                            // Every later prefix is at least this wide, so the total overflows too.
                            if total_row_bytes(plans) is Some {
                                lemma_total_grows(plans, i + 1);
                            }
                            assert(plans.subrange(0, n as int) =~= plans);
                        }
                        return SourcePlan::Row;
                    },
                }
            },
            None => {
                proof {
                    assert(plans.subrange(0, i + 1)[i as int] is None);
                    if total_row_bytes(plans) is Some {
                        lemma_total_grows(plans, i + 1);
                    }
                    assert(plans.subrange(0, n as int) =~= plans);
                }
                return SourcePlan::Row;
            },
        }
        i = i + 1;
    }
    assert(plans.subrange(0, n as int) =~= plans);
    if width > 0 && width <= options.buffer_bytes {
        let c = options.buffer_bytes / width;
        let c = if c < options.max_rows { c } else { options.max_rows };
        let c = if c < 1 { 1 } else { c };
        SourcePlan::Block { capacity: c }
    } else {
        SourcePlan::Row
    }
}

/// The converted, not yet delivered rows of one execution, with the plan
/// used to convert them. The native cursor that refills it lives beside it.
pub struct Fetcher {
    pub columns: Vec<Column>,
    pub pending: Vec<Values>,
    pub offset: usize,
    pub eof: bool,
}

/// Where a fetch stands.
#[derive(Clone, Copy, Debug, PartialEq, Eq, Structural)]
pub enum FetchStage {
    /// Delivering rows until the target is reached or the result is exhausted.
    Filling,
    /// The target is reached: looking ahead once to record exhaustion.
    Settling,
    Done,
}

/// One fetch request in progress: the rows delivered so far.
pub struct FetchProgress {
    pub out: Vec<Values>,
    pub target: usize,
    pub delivered: usize,
    pub stage: FetchStage,
}

/// What a fetch needs next.
#[derive(Clone, Copy, Debug, PartialEq, Eq, Structural)]
pub enum FetchStep {
    /// Fetch the next block (or row) from the driver and hand it to `accept`.
    NeedRows,
    /// The requested rows are in the output.
    Finished,
}

/// Every column of `block` holds values of its column's R type, all with the same number of rows.
pub open spec fn block_fits(columns: Seq<Column>, block: Seq<ValuesView>, rows: nat) -> bool {
    &&& block.len() == columns.len()
    &&& forall|c: int| 0 <= c < block.len() ==> (#[trigger] block[c]).holds(columns[c].kind) && block[c].len() == rows
}

/// The number of rows in a converted block (those of its first column).
pub open spec fn block_rows(block: Seq<ValuesView>) -> nat {
    if block.len() == 0 { 0 } else { block[0].len() }
}

/// The views of a block of columns.
pub open spec fn block_view(block: Seq<Values>) -> Seq<ValuesView> {
    block.map_values(|v: Values| v@)
}

/// Each output column is the old one followed by `n` rows of the pending block from `offset`.
pub open spec fn took(old_out: Seq<ValuesView>, out: Seq<ValuesView>, pending: Seq<ValuesView>, offset: int, n: int) -> bool {
    &&& out.len() == old_out.len()
    &&& forall|c: int| 0 <= c < out.len() ==> #[trigger] out[c] == old_out[c].concat(pending[c].rows(offset, offset + n))
}

/// The outcome of accepting a block: a block that does not fit the plan and
/// an empty block are errors; otherwise it becomes the pending block.
pub open spec fn accepted(columns: Seq<Column>, block: Seq<ValuesView>, r: DriverResult<()>, f: Fetcher) -> bool {
    let fits = block_fits(columns, block, block_rows(block));
    &&& !fits ==> (r matches Err(e) && plain_error("conversion", "conversion",
        "Native buffer does not match the column conversion plan"@, e))
    &&& fits && block_rows(block) == 0 ==> (r matches Err(e) && plain_error("fetch", "database",
        "Driver returned an empty successful rowset"@, e))
    &&& fits && block_rows(block) > 0 ==> r is Ok && !f.eof && block_view(f.pending@) == block
}

/// Rows `a .. b` and then `b .. c` of a column are its rows `a .. c`.
pub proof fn lemma_rows_concat(v: ValuesView, p: ValuesView, a: int, b: int, c: int)
    requires
        v.same_type(p),
        0 <= a <= b <= c <= p.len(),
    ensures
        v.concat(p.rows(a, b)).concat(p.rows(b, c)) == v.concat(p.rows(a, c)),
{
    match (v, p) {
        (ValuesView::Logical(x), ValuesView::Logical(y)) => {
            assert(x + y.subrange(a, b) + y.subrange(b, c) =~= x + y.subrange(a, c));
        },
        (ValuesView::Integer(x), ValuesView::Integer(y)) => {
            assert(x + y.subrange(a, b) + y.subrange(b, c) =~= x + y.subrange(a, c));
        },
        (ValuesView::Integer64(x), ValuesView::Integer64(y)) => {
            assert(x + y.subrange(a, b) + y.subrange(b, c) =~= x + y.subrange(a, c));
        },
        (ValuesView::Double(x), ValuesView::Double(y)) => {
            assert(x + y.subrange(a, b) + y.subrange(b, c) =~= x + y.subrange(a, c));
        },
        (ValuesView::Text(x), ValuesView::Text(y)) => {
            assert(x + y.subrange(a, b) + y.subrange(b, c) =~= x + y.subrange(a, c));
        },
        (ValuesView::Binary(x), ValuesView::Binary(y)) => {
            assert(x + y.subrange(a, b) + y.subrange(b, c) =~= x + y.subrange(a, c));
        },
        _ => {},
    }
}

/// Typed empty columns for these result columns.
pub fn empty_block(columns: &Vec<Column>) -> (b: Vec<Values>)
    ensures
        block_fits(columns@, block_view(b@), 0),
{
    let mut b: Vec<Values> = Vec::new();
    let mut i: usize = 0;
    while i < columns.len()
        invariant
            i <= columns@.len(),
            b@.len() == i,
            forall|c: int| 0 <= c < i ==> (#[trigger] b@[c])@.holds(columns@[c].kind) && b@[c]@.len() == 0,
        decreases columns@.len() - i,
    {
        b.push(Values::empty(columns[i].kind));
        i = i + 1;
    }
    b
}

impl Fetcher {
    /// Rows of the pending block (those of its first column; none without columns).
    pub open spec fn rows(&self) -> nat {
        block_rows(block_view(self.pending@))
    }

    /// The pending block fits the columns and the offset lies within it.
    pub open spec fn wf(&self) -> bool {
        &&& block_fits(self.columns@, block_view(self.pending@), self.rows())
        &&& self.offset <= self.rows()
    }

    /// Every pending row has been delivered and the driver has no more.
    pub open spec fn is_complete(&self) -> bool {
        self.eof && self.offset == self.rows()
    }

    /// The driver must be asked for more rows before any can be delivered.
    pub open spec fn wants_rows(&self) -> bool {
        !self.eof && self.offset >= self.rows()
    }

    /// A fetcher for these result columns, before any native fetch.
    pub fn new(columns: Vec<Column>) -> (f: Fetcher)
        ensures
            f.wf(),
            f.columns == columns,
            f.offset == 0,
            !f.eof,
            f.rows() == 0,
    {
        let pending = empty_block(&columns);
        Fetcher { columns, pending, offset: 0, eof: false }
    }

    /// The number of pending rows.
    pub fn pending_rows(&self) -> (n: usize)
        requires
            self.wf(),
        ensures
            n == self.rows(),
    {
        if self.pending.len() == 0 {
            0
        } else {
            self.pending[0].len()
        }
    }

    /// EOF is known and no buffered rows remain.
    pub fn complete(&self) -> (b: bool)
        requires
            self.wf(),
        ensures
            b == self.is_complete(),
    {
        self.eof && self.offset == self.pending_rows()
    }

    /// Whether a native fetch is due: EOF is not known and no pending row remains.
    pub fn needs_refill(&self) -> (b: bool)
        requires
            self.wf(),
        ensures
            b == self.wants_rows(),
    {
        !(self.eof || self.offset < self.pending_rows())
    }

    /// Drops the consumed block before the next one is fetched.
    pub fn start_refill(&mut self)
        requires
            old(self).wf(),
        ensures
            final(self).wf(),
            final(self).columns == old(self).columns,
            final(self).eof == old(self).eof,
            final(self).offset == 0,
            final(self).rows() == 0,
    {
        self.pending = empty_block(&self.columns);
        self.offset = 0;
    }

    /// Takes the driver's answer to a refill: `None` when it has no more
    /// rows, otherwise the next converted block. A block that does not fit
    /// the conversion plan, or an empty block, is an error.
    #[verifier::loop_isolation(false)]
    pub fn accept(&mut self, block: Option<Vec<Values>>) -> (r: DriverResult<()>)
        requires
            old(self).wf(),
            old(self).wants_rows(),
        ensures
            final(self).wf(),
            final(self).columns == old(self).columns,
            final(self).offset == 0,
            block is None ==> r is Ok && final(self).eof && final(self).rows() == 0,
            block is Some ==> accepted(old(self).columns@, block_view(block->0@), r, *final(self)),
    {
        self.pending = empty_block(&self.columns);
        self.offset = 0;
        match block {
            None => {
                self.eof = true;
                Ok(())
            },
            Some(b) => {
                let n = self.columns.len();
                if b.len() != n {
                    return Err(conversion("Native buffer does not match the column conversion plan"));
                }
                let rows = if n == 0 { 0 } else { b[0].len() };
                let mut c: usize = 0;
                while c < n
                    invariant
                        n == self.columns@.len(),
                        n == b@.len(),
                        c <= n,
                        rows == block_rows(block_view(b@)),
                        self.wf(),
                        self.columns == old(self).columns,
                        self.offset == 0,
                        self.rows() == 0,
                        forall|k: int| 0 <= k < c ==> (#[trigger] b@[k])@.holds(self.columns@[k].kind) && b@[k]@.len() == rows,
                    decreases n - c,
                {
                    if !b[c].holds(self.columns[c].kind) || b[c].len() != rows {
                        proof {
                            assert(block_view(b@)[c as int] == b@[c as int]@);
                        }
                        return Err(conversion("Native buffer does not match the column conversion plan"));
                    }
                    c = c + 1;
                }
                proof {
                    assert forall|k: int| 0 <= k < block_view(b@).len() implies
                        (#[trigger] block_view(b@)[k]).holds(self.columns@[k].kind) && block_view(b@)[k].len() == rows by {
                        assert(block_view(b@)[k] == b@[k]@);
                    }
                }
                if rows == 0 {
                    // An empty successful rowset must not cause an unbounded refill loop.
                    return Err(DriverError::new("fetch", "database",
                        String::from_str("Driver returned an empty successful rowset")));
                }
                self.pending = b;
                Ok(())
            },
        }
    }

    /// Starts a fetch of `limit` rows (all remaining rows for `None`). A
    /// limit of zero is done at once, with typed empty columns.
    pub fn begin_fetch(&self, limit: Option<usize>) -> (p: FetchProgress)
        requires
            self.wf(),
        ensures
            p.delivered == 0,
            p.target == (match limit { Some(n) => n, None => usize::MAX }),
            p.stage == (if limit == Some(0usize) { FetchStage::Done } else { FetchStage::Filling }),
            block_fits(self.columns@, block_view(p.out@), 0),
    {
        let out = empty_block(&self.columns);
        let target = match limit {
            Some(n) => n,
            None => usize::MAX,
        };
        let stage = if limit == Some(0usize) { FetchStage::Done } else { FetchStage::Filling };
        FetchProgress { out, target, delivered: 0, stage }
    }

    /// Delivers pending rows into `progress` until the target is reached,
    /// the result is exhausted, or the driver must be asked for more rows.
    /// No row is lost or repeated: the output followed by the remaining
    /// pending rows is unchanged.
    pub fn advance(&mut self, progress: &mut FetchProgress) -> (step: FetchStep)
        requires
            old(self).wf(),
            block_fits(old(self).columns@, block_view(old(progress).out@), old(progress).delivered as nat),
            old(progress).delivered <= old(progress).target,
            old(progress).stage == FetchStage::Settling ==>
                old(progress).delivered == old(progress).target || old(self).is_complete(),
        ensures
            final(self).wf(),
            final(self).columns == old(self).columns,
            final(self).pending == old(self).pending,
            final(self).eof == old(self).eof,
            old(self).offset <= final(self).offset,
            block_fits(final(self).columns@, block_view(final(progress).out@), final(progress).delivered as nat),
            final(progress).target == old(progress).target,
            old(progress).delivered <= final(progress).delivered <= final(progress).target,
            final(progress).delivered - old(progress).delivered == final(self).offset - old(self).offset,
            took(block_view(old(progress).out@), block_view(final(progress).out@), block_view(old(self).pending@),
                old(self).offset as int, final(self).offset - old(self).offset),
            old(progress).stage == FetchStage::Done ==> step == FetchStep::Finished && final(self).offset == old(self).offset,
            step == FetchStep::NeedRows ==> final(self).wants_rows(),
            step == FetchStep::Finished ==> final(progress).stage == FetchStage::Done,
            step == FetchStep::Finished && old(progress).stage != FetchStage::Done ==>
                final(progress).delivered == final(progress).target || final(self).is_complete(),
            step == FetchStep::Finished && old(progress).stage != FetchStage::Done ==> !final(self).wants_rows(),
    {
        let ghost out0 = block_view(progress.out@);
        let ghost offset0 = self.offset;
        let ghost delivered0 = progress.delivered;
        loop
            invariant
                self.wf(),
                self.columns == old(self).columns,
                self.pending == old(self).pending,
                self.eof == old(self).eof,
                offset0 == old(self).offset,
                offset0 <= self.offset,
                block_fits(self.columns@, block_view(progress.out@), progress.delivered as nat),
                progress.target == old(progress).target,
                delivered0 == old(progress).delivered,
                delivered0 <= progress.delivered <= progress.target,
                progress.delivered - delivered0 == self.offset - offset0,
                took(out0, block_view(progress.out@), block_view(self.pending@), offset0 as int, self.offset - offset0),
                out0 == block_view(old(progress).out@),
                old(progress).stage == FetchStage::Done ==> progress.stage == FetchStage::Done && self.offset == offset0,
                progress.stage == FetchStage::Settling ==> progress.delivered == progress.target || self.is_complete(),
                progress.stage == FetchStage::Done && old(progress).stage != FetchStage::Done ==>
                    progress.delivered == progress.target || self.is_complete(),
                old(progress).stage != FetchStage::Done ==> progress.stage != FetchStage::Done,
            decreases
                (match progress.stage { FetchStage::Filling => 2int, FetchStage::Settling => 1, FetchStage::Done => 0 }),
                progress.target - progress.delivered,
        {
            match progress.stage {
                FetchStage::Done => {
                    return FetchStep::Finished;
                },
                FetchStage::Settling => {
                    // Establish exhaustion at an exact boundary, retaining a nonempty next block.
                    progress.stage = FetchStage::Done;
                    if self.needs_refill() {
                        return FetchStep::NeedRows;
                    }
                    return FetchStep::Finished;
                },
                FetchStage::Filling => {
                    if progress.delivered < progress.target {
                        if self.needs_refill() {
                            return FetchStep::NeedRows;
                        }
                        if self.complete() {
                            progress.stage = FetchStage::Settling;
                        } else {
                            let ghost out1 = block_view(progress.out@);
                            let ghost offset1 = self.offset;
                            self.take(progress);
                            proof {
                                assert forall|c: int| 0 <= c < out0.len() implies
                                    #[trigger] block_view(progress.out@)[c]
                                        == out0[c].concat(block_view(self.pending@)[c].rows(offset0 as int, self.offset as int)) by {
                                    assert(out0[c].holds(self.columns@[c].kind));
                                    assert(block_view(self.pending@)[c].holds(self.columns@[c].kind));
                                    lemma_rows_concat(out0[c], block_view(self.pending@)[c], offset0 as int, offset1 as int, self.offset as int);
                                }
                            }
                        }
                    } else {
                        progress.stage = FetchStage::Settling;
                    }
                },
            }
        }
    }

    /// Moves as many pending rows as the progress still wants into its output.
    fn take(&mut self, progress: &mut FetchProgress)
        requires
            old(self).wf(),
            !old(self).wants_rows(),
            !old(self).is_complete(),
            block_fits(old(self).columns@, block_view(old(progress).out@), old(progress).delivered as nat),
            old(progress).delivered < old(progress).target,
        ensures
            final(self).wf(),
            final(self).columns == old(self).columns,
            final(self).pending == old(self).pending,
            final(self).eof == old(self).eof,
            old(self).offset < final(self).offset,
            block_fits(final(self).columns@, block_view(final(progress).out@), final(progress).delivered as nat),
            final(progress).target == old(progress).target,
            final(progress).stage == old(progress).stage,
            old(progress).delivered < final(progress).delivered <= final(progress).target,
            final(progress).delivered - old(progress).delivered == final(self).offset - old(self).offset,
            took(block_view(old(progress).out@), block_view(final(progress).out@), block_view(old(self).pending@),
                old(self).offset as int, final(self).offset - old(self).offset),
    {
        let available = self.pending_rows() - self.offset;
        let wanted = progress.target - progress.delivered;
        let n = if wanted < available { wanted } else { available };
        let start = self.offset;
        let end = start + n;
        let ghost out0 = block_view(progress.out@);
        let columns = self.columns.len();
        let mut c: usize = 0;
        while c < columns
            invariant
                columns == self.columns@.len(),
                self.wf(),
                self.offset == start,
                start + n == end,
                end <= self.rows(),
                c <= columns,
                block_fits(self.columns@, block_view(self.pending@), self.rows()),
                block_view(progress.out@).len() == columns,
                out0 == block_view(old(progress).out@),
                block_fits(self.columns@, out0, progress.delivered as nat),
                progress.target == old(progress).target,
                progress.delivered == old(progress).delivered,
                progress.stage == old(progress).stage,
                self.pending == old(self).pending,
                self.columns == old(self).columns,
                self.eof == old(self).eof,
                forall|k: int| 0 <= k < c ==> #[trigger] block_view(progress.out@)[k]
                    == out0[k].concat(block_view(self.pending@)[k].rows(start as int, end as int)),
                forall|k: int| c <= k < columns ==> #[trigger] block_view(progress.out@)[k] == out0[k],
            decreases columns - c,
        {
            let ghost before = progress.out@;
            proof {
                assert(block_view(self.pending@)[c as int] == self.pending@[c as int]@);
                assert(block_view(before)[c as int] == before[c as int]@);
                assert(out0[c as int].holds(self.columns@[c as int].kind));
                assert(block_view(self.pending@)[c as int].holds(self.columns@[c as int].kind));
            }
            let mut column = Values::empty(Kind::Logical);
            std::mem::swap(&mut column, &mut progress.out[c]);
            column.append_range(&self.pending[c], start, end);
            std::mem::swap(&mut column, &mut progress.out[c]);
            proof {
                assert forall|k: int| 0 <= k < columns implies #[trigger] block_view(progress.out@)[k]
                    == (if k <= c { out0[k].concat(block_view(self.pending@)[k].rows(start as int, end as int)) } else { out0[k] }) by {
                    if k == c {
                        assert(block_view(progress.out@)[k] == progress.out@[k]@);
                    } else {
                        assert(progress.out@[k] == before[k]);
                        assert(block_view(progress.out@)[k] == progress.out@[k]@);
                        assert(block_view(before)[k] == before[k]@);
                    }
                }
            }
            c = c + 1;
        }
        self.offset = end;
        progress.delivered = progress.delivered + n;
        proof {
            assert forall|k: int| 0 <= k < block_view(progress.out@).len() implies
                (#[trigger] block_view(progress.out@)[k]).holds(self.columns@[k].kind)
                && block_view(progress.out@)[k].len() == progress.delivered by {
                assert(block_view(self.pending@)[k].holds(self.columns@[k].kind));
                assert(out0[k].holds(self.columns@[k].kind));
            }
        }
    }
}

} // verus!
