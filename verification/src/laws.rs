//! Properties that relate several operations of the library.
use vstd::prelude::*;
use crate::error::{state_kind, uncertain_state, DriverResult};
use crate::error::DriverError;
use crate::fetch::{block_fits, block_view, source_for, took, total_row_bytes, Fetcher, SourcePlan};
use crate::state::{
    unsupported_state, cleared, clear_step_of, close_step_of, closed_status, connection_check, consumption_failed, nth_identity, observed,
    outcome_of, successor, ClearStep, CloseStep, ConnectionEffect, ConnectionState, ConnectionStatus, ResultKind, ResultState,
};
use crate::types::{buffer_for, kind_for, BigInt, BufferPlan, Column, Kind, Options, SqlType, ValuesView};
use crate::config::{bigint_named, supported_option};
use crate::parameters::{any_status, count_succeeded, failed_status, width_of, Parameters};

verus! {

/// Clearing is idempotent: clearing a cleared result changes nothing, and
/// once its connection reference is dropped a second clear asks nothing of
/// the native side. A cleared result keeps its metadata and counts, holds
/// no native statement (so every check on it fails), and a local one shows
/// as "cleared" whatever its connection's state.
pub proof fn law_clear_is_idempotent(r: ResultState, connection: Option<&ConnectionState>)
    ensures
        cleared(cleared(r)) == cleared(r),
        !cleared(r).holds_resource(),
        cleared(r).status_label(connection, r.pid) == "cleared"@,
        cleared(r).columns == r.columns,
        cleared(r).delivered == r.delivered,
        cleared(r).affected == r.affected,
        cleared(r).consumption_error == r.consumption_error,
        cleared(r).sql == r.sql,
        clear_step_of(ResultState { leased: false, ..cleared(r) }, r.pid) == Some(ClearStep::AlreadyCleared),
{
}

/// Disconnecting twice is harmless: once a disconnect has released
/// everything without error the connection is closed, and disconnecting
/// again in the same process has nothing to do, in use or not.
pub proof fn law_disconnect_is_idempotent(c: ConnectionState, results_free: bool)
    ensures
        close_step_of(ConnectionState { status: closed_status(false), ..c }, c.pid, results_free)
            == Some(CloseStep::AlreadyClosed),
{
}

/// An uncertain connection can always be disposed of: disconnecting it in
/// its own process proceeds to release whenever no result is in use.
pub proof fn law_uncertain_connection_can_be_closed(c: ConnectionState)
    requires
        c.status == ConnectionStatus::Uncertain,
    ensures
        close_step_of(c, c.pid, true) == Some(CloseStep::Release),
{
}

/// Once a connection is uncertain or closed, no operation may use it: every
/// check fails, and an uncertain connection's failures say so.
pub proof fn law_unusable_connection_blocks_use(c: ConnectionState, operation: &'static str, current_pid: u32, r: DriverResult<()>)
    requires
        c.status != ConnectionStatus::Open,
        connection_check(c, operation, current_pid, r),
    ensures
        r is Err,
        c.pid == current_pid && c.status == ConnectionStatus::Uncertain ==> (r matches Err(e) && e.uncertain),
{
}

/// A timeout or a cancellation leaves the connection's usability unknown.
pub proof fn law_timeouts_are_uncertain(state: Seq<char>)
    requires
        state_kind(Some(state)) == "timeout"@ || state_kind(Some(state)) == "cancelled"@,
    ensures
        uncertain_state(state),
{
    reveal_strlit("timeout");
    reveal_strlit("cancelled");
    reveal_strlit("database");
    assert("timeout"@[0] == 't' && "cancelled"@[0] == 'c' && "database"@[0] == 'd');
}

/// An unexecuted preparation is not complete; an executed statement result
/// is complete as long as it holds its statement, and an executed result of
/// either kind that holds its statement without a cursor (no result set, or
/// an empty batch) is complete.
pub proof fn law_completion_follows_execution(r: ResultState)
    ensures
        !r.bound && r.resource is Ready ==> !r.is_complete(),
        r.bound && r.kind == ResultKind::Statement && r.holds_resource() ==> r.is_complete(),
        r.bound && r.resource is Ready ==> r.is_complete(),
        r.resource is Cleared || r.resource is Failed ==> !r.is_complete(),
{
}

/// A fetcher only asks the driver for more rows once every pending row has
/// been delivered: replacing the pending block then discards nothing.
pub proof fn law_refill_loses_no_rows(f: Fetcher)
    requires
        f.wf(),
        f.wants_rows(),
    ensures
        forall|c: int| 0 <= c < f.pending@.len() ==> (#[trigger] block_view(f.pending@)[c]).rows(f.offset as int, f.rows() as int).len() == 0,
{
    assert forall|c: int| 0 <= c < f.pending@.len() implies (#[trigger] block_view(f.pending@)[c]).rows(f.offset as int, f.rows() as int).len() == 0 by {
        let v = block_view(f.pending@)[c];
        assert(v.len() == f.rows());
    }
}

/// Identities are never zero and never repeat: a new source hands out 1,
/// 2, 3, ... in turn, so the call numbered `i` (from 0) gets `i + 1`, for
/// as long as fewer than `u64::MAX` identities have been handed out.
pub proof fn law_identities_are_unique(i: nat, j: nat)
    requires
        i < j < u64::MAX,
    ensures
        nth_identity(i) == i + 1,
        1 <= nth_identity(i) < nth_identity(j),
    decreases j,
{
    if j == i + 1 {
        lemma_nth_identity(i);
        lemma_nth_identity(j);
    } else {
        law_identities_are_unique(i, (j - 1) as nat);
        lemma_nth_identity(j);
    }
}

/// The call numbered `k` of a new source gets `k + 1` while that fits.
proof fn lemma_nth_identity(k: nat)
    requires
        k < u64::MAX,
    ensures
        nth_identity(k) == k + 1,
    decreases k,
{
    if k > 0 {
        lemma_nth_identity((k - 1) as nat);
        assert(successor(nth_identity((k - 1) as nat)) == k + 1);
    }
}

/// A consumption failure is recorded and never relabelled: the result keeps
/// its counts, its attempt and its metadata, remembers the error, holds no
/// native resource any more, and an uncertain error makes the connection
/// uncertain.
pub proof fn law_consumption_failure_is_recorded(r: ResultState, error: DriverError)
    ensures
        consumption_failed(r, error).consumption_error == Some(error),
        !consumption_failed(r, error).holds_resource(),
        consumption_failed(r, error).affected == r.affected,
        consumption_failed(r, error).native_attempt == r.native_attempt,
        consumption_failed(r, error).delivered == r.delivered,
        consumption_failed(r, error).columns == r.columns,
        consumption_failed(r, error).sql == r.sql,
        error.uncertain ==> observed(error) == ConnectionEffect::MarkUncertain,
{
}

/// No row is lost or repeated across a refill: a fetch that delivered the
/// pending rows of one block from `offset` up to the point where the
/// fetcher asks the driver for more (the whole rest of that block), and
/// then `k` rows of the next block, has delivered exactly those rows, in
/// order, after what it had before.
pub proof fn law_fetch_across_refill(before: Seq<ValuesView>, middle: Seq<ValuesView>, after: Seq<ValuesView>,
    f: Fetcher, next: Seq<ValuesView>, offset: int, k: int)
    requires
        f.wf(),
        f.wants_rows(),
        0 <= offset <= f.offset,
        took(before, middle, block_view(f.pending@), offset, f.offset - offset),
        took(middle, after, next, 0, k),
    ensures
        after.len() == before.len(),
        forall|c: int| 0 <= c < after.len() ==> #[trigger] after[c]
            == before[c].concat(block_view(f.pending@)[c].rows(offset, f.rows() as int)).concat(next[c].rows(0, k)),
{
    assert forall|c: int| 0 <= c < after.len() implies #[trigger] after[c]
        == before[c].concat(block_view(f.pending@)[c].rows(offset, f.rows() as int)).concat(next[c].rows(0, k)) by {
        assert(middle[c] == before[c].concat(block_view(f.pending@)[c].rows(offset, f.offset as int)));
    }
}

/// The R type of a result column follows its SQL family: BIT is logical;
/// TINYINT, SMALLINT and INTEGER are integer; BIGINT is integer64 by
/// default, or integer, double or character as the option says;
/// REAL, FLOAT, DOUBLE, DECIMAL and NUMERIC are double; character types are
/// character; binary types are blobs; DATE, TIME and TIMESTAMP are dates,
/// times and timestamps; SQL Server's TIME2 (-154) is a time and its
/// TIMESTAMPOFFSET (-155) a timestamp with offset. Fixed-width families are
/// read into the matching bound buffer; times and timestamps with offset
/// are read row by row.
pub proof fn law_sql_types_map_to_r_types(t: SqlType, bigint: BigInt, max_field_bytes: usize)
    ensures
        t is Bit ==> kind_for(t, bigint) == Kind::Logical
            && buffer_for(kind_for(t, bigint), t, max_field_bytes) == Some(BufferPlan::Bit),
        (t is TinyInt || t is SmallInt || t is Integer) ==> kind_for(t, bigint) == Kind::Integer
            && buffer_for(kind_for(t, bigint), t, max_field_bytes) == Some(BufferPlan::I32),
        t is BigInt && bigint == BigInt::Integer64 ==> kind_for(t, bigint) == Kind::Integer64
            && buffer_for(kind_for(t, bigint), t, max_field_bytes) == Some(BufferPlan::I64),
        t is BigInt && bigint == BigInt::Integer ==> kind_for(t, bigint) == Kind::Integer,
        t is BigInt && bigint == BigInt::Numeric ==> kind_for(t, bigint) == Kind::Double,
        t is BigInt && bigint == BigInt::Character ==> kind_for(t, bigint) == Kind::Text,
        (t is Real || t is Float || t is Double || t is Decimal || t is Numeric) ==> kind_for(t, bigint) == Kind::Double
            && buffer_for(kind_for(t, bigint), t, max_field_bytes) == Some(BufferPlan::F64),
        (t is Char || t is Varchar || t is LongVarchar || t is WChar || t is WVarchar || t is WLongVarchar
            || t is Unknown) ==> kind_for(t, bigint) == Kind::Text,
        (t is Binary || t is Varbinary || t is LongVarbinary) ==> kind_for(t, bigint) == Kind::Binary,
        t is Date ==> kind_for(t, bigint) == Kind::Date
            && buffer_for(kind_for(t, bigint), t, max_field_bytes) == Some(BufferPlan::Date),
        t is Time ==> kind_for(t, bigint) == Kind::Time && buffer_for(kind_for(t, bigint), t, max_field_bytes) is None,
        t is Timestamp ==> kind_for(t, bigint) == Kind::Timestamp
            && buffer_for(kind_for(t, bigint), t, max_field_bytes) == Some(BufferPlan::Timestamp),
        t matches SqlType::Other { data_type, .. } ==> kind_for(t, bigint) == (if data_type == -154 {
            Kind::Time
        } else if data_type == -155 {
            Kind::TimestampOffset
        } else {
            Kind::Text
        }),
{
}

/// Each kind of column is stored in one R vector type: logical, integer,
/// integer64, character and blob columns in their own, and double, date,
/// time, timestamp and timestamp-with-offset columns as doubles (days or
/// seconds). A column holds values of its kind exactly when they are of
/// that storage.
pub proof fn law_kinds_have_fixed_storage(v: ValuesView, kind: Kind)
    ensures
        kind == Kind::Logical ==> (v.holds(kind) <==> v is Logical),
        kind == Kind::Integer ==> (v.holds(kind) <==> v is Integer),
        kind == Kind::Integer64 ==> (v.holds(kind) <==> v is Integer64),
        kind == Kind::Text ==> (v.holds(kind) <==> v is Text),
        kind == Kind::Binary ==> (v.holds(kind) <==> v is Binary),
        (kind == Kind::Double || kind == Kind::Date || kind == Kind::Time || kind == Kind::Timestamp
            || kind == Kind::TimestampOffset) ==> (v.holds(kind) <==> v is Double),
{
}

/// A parameter batch of several rows fails exactly when the driver reports
/// some row as SQL_PARAM_ERROR (5) or SQL_PARAM_DIAG_UNAVAILABLE (1); rows
/// reported as SQL_PARAM_SUCCESS (0) or SQL_PARAM_SUCCESS_WITH_INFO (6)
/// count as succeeded, and each such row adds one to the count.
pub proof fn law_failed_parameter_rows(p: Parameters, statuses: Seq<u16>, status: u16)
    ensures
        !(p.rows <= 1 || !any_status(p.statuses@, |s: u16| failed_status(s)))
            <==> (p.rows > 1 && exists|i: int| 0 <= i < p.statuses@.len() && (p.statuses@[i] == 1 || p.statuses@[i] == 5)),
        count_succeeded(statuses.push(status)) == count_succeeded(statuses)
            + (if status == 0 || status == 6 { 1nat } else { 0nat }),
{
    if any_status(p.statuses@, |s: u16| failed_status(s)) {
        let i = choose|i: int| 0 <= i < p.statuses@.len() && failed_status(#[trigger] p.statuses@[i]);
        assert(p.statuses@[i] == 1 || p.statuses@[i] == 5);
    }
    if exists|i: int| 0 <= i < p.statuses@.len() && (p.statuses@[i] == 1 || p.statuses@[i] == 5) {
        let i = choose|i: int| 0 <= i < p.statuses@.len() && (p.statuses@[i] == 1 || p.statuses@[i] == 5);
        assert(failed_status(p.statuses@[i]));
    }
    assert(statuses.push(status).drop_last() =~= statuses);
}

/// A variable-length parameter buffer is wide enough for every value: its
/// element width is at least one, at least every present value's length,
/// and either one or the length of some value.
pub proof fn law_parameter_width_fits_every_value(lengths: Seq<Option<usize>>)
    ensures
        width_of(lengths) >= 1,
        forall|i: int| 0 <= i < lengths.len() ==> (#[trigger] lengths[i] matches Some(n) ==> n <= width_of(lengths)),
        width_of(lengths) == 1 || exists|i: int| 0 <= i < lengths.len() && lengths[i] == Some(width_of(lengths) as usize),
    decreases lengths.len(),
{
    if lengths.len() > 0 {
        let rest = lengths.drop_last();
        law_parameter_width_fits_every_value(rest);
        assert forall|i: int| 0 <= i < lengths.len() implies (#[trigger] lengths[i] matches Some(n) ==> n <= width_of(lengths)) by {
            if i < lengths.len() - 1 {
                assert(lengths[i] == rest[i]);
            }
        }
        if width_of(lengths) != 1 {
            if width_of(lengths) == width_of(rest) {
                let j = choose|j: int| 0 <= j < rest.len() && rest[j] == Some(width_of(rest) as usize);
                assert(lengths[j] == rest[j]);
            } else {
                assert(lengths[lengths.len() - 1] == Some(width_of(lengths) as usize));
            }
        }
    }
}

/// How a SQLSTATE classifies an ODBC error: HYT00 and HYT01 are timeouts
/// and HY008 a cancellation, all three leaving the connection's usability
/// unknown; any state of the connection-exception class 08 leaves it
/// unknown too; every other error, and one without a SQLSTATE, is a
/// database error.
pub proof fn law_sqlstates_classify_errors(state: Seq<char>)
    ensures
        state == "HYT00"@ || state == "HYT01"@ ==> state_kind(Some(state)) == "timeout"@ && uncertain_state(state),
        state == "HY008"@ ==> state_kind(Some(state)) == "cancelled"@ && uncertain_state(state),
        state.len() >= 2 && state[0] == '0' && state[1] == '8' ==> uncertain_state(state)
            && state_kind(Some(state)) == "database"@,
        state_kind(None) == "database"@,
{
    reveal_strlit("HYT00");
    reveal_strlit("HYT01");
    reveal_strlit("HY008");
    assert("HY008"@[2] != "HYT00"@[2] && "HY008"@[2] != "HYT01"@[2]);
}

/// How a native execution call is recorded: a call that returned is a
/// success unless parameter rows failed; a call that failed is a timeout
/// (HYT00, HYT01), a cancellation (HY008) or a failure.
pub proof fn law_attempt_outcomes(batch_failed: bool, state: Option<Seq<char>>)
    ensures
        outcome_of(true, false, state) == "success"@,
        outcome_of(true, true, state) == "failure"@,
        state == Some("HYT00"@) || state == Some("HYT01"@) ==> outcome_of(false, batch_failed, state) == "timeout"@,
        state == Some("HY008"@) ==> outcome_of(false, batch_failed, state) == "cancelled"@,
        state is None ==> outcome_of(false, batch_failed, state) == "failure"@,
{
    reveal_strlit("HYT00");
    reveal_strlit("HYT01");
    reveal_strlit("HY008");
    assert("HY008"@[2] != "HYT00"@[2] && "HY008"@[2] != "HYT01"@[2]);
}

/// Block fetching stays within the buffer budget: when every column has a
/// buffer and rows are fetched in blocks, a block holds at least one row,
/// at most `max_rows` rows (or one), and its rows fit the byte budget.
pub proof fn law_blocks_fit_the_budget(plans: Seq<Option<BufferPlan>>, options: Options)
    ensures
        source_for(plans, options) matches SourcePlan::Block { capacity } ==> {
            &&& capacity >= 1
            &&& (capacity <= options.max_rows || capacity == 1)
            &&& total_row_bytes(plans) matches Some(w) && capacity * w <= options.buffer_bytes
        },
{
    if let Some(w) = total_row_bytes(plans) {
        if 0 < w && w <= options.buffer_bytes {
            let b = options.buffer_bytes as nat;
            let c = (b / w) as int;
            assert(c * w <= b) by (nonlinear_arith)
                requires c == b / w, w > 0;
            assert(c >= 1) by (nonlinear_arith)
                requires c == b / w, 0 < w <= b;
            let c1 = if c < options.max_rows { c } else { options.max_rows as int };
            let cap = if c1 < 1 { 1 } else { c1 };
            assert(cap * w <= b) by (nonlinear_arith)
                requires cap == 1 || cap <= c, c * w <= b, w <= b, cap >= 1, w > 0;
        }
    }
}

/// The connection options: BIGINT columns map to integer64, integer,
/// numeric (double) or character by those names and no other; the options
/// this layer takes are bigint, timezone, timezone_out and timeout; and a
/// driver says it does not implement a request by SQLSTATE HYC00, HY092,
/// HY096, IM001, S1C00 or S1092.
pub proof fn law_option_names(name: Seq<char>, state: Seq<char>)
    ensures
        bigint_named("integer64"@) == Some(BigInt::Integer64),
        bigint_named("integer"@) == Some(BigInt::Integer),
        bigint_named("numeric"@) == Some(BigInt::Numeric),
        bigint_named("character"@) == Some(BigInt::Character),
        bigint_named(name) is Some ==> name == "integer64"@ || name == "integer"@ || name == "numeric"@
            || name == "character"@,
        supported_option(name) <==> (name == "bigint"@ || name == "timezone"@ || name == "timezone_out"@
            || name == "timeout"@),
        unsupported_state(state) <==> (state == "HYC00"@ || state == "HY092"@ || state == "HY096"@
            || state == "IM001"@ || state == "S1C00"@ || state == "S1092"@),
{
    reveal_strlit("integer64");
    reveal_strlit("integer");
    reveal_strlit("numeric");
    reveal_strlit("character");
    assert("integer64"@.len() != "integer"@.len());
    assert("numeric"@ != "integer64"@ && "numeric"@ != "integer"@) by {
        assert("numeric"@[0] != "integer64"@[0] && "numeric"@[0] != "integer"@[0]);
    }
    assert("character"@ != "integer64"@ && "character"@ != "integer"@ && "character"@ != "numeric"@) by {
        assert("character"@[0] != "integer64"@[0] && "character"@[0] != "integer"@[0]
            && "character"@[0] != "numeric"@[0]);
    }
}

/// Column by column, the rows of `a` followed by those of `b`.
pub open spec fn concat_blocks(a: Seq<ValuesView>, b: Seq<ValuesView>) -> Seq<ValuesView> {
    Seq::new(a.len(), |c: int| a[c].concat(b[c]))
}

/// Splitting a fetch in two loses and repeats nothing: taking `a` pending
/// rows from `offset` into fresh empty output and then `b` more into fresh
/// empty output gives, column by column, what taking `a + b` rows at once
/// gives.
pub proof fn law_split_fetches_concatenate(columns: Seq<Column>, empty: Seq<ValuesView>, pending: Seq<ValuesView>,
    rows: nat, first: Seq<ValuesView>, second: Seq<ValuesView>, offset: int, a: int, b: int)
    requires
        block_fits(columns, empty, 0),
        block_fits(columns, pending, rows),
        0 <= offset,
        0 <= a,
        0 <= b,
        offset + a + b <= rows,
        took(empty, first, pending, offset, a),
        took(empty, second, pending, offset + a, b),
    ensures
        took(empty, concat_blocks(first, second), pending, offset, a + b),
{
    assert forall|c: int| 0 <= c < concat_blocks(first, second).len() implies #[trigger] concat_blocks(first, second)[c]
        == empty[c].concat(pending[c].rows(offset, offset + a + b)) by {
        assert(empty[c].holds(columns[c].kind) && pending[c].holds(columns[c].kind));
        assert(first[c] == empty[c].concat(pending[c].rows(offset, offset + a)));
        assert(second[c] == empty[c].concat(pending[c].rows(offset + a, offset + a + b)));
        lemma_split_column(empty[c], pending[c], offset, a, b);
    }
}

/// One column of `law_split_fetches_concatenate`.
proof fn lemma_split_column(e: ValuesView, p: ValuesView, o: int, a: int, b: int)
    requires
        e.same_type(p),
        e.len() == 0,
        0 <= o,
        0 <= a,
        0 <= b,
        o + a + b <= p.len(),
    ensures
        e.concat(p.rows(o, o + a)).concat(e.concat(p.rows(o + a, o + a + b))) == e.concat(p.rows(o, o + a + b)),
{
    match (e, p) {
        (ValuesView::Logical(x), ValuesView::Logical(y)) => {
            assert(x + y.subrange(o, o + a) + (x + y.subrange(o + a, o + a + b)) =~= x + y.subrange(o, o + a + b));
        },
        (ValuesView::Integer(x), ValuesView::Integer(y)) => {
            assert(x + y.subrange(o, o + a) + (x + y.subrange(o + a, o + a + b)) =~= x + y.subrange(o, o + a + b));
        },
        (ValuesView::Integer64(x), ValuesView::Integer64(y)) => {
            assert(x + y.subrange(o, o + a) + (x + y.subrange(o + a, o + a + b)) =~= x + y.subrange(o, o + a + b));
        },
        (ValuesView::Double(x), ValuesView::Double(y)) => {
            assert(x + y.subrange(o, o + a) + (x + y.subrange(o + a, o + a + b)) =~= x + y.subrange(o, o + a + b));
        },
        (ValuesView::Text(x), ValuesView::Text(y)) => {
            assert(x + y.subrange(o, o + a) + (x + y.subrange(o + a, o + a + b)) =~= x + y.subrange(o, o + a + b));
        },
        (ValuesView::Binary(x), ValuesView::Binary(y)) => {
            assert(x + y.subrange(o, o + a) + (x + y.subrange(o + a, o + a + b)) =~= x + y.subrange(o, o + a + b));
        },
        _ => {},
    }
}

} // verus!
