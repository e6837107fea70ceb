//! Column-wise parameter arrays: their shape, the values written into them
//! and what the driver reports back after executing them.
use vstd::prelude::*;
use vstd::string::*;
use crate::error::{parameter, plain_error, DriverError, DriverResult};
use crate::text::{padded_decimal, push_padded_decimal};
use crate::types::SqlType;

verus! {

/// A parameter row the driver reports as executed (SQL_PARAM_SUCCESS,
/// SQL_PARAM_SUCCESS_WITH_INFO).
pub open spec fn succeeded_status(s: u16) -> bool {
    s == 0 || s == 6
}

/// A parameter row the driver reports as failed (SQL_PARAM_DIAG_UNAVAILABLE,
/// SQL_PARAM_ERROR).
pub open spec fn failed_status(s: u16) -> bool {
    s == 1 || s == 5
}

/// A status the driver wrote (success, with info, error, diagnostics
/// unavailable, unused): the array says something about the outcome.
pub open spec fn reported_status(s: u16) -> bool {
    s == 0 || s == 1 || s == 5 || s == 6 || s == 7
}

/// The number of rows among `statuses` reported as executed.
pub open spec fn count_succeeded(statuses: Seq<u16>) -> nat
    decreases statuses.len(),
{
    if statuses.len() == 0 {
        0
    } else {
        count_succeeded(statuses.drop_last()) + (if succeeded_status(statuses.last()) { 1nat } else { 0nat })
    }
}

/// Some row's status satisfies `p`.
pub open spec fn any_status(statuses: Seq<u16>, p: spec_fn(u16) -> bool) -> bool {
    exists|i: int| 0 <= i < statuses.len() && p(#[trigger] statuses[i])
}

/// Bookkeeping of a parameter array: its column count, its row count, and
/// the per-row status array and processed-row count the driver fills in.
pub struct Parameters {
    pub columns: usize,
    pub rows: usize,
    pub statuses: Vec<u16>,
    pub processed: Box<usize>,
}

impl Default for Parameters {
    /// No parameters: one parameterless execution.
    fn default() -> (p: Self)
        ensures
            p.columns == 0,
            p.rows == 1,
            p.statuses@ == seq![u16::MAX],
            *p.processed == usize::MAX,
    {
        Parameters::none()
    }
}

/// The annotation of `e0` with the batch outcome of `p`.
pub open spec fn annotated(p: Parameters, e0: DriverError, e: DriverError) -> bool {
    if p.rows <= 1 {
        e == e0
    } else {
        e == DriverError {
            batch_size: Some(p.rows),
            batch_processed: if *p.processed <= p.rows { Some(*p.processed) } else { None },
            batch_succeeded: if any_status(p.statuses@, |s: u16| reported_status(s)) {
                Some(count_succeeded(p.statuses@) as usize)
            } else {
                e0.batch_succeeded
            },
            batch_outcome_uncertain: true,
            ..e0
        }
    }
}

impl Parameters {
    /// No parameters: one parameterless execution.
    pub fn none() -> (p: Parameters)
        ensures
            p.columns == 0,
            p.rows == 1,
            p.statuses@ == seq![u16::MAX],
            *p.processed == usize::MAX,
    {
        let mut statuses: Vec<u16> = Vec::new();
        statuses.push(u16::MAX);
        Parameters { columns: 0, rows: 1, statuses, processed: Box::new(usize::MAX) }
    }

    /// An array of `columns` columns of `rows` rows, with no outcome reported yet.
    pub fn new(columns: usize, rows: usize) -> (p: Parameters)
        ensures
            p.columns == columns,
            p.rows == rows,
            p.statuses@ == Seq::new(rows as nat, |i: int| u16::MAX),
            *p.processed == usize::MAX,
    {
        let mut statuses: Vec<u16> = Vec::new();
        let mut i: usize = 0;
        while i < rows
            invariant
                i <= rows,
                statuses@ == Seq::new(i as nat, |k: int| u16::MAX),
            decreases rows - i,
        {
            statuses.push(u16::MAX);
            i = i + 1;
            assert(statuses@ =~= Seq::new(i as nat, |k: int| u16::MAX));
        }
        Parameters { columns, rows, statuses, processed: Box::new(usize::MAX) }
    }

    /// The number of parameter columns.
    pub fn len(&self) -> (n: usize)
        ensures
            n == self.columns,
    {
        self.columns
    }

    fn count_succeeded(&self) -> (n: usize)
        ensures
            n == count_succeeded(self.statuses@),
    {
        let mut n: usize = 0;
        let mut i: usize = 0;
        while i < self.statuses.len()
            invariant
                i <= self.statuses@.len(),
                n == count_succeeded(self.statuses@.subrange(0, i as int)),
                n <= i,
            decreases self.statuses@.len() - i,
        {
            assert(self.statuses@.subrange(0, i + 1).drop_last() =~= self.statuses@.subrange(0, i as int));
            let s = self.statuses[i];
            if s == 0 || s == 6 {
                n = n + 1;
            }
            i = i + 1;
        }
        assert(self.statuses@.subrange(0, i as int) =~= self.statuses@);
        n
    }

    fn any_reported(&self) -> (b: bool)
        ensures
            b == any_status(self.statuses@, |s: u16| reported_status(s)),
    {
        let mut i: usize = 0;
        while i < self.statuses.len()
            invariant
                i <= self.statuses@.len(),
                forall|k: int| 0 <= k < i ==> !reported_status(#[trigger] self.statuses@[k]),
            decreases self.statuses@.len() - i,
        {
            let s = self.statuses[i];
            if s == 0 || s == 1 || s == 5 || s == 6 || s == 7 {
                assert(reported_status(self.statuses@[i as int]));
                return true;
            }
            i = i + 1;
        }
        false
    }

    fn any_failed(&self) -> (b: bool)
        ensures
            b == any_status(self.statuses@, |s: u16| failed_status(s)),
    {
        let mut i: usize = 0;
        while i < self.statuses.len()
            invariant
                i <= self.statuses@.len(),
                forall|k: int| 0 <= k < i ==> !failed_status(#[trigger] self.statuses@[k]),
            decreases self.statuses@.len() - i,
        {
            let s = self.statuses[i];
            if s == 1 || s == 5 {
                assert(failed_status(self.statuses@[i as int]));
                return true;
            }
            i = i + 1;
        }
        false
    }

    /// Adds what is known of a multi-row execution's outcome to `error`: the
    /// batch size, the processed count when the driver set one, how many
    /// rows succeeded when the driver reported statuses, and that the
    /// batch's outcome is uncertain. A single row adds nothing.
    pub fn annotate_failure(&self, error: &mut DriverError)
        ensures
            annotated(*self, *old(error), *final(error)),
    {
        if self.rows <= 1 {
            return;
        }
        error.batch_size = Some(self.rows);
        error.batch_processed = if *self.processed <= self.rows { Some(*self.processed) } else { None };
        if self.any_reported() {
            error.batch_succeeded = Some(self.count_succeeded());
        }
        error.batch_outcome_uncertain = true;
    }

    /// The error for a multi-row execution whose status array reports a
    /// failed row, annotated with the batch outcome; nothing otherwise.
    pub fn failure(&self) -> (r: Option<DriverError>)
        ensures
            (self.rows <= 1 || !any_status(self.statuses@, |s: u16| failed_status(s))) ==> r is None,
            !(self.rows <= 1 || !any_status(self.statuses@, |s: u16| failed_status(s))) ==> (r matches Some(e)
                && exists|e0: DriverError| plain_error("execute", "batch",
                    "ODBC reported one or more failed parameter rows; some rows may have succeeded"@, e0)
                    && #[trigger] annotated(*self, e0, e)),
    {
        if self.rows <= 1 || !self.any_failed() {
            return None;
        }
        let mut error = DriverError::new("execute", "batch",
            String::from_str("ODBC reported one or more failed parameter rows; some rows may have succeeded"));
        let ghost e0 = error;
        self.annotate_failure(&mut error);
        Some(error)
    }
}

/// Validates the shape of a parameter list: `lengths` are its columns'
/// lengths and `expected` the prepared statement's marker count, if known.
/// Returns the row count (one for a list without columns).
#[verifier::loop_isolation(false)]
pub fn parameter_rows(expected: Option<usize>, lengths: &Vec<usize>) -> (r: DriverResult<usize>)
    ensures
        expected matches Some(n) && n != lengths@.len() ==> (r matches Err(e) && plain_error("bind", "parameter",
            "Parameter count does not match the prepared statement"@, e)),
        !(expected matches Some(n) && n != lengths@.len()) && lengths@.len() > u16::MAX ==> (r matches Err(e)
            && plain_error("bind", "parameter", "Too many parameter columns"@, e)),
        !(expected matches Some(n) && n != lengths@.len()) && lengths@.len() <= u16::MAX ==> {
            let rows = if lengths@.len() == 0 { 1 } else { lengths@[0] };
            &&& (forall|i: int| 0 <= i < lengths@.len() ==> #[trigger] lengths@[i] == rows) ==> r == Ok::<usize, DriverError>(rows)
            &&& !(forall|i: int| 0 <= i < lengths@.len() ==> #[trigger] lengths@[i] == rows) ==> (r matches Err(e)
                && plain_error("bind", "parameter", "Parameter columns must have equal lengths"@, e))
        },
{
    match expected {
        Some(n) => if n != lengths.len() {
            return Err(parameter("Parameter count does not match the prepared statement"));
        },
        None => {},
    }
    if lengths.len() > 65535 {
        return Err(parameter("Too many parameter columns"));
    }
    let rows = if lengths.len() == 0 { 1 } else { lengths[0] };
    let mut i: usize = 0;
    while i < lengths.len()
        invariant
            i <= lengths@.len(),
            rows == (if lengths@.len() == 0 { 1 } else { lengths@[0] }),
            forall|k: int| 0 <= k < i ==> #[trigger] lengths@[k] == rows,
        decreases lengths@.len() - i,
    {
        if lengths[i] != rows {
            return Err(parameter("Parameter columns must have equal lengths"));
        }
        i = i + 1;
    }
    Ok(rows)
}

/// The scalar binding primitive takes exactly one parameter row.
pub fn require_scalar(rows: usize) -> (r: DriverResult<()>)
    ensures
        rows == 1 ==> r is Ok,
        rows != 1 ==> (r matches Err(e) && plain_error("bind", "parameter",
            "This private scalar primitive requires exactly one parameter row; batch execution is a separate operation"@, e)),
{
    if rows != 1 {
        return Err(parameter("This private scalar primitive requires exactly one parameter row; batch execution is a separate operation"));
    }
    Ok(())
}

/// An integer64 value from its 64 bits; the NA pattern (`i64::MIN`) is NULL.
pub fn integer64_value(bits: u64) -> (v: Option<i64>)
    ensures
        v == (if bits == 0x8000_0000_0000_0000u64 { None::<i64> } else { Some(bits as i64) }),
{
    let n = bits as i64;
    assert((bits as i64) == i64::MIN <==> bits == 0x8000_0000_0000_0000u64) by (bit_vector);
    if n != i64::MIN { Some(n) } else { None }
}

/// The seconds in one unit of an R difftime.
pub fn time_unit_seconds(units: &str) -> (r: DriverResult<u32>)
    ensures
        units@ == "secs"@ ==> r == Ok::<u32, DriverError>(1),
        units@ == "mins"@ ==> r == Ok::<u32, DriverError>(60),
        units@ == "hours"@ ==> r == Ok::<u32, DriverError>(3600),
        units@ == "days"@ ==> r == Ok::<u32, DriverError>(86400),
        units@ == "weeks"@ ==> r == Ok::<u32, DriverError>(604800),
        !(units@ == "secs"@ || units@ == "mins"@ || units@ == "hours"@ || units@ == "days"@ || units@ == "weeks"@)
            ==> (r matches Err(e) && plain_error("bind", "parameter", "Invalid time units"@, e)),
{
    proof {
        reveal_strlit("secs");
        reveal_strlit("mins");
        reveal_strlit("hours");
        reveal_strlit("days");
        reveal_strlit("weeks");
        assert("secs"@[0] == 's' && "mins"@[0] == 'm' && "hours"@[0] == 'h' && "days"@[0] == 'd' && "weeks"@[0] == 'w');
    }
    if crate::text::same_text(units, "secs") {
        Ok(1)
    } else if crate::text::same_text(units, "mins") {
        Ok(60)
    } else if crate::text::same_text(units, "hours") {
        Ok(3600)
    } else if crate::text::same_text(units, "days") {
        Ok(86400)
    } else if crate::text::same_text(units, "weeks") {
        Ok(604800)
    } else {
        Err(parameter("Invalid time units"))
    }
}

/// `hh:mm:ss.fffffff` for a time of day: whole seconds since midnight and
/// the fraction of a second in units of 100 ns.
pub open spec fn time_text_of(seconds: nat, fraction: nat) -> Seq<char> {
    padded_decimal(seconds / 3600, 2) + seq![':'] + padded_decimal(seconds / 60 % 60, 2) + seq![':']
        + padded_decimal(seconds % 60, 2) + seq!['.'] + padded_decimal(fraction, 7)
}

/// The text sent for an ODBC TIME parameter.
pub fn time_text(seconds: u32, fraction: u32) -> (s: String)
    requires
        seconds < 86400,
        fraction < 10_000_000,
    ensures
        s@ == time_text_of(seconds as nat, fraction as nat),
{
    let mut s = String::new();
    push_padded_decimal(&mut s, (seconds / 3600) as u64, 2);
    proof { reveal_strlit(":"); reveal_strlit("."); }
    s.append(":");
    push_padded_decimal(&mut s, (seconds / 60 % 60) as u64, 2);
    s.append(":");
    push_padded_decimal(&mut s, (seconds % 60) as u64, 2);
    s.append(".");
    push_padded_decimal(&mut s, fraction as u64, 7);
    s
}

/// The widest of the present values' lengths, and at least one: the element
/// width of a variable-length parameter buffer.
pub open spec fn width_of(lengths: Seq<Option<usize>>) -> nat
    decreases lengths.len(),
{
    if lengths.len() == 0 {
        1
    } else {
        let w = width_of(lengths.drop_last());
        match lengths.last() {
            Some(n) => if n > w { n as nat } else { w },
            None => w,
        }
    }
}

/// The element width for variable-length values of these lengths (`None`
/// for NULL).
pub fn value_width(lengths: &Vec<Option<usize>>) -> (w: usize)
    ensures
        w == width_of(lengths@),
{
    let mut w: usize = 1;
    let mut i: usize = 0;
    while i < lengths.len()
        invariant
            i <= lengths@.len(),
            w == width_of(lengths@.subrange(0, i as int)),
        decreases lengths@.len() - i,
    {
        assert(lengths@.subrange(0, i + 1).drop_last() =~= lengths@.subrange(0, i as int));
        match lengths[i] {
            Some(n) => if n > w {
                w = n;
            },
            None => {},
        }
        i = i + 1;
    }
    assert(lengths@.subrange(0, i as int) =~= lengths@);
    w
}

/// The SQL type of a binary parameter of element width `width`.
pub fn binary_parameter_type(width: usize) -> (t: SqlType)
    requires
        width > 0,
    ensures
        width <= 8000 ==> t == (SqlType::Varbinary { length: Some(width) }),
        width > 8000 ==> t == (SqlType::LongVarbinary { length: Some(width) }),
{
    if width <= 8000 {
        SqlType::Varbinary { length: Some(width) }
    } else {
        SqlType::LongVarbinary { length: Some(width) }
    }
}

/// The fraction of a timestamp parameter, cut to the 100 ns precision of
/// the bound TIMESTAMP(7) type.
pub fn server_fraction(fraction: u32) -> (f: u32)
    ensures
        f == fraction - fraction % 100,
        f % 100 == 0,
        f <= fraction,
{
    fraction - fraction % 100
}

} // verus!
