//! Connection and result lifecycle state. The native handles live beside
//! these values; every decision about them is made here.
use vstd::prelude::*;
use vstd::string::*;
use crate::error::{diagnostics_state, diagnostics_text_of, invalid, odbc_error, plain_error, DriverError, DriverResult};
use crate::text::{decimal, push_decimal, same_text, utf8_text};
use crate::types::{Column, Options};
use crate::fetch::{empty_block, Fetcher, FetchProgress, FetchStage, block_fits, block_view};
use crate::types::Values;

verus! {

/// The lifecycle of a connection.
#[derive(Clone, Copy, Debug, PartialEq, Eq, Structural)]
pub enum ConnectionStatus {
    Open,
    Closing,
    Closed,
    Uncertain,
}

/// Which DBI entry point created a result.
#[derive(Clone, Copy, Debug, PartialEq, Eq, Structural)]
pub enum ResultKind {
    Query,
    Statement,
}

/// What a connection reports of its server.
pub struct ConnectionInfo {
    pub dbms_name: Option<String>,
    pub database: Option<String>,
}

/// One table or view listed by the catalog.
pub struct TableEntry {
    pub catalog: Option<String>,
    pub schema: Option<String>,
    pub name: String,
    pub table_type: String,
}

/// The source of process-wide identities for connections, results and
/// native attempts: each is the previous one plus one, wrapping around.
pub struct IdentitySource {
    pub next: u64,
}

/// The identity after `n`, wrapping around.
pub open spec fn successor(n: u64) -> u64 {
    if n == u64::MAX { 0 } else { (n + 1) as u64 }
}

/// The identity handed out by the call numbered `k` (from 0) of a new source.
pub open spec fn nth_identity(k: nat) -> u64
    decreases k,
{
    if k == 0 { 1 } else { successor(nth_identity((k - 1) as nat)) }
}

impl IdentitySource {
    /// Identities start at one.
    pub fn new() -> (s: IdentitySource)
        ensures
            s.next == 1,
    {
        IdentitySource { next: 1 }
    }

    /// The next identity.
    pub fn identity(&mut self) -> (id: u64)
        ensures
            id == old(self).next,
            final(self).next == successor(old(self).next),
    {
        let id = self.next;
        self.next = if self.next == u64::MAX { 0 } else { self.next + 1 };
        id
    }
}

/// SQLSTATEs by which a driver says it does not implement a request.
pub open spec fn unsupported_state(state: Seq<char>) -> bool {
    ||| state == "HYC00"@
    ||| state == "HY092"@
    ||| state == "HY096"@
    ||| state == "IM001"@
    ||| state == "S1C00"@
    ||| state == "S1092"@
}

/// Whether a SQLSTATE says that the driver does not implement the request.
pub fn is_unsupported_state(state: &str) -> (r: bool)
    ensures
        r == unsupported_state(state@),
{
    same_text(state, "HYC00") || same_text(state, "HY092") || same_text(state, "HY096")
        || same_text(state, "IM001") || same_text(state, "S1C00") || same_text(state, "S1092")
}

/// Whether an ODBC error is a `Diagnostics` error whose SQLSTATE says that
/// the driver does not implement the request. A SQLSTATE that is not UTF-8
/// says nothing of the kind.
pub fn unsupported(error: &odbc_api::Error) -> (r: bool)
    ensures
        r == (diagnostics_text_of(*error) matches Some(s) && unsupported_state(s)),
{
    match diagnostics_state(error) {
        Some(bytes) => match utf8_text(bytes.as_slice()) {
            Some(state) => is_unsupported_state(state.as_str()),
            None => false,
        },
        None => false,
    }
}

/// The state of a connection, apart from its native handle and the
/// registry of its results.
pub struct ConnectionState {
    pub id: u64,
    pub pid: u32,
    pub status: ConnectionStatus,
    pub options: Options,
}

/// What the driver answered when asked whether the connection is dead.
#[derive(Clone, Copy, Debug, PartialEq, Eq, Structural)]
pub enum Liveness {
    Alive,
    Dead,
    /// The request failed; `unsupported` when the driver does not implement it.
    Failed { unsupported: bool },
}

/// How disconnecting proceeds.
#[derive(Clone, Copy, Debug, PartialEq, Eq, Structural)]
pub enum CloseStep {
    /// Already closed: nothing to release.
    AlreadyClosed,
    /// Now closing: clear every result, then release the native connection.
    Release,
}

/// How disconnecting starts: refused (`None`) in another process or while a
/// result is in use; nothing to do when already closed; otherwise release.
pub open spec fn close_step_of(c: ConnectionState, current_pid: u32, results_free: bool) -> Option<CloseStep> {
    if c.pid != current_pid {
        None
    } else if c.status == ConnectionStatus::Closed {
        Some(CloseStep::AlreadyClosed)
    } else if !results_free {
        None
    } else {
        Some(CloseStep::Release)
    }
}

/// The status a disconnect ends in: uncertain after a release failure, closed otherwise.
pub open spec fn closed_status(failed: bool) -> ConnectionStatus {
    if failed { ConnectionStatus::Uncertain } else { ConnectionStatus::Closed }
}

/// The error of a connection check.
pub open spec fn connection_check(c: ConnectionState, operation: &'static str, current_pid: u32, r: DriverResult<()>) -> bool {
    &&& c.pid != current_pid ==> (r matches Err(e) && plain_error(operation, "state",
        "Connection belongs to another process; reconnect in this process"@, e))
    &&& c.pid == current_pid && c.status != ConnectionStatus::Open ==> (r matches Err(e)
        && e.operation == operation && e.kind@ == "state"@
        && e.message@ == "Connection is closed or uncertain; dispose of it"@
        && e.uncertain == (c.status == ConnectionStatus::Uncertain)
        && e.sqlstate is None && e.native_code is None && e.batch_size is None
        && e.batch_processed is None && e.batch_succeeded is None && !e.batch_outcome_uncertain)
    &&& c.pid == current_pid && c.status == ConnectionStatus::Open ==> r is Ok
}

impl ConnectionState {
    /// A newly opened connection.
    pub fn new(id: u64, pid: u32, options: Options) -> (c: ConnectionState)
        ensures
            c.id == id,
            c.pid == pid,
            c.status == ConnectionStatus::Open,
            c.options == options,
    {
        ConnectionState { id, pid, status: ConnectionStatus::Open, options }
    }

    /// The connection was made in the process `current_pid`.
    pub fn local(&self, current_pid: u32) -> (b: bool)
        ensures
            b == (self.pid == current_pid),
    {
        self.pid == current_pid
    }

    /// The connection may be used for `operation` in process `current_pid`.
    pub fn check(&self, operation: &'static str, current_pid: u32) -> (r: DriverResult<()>)
        ensures
            connection_check(*self, operation, current_pid, r),
    {
        if self.pid != current_pid {
            return Err(invalid(operation, "Connection belongs to another process; reconnect in this process"));
        }
        if self.status != ConnectionStatus::Open {
            let mut error = invalid(operation, "Connection is closed or uncertain; dispose of it");
            error.uncertain = self.status == ConnectionStatus::Uncertain;
            return Err(error);
        }
        Ok(())
    }

    /// An error after which the connection's usability is unknown marks it uncertain.
    pub fn observe_error(&mut self, error: &DriverError)
        ensures
            final(self).status == (if error.uncertain { ConnectionStatus::Uncertain } else { old(self).status }),
            final(self).id == old(self).id,
            final(self).pid == old(self).pid,
            final(self).options == old(self).options,
    {
        if error.uncertain {
            self.status = ConnectionStatus::Uncertain;
        }
    }

    /// Records what the driver said about the connection being dead and
    /// answers whether it is valid: alive, or unable to tell because the
    /// request is unsupported. A dead connection or another failure marks it
    /// uncertain.
    pub fn observe_liveness(&mut self, probe: Liveness) -> (valid: bool)
        ensures
            valid == (probe == Liveness::Alive || probe == (Liveness::Failed { unsupported: true })),
            final(self).status == (if valid { old(self).status } else { ConnectionStatus::Uncertain }),
            final(self).id == old(self).id,
            final(self).pid == old(self).pid,
            final(self).options == old(self).options,
    {
        match probe {
            Liveness::Alive => true,
            Liveness::Failed { unsupported: true } => true,
            _ => {
                self.status = ConnectionStatus::Uncertain;
                false
            },
        }
    }

    /// Starts disconnecting in process `current_pid`. `results_free` tells
    /// whether every registered result could be borrowed; nothing changes
    /// unless it could.
    pub fn begin_close(&mut self, current_pid: u32, results_free: bool) -> (r: DriverResult<CloseStep>)
        ensures
            final(self).id == old(self).id,
            final(self).pid == old(self).pid,
            final(self).options == old(self).options,
            match close_step_of(*old(self), current_pid, results_free) {
                Some(step) => r == Ok::<CloseStep, DriverError>(step)
                    && final(self).status == (if step == CloseStep::Release { ConnectionStatus::Closing } else { old(self).status }),
                None => final(self).status == old(self).status && (r matches Err(e)
                    && plain_error("disconnect", "state", if old(self).pid != current_pid {
                        "Connection belongs to another process"@
                    } else {
                        "A result is in use"@
                    }, e)),
            },
    {
        if self.pid != current_pid {
            return Err(invalid("disconnect", "Connection belongs to another process"));
        }
        if self.status == ConnectionStatus::Closed {
            return Ok(CloseStep::AlreadyClosed);
        }
        // Acquire every borrow before changing state or releasing any resources.
        if !results_free {
            return Err(invalid("disconnect", "A result is in use"));
        }
        self.status = ConnectionStatus::Closing;
        Ok(CloseStep::Release)
    }

    /// Finishes disconnecting after results and the native connection were
    /// released; `first_error` is the first failure among those releases.
    pub fn finish_close(&mut self, first_error: Option<DriverError>) -> (r: DriverResult<()>)
        ensures
            final(self).status == closed_status(first_error is Some),
            final(self).id == old(self).id,
            final(self).pid == old(self).pid,
            final(self).options == old(self).options,
            r == (match first_error { Some(e) => Err(e), None => Ok::<(), DriverError>(()) }),
    {
        match first_error {
            Some(error) => {
                self.status = ConnectionStatus::Uncertain;
                Err(error)
            },
            None => {
                self.status = ConnectionStatus::Closed;
                Ok(())
            },
        }
    }

    /// One catalog or server attribute read for connection information:
    /// a value; nothing when the driver does not implement the request; or
    /// the diagnostic, observed on the connection.
    pub fn read_info(&mut self, value: Result<String, odbc_api::Error>) -> (r: DriverResult<Option<String>>)
        ensures
            value matches Ok(v) ==> r == Ok::<Option<String>, DriverError>(Some(v)) && *final(self) == *old(self),
            value is Err ==> (r matches Ok(v) ==> v is None && *final(self) == *old(self)),
            value matches Err(x) ==> ((r is Ok) == (diagnostics_text_of(x) matches Some(s) && unsupported_state(s))),
            value matches Err(x) ==> (r matches Err(e) ==> odbc_error("connection_info", x, e)),
            value is Err ==> (r matches Err(e) ==> e.operation == "connection_info"
                && final(self).status == (if e.uncertain { ConnectionStatus::Uncertain } else { old(self).status })
                && final(self).id == old(self).id && final(self).pid == old(self).pid
                && final(self).options == old(self).options),
    {
        match value {
            Ok(v) => Ok(Some(v)),
            Err(error) => {
                if unsupported(&error) {
                    Ok(None)
                } else {
                    let error = DriverError::odbc("connection_info", error);
                    self.observe_error(&error);
                    Err(error)
                }
            },
        }
    }
}

/// Keeps the first failure of a series of cleanup steps.
pub fn keep_first(first: &mut Option<DriverError>, outcome: DriverResult<()>)
    ensures
        *final(first) == (match (*old(first), outcome) {
            (Some(e), _) => Some(e),
            (None, Err(e)) => Some(e),
            (None, Ok(_)) => None,
        }),
{
    if first.is_none() {
        match outcome {
            Err(e) => {
                *first = Some(e);
            },
            Ok(_) => {},
        }
    }
}

/// The catalog a table listing is asked for: the one given, or none when
/// the given name is empty, in which case the connection's current catalog
/// is used.
pub fn given_catalog(catalog: &str) -> (c: Option<String>)
    ensures
        catalog@.len() == 0 ==> c is None,
        catalog@.len() > 0 ==> (c matches Some(s) && s@ == catalog@),
{
    if catalog.is_empty() {
        None
    } else {
        Some(String::from_str(catalog))
    }
}

/// The table name of a catalog row; a row without one is an error, raised
/// before any later column of the row is read.
pub fn table_name(name: Option<String>) -> (r: DriverResult<String>)
    ensures
        name is None ==> (r matches Err(e) && plain_error("tables", "state", "Missing table name"@, e)),
        name matches Some(n) ==> r == Ok::<String, DriverError>(n),
{
    match name {
        Some(name) => Ok(name),
        None => Err(invalid("tables", "Missing table name")),
    }
}

/// A catalog row as a table entry; a missing type is empty.
pub fn table_entry(catalog: Option<String>, schema: Option<String>, name: String, table_type: Option<String>) -> (t: TableEntry)
    ensures
        t.catalog == catalog,
        t.schema == schema,
        t.name == name,
        t.table_type@ == (match table_type { Some(s) => s@, None => Seq::<char>::empty() }),
{
    let table_type = match table_type {
        Some(s) => s,
        None => String::new(),
    };
    TableEntry { catalog, schema, name, table_type }
}

/// What an operation on a result asks of its connection's state.
#[derive(Clone, Copy, Debug, PartialEq, Eq, Structural)]
pub enum ConnectionEffect {
    Keep,
    /// The connection's usability is now unknown.
    MarkUncertain,
}

/// The effect of observing `error` on the connection.
pub open spec fn observed(error: DriverError) -> ConnectionEffect {
    if error.uncertain { ConnectionEffect::MarkUncertain } else { ConnectionEffect::Keep }
}

fn observe(error: &DriverError) -> (e: ConnectionEffect)
    ensures
        e == observed(*error),
{
    if error.uncertain { ConnectionEffect::MarkUncertain } else { ConnectionEffect::Keep }
}

impl ConnectionState {
    /// Applies what an operation on one of its results asks of the connection.
    pub fn apply(&mut self, effect: ConnectionEffect)
        ensures
            final(self).status == (if effect == ConnectionEffect::MarkUncertain { ConnectionStatus::Uncertain } else { old(self).status }),
            final(self).id == old(self).id,
            final(self).pid == old(self).pid,
            final(self).options == old(self).options,
    {
        if effect == ConnectionEffect::MarkUncertain {
            self.status = ConnectionStatus::Uncertain;
        }
    }
}

/// A native execution call: its identity, outcome ("success", "failure",
/// "timeout" or "cancelled"), its duration in nanoseconds and the number of
/// parameter rows it was given. A diagnostic of the call, not an observer
/// event.
#[derive(Clone, Debug)]
pub struct NativeAttempt {
    pub id: u64,
    pub outcome: &'static str,
    pub duration_nanos: u64,
    pub batch_size: usize,
}

/// The outcome of a native execution call.
pub open spec fn outcome_of(succeeded: bool, batch_failed: bool, state: Option<Seq<char>>) -> Seq<char> {
    if succeeded {
        if batch_failed { "failure"@ } else { "success"@ }
    } else {
        match state {
            Some(s) => if s == "HYT00"@ || s == "HYT01"@ {
                "timeout"@
            } else if s == "HY008"@ {
                "cancelled"@
            } else {
                "failure"@
            },
            None => "failure"@,
        }
    }
}

/// Classifies a native execution call: whether it returned successfully,
/// whether parameter rows failed, and the SQLSTATE of its `Diagnostics`
/// error, if it failed with one.
pub fn attempt_outcome(succeeded: bool, batch_failed: bool, state: Option<&str>) -> (o: &'static str)
    ensures
        o@ == outcome_of(succeeded, batch_failed, match state { Some(s) => Some(s@), None => None::<Seq<char>> }),
{
    if succeeded {
        if batch_failed { "failure" } else { "success" }
    } else {
        match state {
            Some(s) => if same_text(s, "HYT00") || same_text(s, "HYT01") {
                "timeout"
            } else if same_text(s, "HY008") {
                "cancelled"
            } else {
                "failure"
            },
            None => "failure",
        }
    }
}

/// The SQLSTATE text of a `Diagnostics` error, when its bytes are UTF-8.
pub fn diagnostics_text(error: &odbc_api::Error) -> (s: Option<String>)
    ensures
        match s {
            Some(t) => diagnostics_text_of(*error) == Some(t@),
            None => diagnostics_text_of(*error) is None,
        },
{
    match diagnostics_state(error) {
        Some(bytes) => utf8_text(bytes.as_slice()),
        None => None,
    }
}

/// How the affected-row count of an execution is read: every result's
/// count summed (a statement batch of several rows), the one count (a
/// statement), or none (a query).
#[derive(Clone, Copy, Debug, PartialEq, Eq, Structural)]
pub enum CountStep {
    DrainAll,
    RowCount,
    NoCount,
}

/// The count step for a result of `kind` executed with `rows` parameter rows.
pub open spec fn count_step_of(kind: ResultKind, rows: usize) -> CountStep {
    if kind == ResultKind::Statement && rows > 1 {
        CountStep::DrainAll
    } else if kind == ResultKind::Statement {
        CountStep::RowCount
    } else {
        CountStep::NoCount
    }
}

/// How the affected-row count of an execution is read.
pub fn count_step(kind: ResultKind, rows: usize) -> (c: CountStep)
    ensures
        c == count_step_of(kind, rows),
{
    if kind == ResultKind::Statement && rows > 1 {
        CountStep::DrainAll
    } else if kind == ResultKind::Statement {
        CountStep::RowCount
    } else {
        CountStep::NoCount
    }
}

/// What follows a native execution call that returned: abandon a batch
/// whose parameter rows failed, finish without a result set, or count
/// (`DrainAll` consumes the cursor; otherwise it is kept for fetching).
#[derive(Clone, Copy, Debug, PartialEq, Eq, Structural)]
pub enum AfterCall {
    AbortBatch,
    NoResultSet,
    WithCursor(CountStep),
}

/// The step after a call that returned, with a cursor or not, for a result
/// of `kind` executed with `rows` parameter rows.
pub open spec fn after_call_of(kind: ResultKind, rows: usize, cursor: bool, batch_failed: bool) -> AfterCall {
    if batch_failed {
        AfterCall::AbortBatch
    } else if !cursor {
        AfterCall::NoResultSet
    } else {
        AfterCall::WithCursor(count_step_of(kind, rows))
    }
}

/// What follows a native execution call that returned.
pub fn after_call(kind: ResultKind, rows: usize, cursor: bool, batch_failed: bool) -> (a: AfterCall)
    ensures
        a == after_call_of(kind, rows, cursor, batch_failed),
{
    if batch_failed {
        AfterCall::AbortBatch
    } else if !cursor {
        AfterCall::NoResultSet
    } else {
        AfterCall::WithCursor(count_step(kind, rows))
    }
}

/// The affected-row count a driver reports, when it is a count.
pub fn affected_of(count: isize) -> (n: Option<usize>)
    ensures
        n == (if count >= 0 { Some(count as usize) } else { None::<usize> }),
{
    if count >= 0 { Some(count as usize) } else { None }
}

/// Adds one result set's affected count to a running total; an unknown
/// count or an overflow makes the total unknown.
pub fn accumulate_affected(total: Option<usize>, count: isize) -> (t: Option<usize>)
    ensures
        t == (match total {
            Some(a) => if count >= 0 && a + count <= usize::MAX { Some((a + count) as usize) } else { None::<usize> },
            None => None::<usize>,
        }),
{
    match total {
        Some(a) => match affected_of(count) {
            Some(n) => a.checked_add(n),
            None => None,
        },
        None => None,
    }
}

/// What a result holds beside its native statement and cursor.
pub enum Resource {
    /// A statement ready to execute, or executed without a cursor.
    Ready,
    /// An executed statement and its cursor's converted rows, if it has a cursor.
    Active(Option<Fetcher>),
    /// Released after a failure.
    Failed,
    /// Released by clearing.
    Cleared,
}

/// The state of a result, apart from its native statement and cursor.
pub struct ResultState {
    pub id: u64,
    pub connection_id: u64,
    pub pid: u32,
    /// The result still holds a strong reference keeping its connection open.
    pub leased: bool,
    pub sql: String,
    /// Prepared marker count; unknown for direct execution.
    pub parameter_count: Option<usize>,
    pub immediate: bool,
    pub kind: ResultKind,
    pub resource: Resource,
    pub columns: Vec<Column>,
    pub delivered: u64,
    pub affected: Option<usize>,
    pub native_attempt: Option<NativeAttempt>,
    pub consumption_error: Option<DriverError>,
    pub bound: bool,
    pub batch_size: usize,
}

/// How a result stands with its connection: released, or its checks.
pub open spec fn connection_ok(connection: Option<&ConnectionState>, operation: &'static str, current_pid: u32, r: DriverResult<()>) -> bool {
    match connection {
        None => r matches Err(e) && plain_error("native", "state", "Connection has been released"@, e),
        Some(c) => connection_check(*c, operation, current_pid, r),
    }
}

/// The connection exists and may be used in this process.
pub open spec fn usable(connection: Option<&ConnectionState>, current_pid: u32) -> bool {
    connection matches Some(c) && c.pid == current_pid && c.status == ConnectionStatus::Open
}

/// What a fetch starts with.
pub enum FetchStart {
    /// The result is complete without a cursor: these typed empty columns.
    Rows(Vec<Values>),
    /// Deliver rows from the cursor; `progress` tracks the request.
    Cursor(FetchProgress),
    /// Consuming the result failed before any native call (see `fail_consumption`).
    Fails(DriverError),
}

/// How a completion query proceeds.
#[derive(Clone, Copy, Debug, PartialEq, Eq, Structural)]
pub enum CompletionStep {
    Known(bool),
    /// Refill the cursor if it wants rows, then ask the fetcher.
    Probe,
}

/// How a result's statement is recovered for a new execution.
pub enum Recovery {
    /// The statement is ready as it is.
    Reuse,
    /// Its cursor must be closed first.
    CloseCursor,
}

/// How clearing proceeds.
pub enum ClearStep {
    /// Close the cursor, then release the statement.
    CloseCursor,
    /// Release whatever native resource remains.
    Release,
    /// Nothing: the result was cleared already and holds nothing.
    AlreadyCleared,
}

/// What a native execution produced.
pub enum ExecutionOutcome {
    /// The call returned a cursor: its converted-rows state, and the affected
    /// count read before fetching.
    Cursor { fetcher: Fetcher, affected: Option<usize> },
    /// The call returned no cursor: the affected count (or its failure), and
    /// a parameter-row failure, if any.
    NoCursor { affected: DriverResult<Option<usize>>, batch_error: Option<DriverError> },
    /// The call itself failed with `error`; `state` is the SQLSTATE of its
    /// `Diagnostics` record, if it has one.
    Refused { error: DriverError, state: Option<String> },
    /// The call returned, but parameter rows failed.
    BatchFailed { error: DriverError },
    /// The call succeeded, but what followed it failed.
    Failed { error: DriverError },
}

/// The outcome recorded for the native call of an execution.
pub open spec fn attempt_label(outcome: ExecutionOutcome) -> Seq<char> {
    match outcome {
        ExecutionOutcome::Cursor { .. } => outcome_of(true, false, None),
        ExecutionOutcome::NoCursor { batch_error, .. } => outcome_of(true, batch_error is Some, None),
        ExecutionOutcome::Refused { state, .. } => outcome_of(false, false,
            match state { Some(s) => Some(s@), None => None::<Seq<char>> }),
        ExecutionOutcome::BatchFailed { .. } => outcome_of(true, true, None),
        ExecutionOutcome::Failed { .. } => outcome_of(true, false, None),
    }
}

/// A copy of each column.
pub fn clone_columns(columns: &Vec<Column>) -> (c: Vec<Column>)
    ensures
        c@ == columns@,
{
    let mut c: Vec<Column> = Vec::new();
    let mut i: usize = 0;
    while i < columns.len()
        invariant
            i <= columns@.len(),
            c@ == columns@.subrange(0, i as int),
        decreases columns@.len() - i,
    {
        c.push(columns[i].duplicate());
        i = i + 1;
        assert(c@ =~= columns@.subrange(0, i as int));
    }
    assert(c@ =~= columns@);
    c
}

/// A result after consumption failed with `error`: the error is recorded
/// and the native resources are given up; counts and metadata stay.
pub open spec fn consumption_failed(r: ResultState, error: DriverError) -> ResultState {
    ResultState { consumption_error: Some(error), resource: Resource::Failed, ..r }
}

/// A result after clearing: its native resources are gone; its metadata,
/// counts and diagnostics remain.
pub open spec fn cleared(r: ResultState) -> ResultState {
    ResultState { resource: Resource::Cleared, ..r }
}

/// What clearing a result asks of its native side in process
/// `current_pid`; nothing may be done from another process.
pub open spec fn clear_step_of(r: ResultState, current_pid: u32) -> Option<ClearStep> {
    if r.pid != current_pid {
        None
    } else if r.resource is Cleared && !r.leased {
        Some(ClearStep::AlreadyCleared)
    } else if r.resource is Active {
        Some(ClearStep::CloseCursor)
    } else {
        Some(ClearStep::Release)
    }
}

/// The "Expected m parameters; received n" message.
pub open spec fn count_message(expected: usize, received: usize) -> Seq<char> {
    "Expected "@ + decimal(expected as nat) + " parameters; received "@ + decimal(received as nat)
}

impl ResultState {
    /// The result has a native statement (ready or active).
    pub open spec fn holds_resource(&self) -> bool {
        self.resource is Ready || self.resource is Active
    }

    /// The converted-rows state of an active cursor is well formed.
    pub open spec fn wf(&self) -> bool {
        self.resource matches Resource::Active(Some(f)) ==> f.wf()
    }

    /// All rows have been produced.
    pub open spec fn is_complete(&self) -> bool {
        if self.kind == ResultKind::Statement && self.holds_resource() && self.bound {
            true
        } else {
            match self.resource {
                Resource::Active(f) => match f {
                    Some(f) => f.is_complete(),
                    None => true,
                },
                Resource::Ready => self.bound,
                _ => false,
            }
        }
    }

    /// The result's connection is usable and the result was not released.
    pub open spec fn is_valid(&self, connection: Option<&ConnectionState>, current_pid: u32) -> bool {
        usable(connection, current_pid) && !(self.resource is Cleared || self.resource is Failed)
    }

    /// The lifecycle label shown for the result.
    pub open spec fn status_label(&self, connection: Option<&ConnectionState>, current_pid: u32) -> Seq<char> {
        if self.pid != current_pid {
            "invalid"@
        } else if self.resource is Cleared {
            "cleared"@
        } else if self.resource is Failed {
            "failed"@
        } else if !self.is_valid(connection, current_pid) {
            "invalid"@
        } else if self.kind == ResultKind::Statement && self.bound {
            "completed"@
        } else if self.resource is Ready {
            if !self.bound {
                if self.immediate { "allocated"@ } else { "prepared"@ }
            } else {
                "completed"@
            }
        } else if self.is_complete() {
            "exhausted"@
        } else {
            "fetchable"@
        }
    }

    /// The outcome of checking the result for `operation`.
    pub open spec fn check_outcome(&self, operation: &'static str, current_pid: u32, connection: Option<&ConnectionState>, r: DriverResult<()>) -> bool {
        &&& self.pid != current_pid ==> (r matches Err(e) && plain_error(operation, "state", "Result belongs to another process"@, e))
        &&& self.pid == current_pid && !self.holds_resource() ==> (r matches Err(e)
            && plain_error(operation, "state", "Result has been cleared or has failed"@, e))
        &&& self.pid == current_pid && self.holds_resource() ==> connection_ok(connection, operation, current_pid, r)
    }

    /// A prepared (or, when `immediate`, allocated) result of `kind` on the connection.
    pub fn new(id: u64, connection_id: u64, pid: u32, sql: String, parameter_count: Option<usize>, immediate: bool, kind: ResultKind) -> (r: ResultState)
        ensures
            r.id == id,
            r.connection_id == connection_id,
            r.pid == pid,
            r.leased,
            r.sql == sql,
            r.parameter_count == parameter_count,
            r.immediate == immediate,
            r.kind == kind,
            r.resource is Ready,
            r.columns@.len() == 0,
            r.delivered == 0,
            r.affected is None,
            r.native_attempt is None,
            r.consumption_error is None,
            !r.bound,
            r.batch_size == 0,
            r.wf(),
    {
        ResultState {
            id,
            connection_id,
            pid,
            leased: true,
            sql,
            parameter_count,
            immediate,
            kind,
            resource: Resource::Ready,
            columns: Vec::new(),
            delivered: 0,
            affected: None,
            native_attempt: None,
            consumption_error: None,
            bound: false,
            batch_size: 0,
        }
    }

    /// The result was made in the process `current_pid`.
    pub fn local(&self, current_pid: u32) -> (b: bool)
        ensures
            b == (self.pid == current_pid),
    {
        self.pid == current_pid
    }

    /// The result still has a native statement.
    pub fn has_resource(&self) -> (b: bool)
        ensures
            b == self.holds_resource(),
    {
        match self.resource {
            Resource::Ready => true,
            Resource::Active(_) => true,
            _ => false,
        }
    }

    /// The connection, which may have been released, may be used for `operation`.
    pub fn connection_check(connection: Option<&ConnectionState>, operation: &'static str, current_pid: u32) -> (r: DriverResult<()>)
        ensures
            connection_ok(connection, operation, current_pid, r),
    {
        match connection {
            Some(c) => c.check(operation, current_pid),
            None => Err(invalid("native", "Connection has been released")),
        }
    }

    /// The result may be used for `operation` in process `current_pid`.
    pub fn check(&self, operation: &'static str, current_pid: u32, connection: Option<&ConnectionState>) -> (r: DriverResult<()>)
        ensures
            self.check_outcome(operation, current_pid, connection, r),
    {
        if !self.local(current_pid) {
            return Err(invalid(operation, "Result belongs to another process"));
        }
        if !self.has_resource() {
            return Err(invalid(operation, "Result has been cleared or has failed"));
        }
        Self::connection_check(connection, operation, current_pid)
    }

    /// The result's connection is usable and the result was not released.
    pub fn valid(&self, connection: Option<&ConnectionState>, current_pid: u32) -> (b: bool)
        ensures
            b == self.is_valid(connection, current_pid),
    {
        let usable = match Self::connection_check(connection, "validity", current_pid) {
            Ok(()) => true,
            Err(_) => false,
        };
        let released = match self.resource {
            Resource::Cleared => true,
            Resource::Failed => true,
            _ => false,
        };
        usable && !released
    }

    /// All rows have been produced (or, for a statement, it has executed).
    pub fn complete(&self) -> (b: bool)
        requires
            self.wf(),
        ensures
            b == self.is_complete(),
    {
        if self.kind == ResultKind::Statement && self.has_resource() && self.bound {
            return true;
        }
        match &self.resource {
            Resource::Active(f) => match f {
                Some(f) => f.complete(),
                None => true,
            },
            Resource::Ready => self.bound,
            _ => false,
        }
    }

    /// The lifecycle label shown for the result.
    pub fn status(&self, connection: Option<&ConnectionState>, current_pid: u32) -> (s: &'static str)
        requires
            self.wf(),
        ensures
            s@ == self.status_label(connection, current_pid),
    {
        if !self.local(current_pid) {
            return "invalid";
        }
        match &self.resource {
            Resource::Cleared => "cleared",
            Resource::Failed => "failed",
            _ => if !self.valid(connection, current_pid) {
                "invalid"
            } else if self.kind == ResultKind::Statement && self.bound {
                "completed"
            } else {
                match &self.resource {
                    Resource::Ready => if !self.bound {
                        if self.immediate { "allocated" } else { "prepared" }
                    } else {
                        "completed"
                    },
                    _ => if self.complete() { "exhausted" } else { "fetchable" },
                }
            },
        }
    }

    /// Starts a column-information request: `Ok(true)` when the prepared
    /// statement must be described by the driver (it has not been executed),
    /// `Ok(false)` when the known columns answer it.
    pub fn begin_column_info(&self, current_pid: u32, connection: Option<&ConnectionState>) -> (r: DriverResult<bool>)
        ensures
            !(self.pid == current_pid && self.holds_resource() && usable(connection, current_pid)) ==>
                self.check_outcome("column_info", current_pid, connection, match r { Ok(_) => Ok(()), Err(e) => Err(e) }),
            usable(connection, current_pid) && self.pid == current_pid && self.holds_resource() ==> {
                &&& !self.bound && self.immediate ==> (r matches Err(e) && plain_error("column_info", "state",
                    "Direct statement must be executed before requesting columns"@, e))
                &&& !self.bound && !self.immediate && self.resource is Ready && !self.leased ==> (r matches Err(e)
                    && plain_error("column_info", "state", "Connection has been released"@, e))
                &&& !self.bound && !self.immediate && self.resource is Ready && self.leased ==> r == Ok::<bool, DriverError>(true)
                &&& (self.bound || (!self.immediate && !(self.resource is Ready))) ==> r == Ok::<bool, DriverError>(false)
            },
    {
        match self.check("column_info", current_pid, connection) {
            Ok(()) => {},
            Err(e) => return Err(e),
        }
        if !self.bound {
            if self.immediate {
                return Err(invalid("column_info", "Direct statement must be executed before requesting columns"));
            }
            match self.resource {
                Resource::Ready => {
                    if !self.leased {
                        return Err(invalid("column_info", "Connection has been released"));
                    }
                    return Ok(true);
                },
                _ => {},
            }
        }
        Ok(false)
    }

    /// Starts an execution with `parameters` columns of `rows` rows: checks
    /// the result and the parameter shape, then takes the statement back
    /// from any previous execution. The resource is `Failed` until the
    /// execution finishes.
    pub fn begin_execute(&mut self, current_pid: u32, connection: Option<&ConnectionState>, parameters: usize, rows: usize) -> (r: DriverResult<Recovery>)
        ensures
            old(self).wf() ==> final(self).wf(),
            final(self).id == old(self).id,
            final(self).pid == old(self).pid,
            final(self).kind == old(self).kind,
            final(self).immediate == old(self).immediate,
            final(self).parameter_count == old(self).parameter_count,
            final(self).bound == old(self).bound,
            final(self).columns == old(self).columns,
            final(self).delivered == old(self).delivered,
            final(self).leased == old(self).leased,
            r is Err ==> *final(self) == *old(self),
            r is Ok ==> *final(self) == (ResultState { resource: Resource::Failed, ..*old(self) }),
            !(old(self).pid == current_pid && old(self).holds_resource() && usable(connection, current_pid)) ==>
                old(self).check_outcome("execute", current_pid, connection, match r { Ok(_) => Ok(()), Err(e) => Err(e) })
                && final(self).resource == old(self).resource,
            old(self).pid == current_pid && old(self).holds_resource() && usable(connection, current_pid) ==> {
                let mismatch = old(self).parameter_count matches Some(n) && n != parameters;
                let empty_direct_query = rows == 0 && old(self).kind == ResultKind::Query && old(self).immediate;
                &&& mismatch ==> (r matches Err(e) && plain_error("bind", "parameter",
                    count_message(old(self).parameter_count->0, parameters), e)) && final(self).resource == old(self).resource
                &&& !mismatch && empty_direct_query ==> (r matches Err(e) && plain_error("bind", "state",
                    "Empty query batches require prepared execution for typed metadata"@, e))
                    && final(self).resource == old(self).resource
                &&& !mismatch && !empty_direct_query ==> final(self).resource is Failed
                    && (old(self).resource is Ready ==> (r matches Ok(Recovery::Reuse)))
                    && (old(self).resource is Active ==> (r matches Ok(Recovery::CloseCursor)))
            },
    {
        match self.check("execute", current_pid, connection) {
            Ok(()) => {},
            Err(e) => return Err(e),
        }
        match self.parameter_count {
            Some(expected) => if expected != parameters {
                let mut message = String::from_str("Expected ");
                push_decimal(&mut message, expected as u64);
                message.append(" parameters; received ");
                push_decimal(&mut message, parameters as u64);
                return Err(DriverError::new("bind", "parameter", message));
            },
            None => {},
        }
        if rows == 0 && self.kind == ResultKind::Query && self.immediate {
            return Err(invalid("bind", "Empty query batches require prepared execution for typed metadata"));
        }
        self.recover_statement()
    }

    /// Takes the statement back for another execution, leaving the resource
    /// `Failed` until the execution finishes; a cleared or failed result
    /// cannot be executed again.
    pub fn recover_statement(&mut self) -> (r: DriverResult<Recovery>)
        ensures
            old(self).wf() ==> final(self).wf(),
            final(self).id == old(self).id,
            final(self).pid == old(self).pid,
            final(self).kind == old(self).kind,
            final(self).immediate == old(self).immediate,
            final(self).parameter_count == old(self).parameter_count,
            final(self).bound == old(self).bound,
            final(self).columns == old(self).columns,
            final(self).delivered == old(self).delivered,
            final(self).leased == old(self).leased,
            r is Err ==> *final(self) == *old(self),
            r is Ok ==> *final(self) == (ResultState { resource: Resource::Failed, ..*old(self) }),
            old(self).resource is Ready ==> (r matches Ok(Recovery::Reuse)) && final(self).resource is Failed,
            old(self).resource is Active ==> (r matches Ok(Recovery::CloseCursor)) && final(self).resource is Failed,
            old(self).resource is Cleared ==> (r matches Err(e) && plain_error("bind", "state", "Result has been cleared"@, e))
                && final(self).resource is Cleared,
            old(self).resource is Failed ==> (r matches Err(e) && plain_error("bind", "state",
                "Result has failed; clear it and prepare a new result"@, e)) && final(self).resource is Failed,
    {
        let mut previous = Resource::Failed;
        std::mem::swap(&mut previous, &mut self.resource);
        match previous {
            Resource::Ready => Ok(Recovery::Reuse),
            Resource::Active(_) => Ok(Recovery::CloseCursor),
            Resource::Cleared => {
                self.resource = Resource::Cleared;
                Err(invalid("bind", "Result has been cleared"))
            },
            Resource::Failed => Err(invalid("bind", "Result has failed; clear it and prepare a new result")),
        }
    }

    /// Forgets everything the previous execution produced before executing
    /// `rows` parameter rows.
    pub fn reset_for_execute(&mut self, rows: usize)
        ensures
            old(self).wf() ==> final(self).wf(),
            final(self).delivered == 0,
            final(self).affected is None,
            final(self).columns@.len() == 0,
            final(self).consumption_error is None,
            final(self).native_attempt is None,
            !final(self).bound,
            final(self).batch_size == rows,
            final(self).resource == old(self).resource,
            final(self).id == old(self).id,
            final(self).pid == old(self).pid,
            final(self).kind == old(self).kind,
            final(self).immediate == old(self).immediate,
            final(self).parameter_count == old(self).parameter_count,
            final(self).leased == old(self).leased,
            *final(self) == (ResultState { delivered: 0, affected: None, columns: final(self).columns,
                consumption_error: None, native_attempt: None, bound: false, batch_size: rows, ..*old(self) }),
    {
        self.delivered = 0;
        self.affected = None;
        self.columns = Vec::new();
        self.consumption_error = None;
        self.native_attempt = None;
        self.bound = false;
        self.batch_size = rows;
    }

    /// Finishes an execution of zero parameter rows, which runs nothing: a
    /// query gets the `described` columns, a statement none; nothing was affected.
    pub fn finish_empty_execution(&mut self, described: Vec<Column>)
        ensures
            final(self).columns@ == (if old(self).kind == ResultKind::Query { described@ } else { Seq::<Column>::empty() }),
            final(self).affected == Some(0usize),
            final(self).bound,
            final(self).resource is Ready,
            final(self).id == old(self).id,
            final(self).pid == old(self).pid,
            final(self).kind == old(self).kind,
            final(self).immediate == old(self).immediate,
            final(self).delivered == old(self).delivered,
            final(self).leased == old(self).leased,
            final(self).wf(),
            *final(self) == (ResultState { columns: final(self).columns, affected: Some(0usize), bound: true,
                resource: Resource::Ready, ..*old(self) }),
    {
        self.columns = if self.kind == ResultKind::Query { described } else { Vec::new() };
        self.affected = Some(0);
        self.bound = true;
        self.resource = Resource::Ready;
    }

    /// Finishes a native execution whose call `id` took `duration_nanos`:
    /// records the attempt, labelled by how the call went, and what the
    /// execution produced. A cursor makes the result active. Without a
    /// cursor the affected count of a statement is recorded (a query affects
    /// none), unless parameter rows failed (the result then fails) or the
    /// count could not be read. A failure after a successful call is a
    /// consumption failure; a refused call or failed parameter rows are not.
    /// Returns what the connection must observe.
    pub fn finish_execution(&mut self, id: u64, duration_nanos: u64, outcome: ExecutionOutcome) -> (r: (DriverResult<()>, ConnectionEffect))
        requires
            old(self).wf(),
            outcome matches ExecutionOutcome::Cursor { fetcher, .. } ==> fetcher.wf(),
        ensures
            final(self).wf(),
            final(self).id == old(self).id,
            final(self).pid == old(self).pid,
            final(self).kind == old(self).kind,
            final(self).immediate == old(self).immediate,
            final(self).delivered == old(self).delivered,
            final(self).leased == old(self).leased,
            final(self).batch_size == old(self).batch_size,
            final(self).sql == old(self).sql,
            final(self).native_attempt matches Some(a) && a.id == id && a.duration_nanos == duration_nanos
                && a.batch_size == old(self).batch_size && a.outcome@ == attempt_label(outcome),
            r.0 is Ok ==> (final(self).native_attempt matches Some(a) && a.outcome@ == "success"@),
            match outcome {
                ExecutionOutcome::Cursor { fetcher, affected } => {
                    &&& r.0 is Ok && r.1 == ConnectionEffect::Keep
                    &&& final(self).bound
                    &&& final(self).columns@ == fetcher.columns@
                    &&& final(self).affected == (if old(self).kind == ResultKind::Statement { affected } else { None })
                    &&& final(self).resource == Resource::Active(Some(fetcher))
                    &&& final(self).consumption_error == old(self).consumption_error
                },
                ExecutionOutcome::NoCursor { affected, batch_error } => {
                    &&& final(self).bound
                    &&& final(self).columns@.len() == 0
                    &&& match batch_error {
                        Some(e) => {
                            &&& r.0 == Err::<(), DriverError>(e) && r.1 == ConnectionEffect::Keep
                            &&& final(self).resource is Failed
                            &&& final(self).affected == old(self).affected
                            &&& final(self).consumption_error == old(self).consumption_error
                        },
                        None => {
                            &&& final(self).resource is Ready
                            &&& match affected {
                                Ok(n) => r.0 is Ok && r.1 == ConnectionEffect::Keep
                                    && final(self).affected == (if old(self).kind == ResultKind::Statement { n } else { None })
                                    && final(self).consumption_error == old(self).consumption_error,
                                Err(e) => r.0 == Err::<(), DriverError>(e) && r.1 == observed(e)
                                    && final(self).consumption_error == Some(e)
                                    && final(self).affected == old(self).affected,
                            }
                        },
                    }
                },
                ExecutionOutcome::Refused { error, .. } | ExecutionOutcome::BatchFailed { error }
                    | ExecutionOutcome::Failed { error } => {
                    &&& r.0 == Err::<(), DriverError>(error) && r.1 == observed(error)
                    &&& final(self).resource == old(self).resource
                    &&& final(self).bound == old(self).bound
                    &&& final(self).columns == old(self).columns
                    &&& final(self).affected == old(self).affected
                    &&& final(self).consumption_error == (if outcome is Failed { Some(error) } else { old(self).consumption_error })
                },
            },
    {
        let label = match &outcome {
            ExecutionOutcome::Cursor { .. } => attempt_outcome(true, false, None),
            ExecutionOutcome::NoCursor { batch_error, .. } => attempt_outcome(true, batch_error.is_some(), None),
            ExecutionOutcome::Refused { state, .. } => match state {
                Some(s) => attempt_outcome(false, false, Some(s.as_str())),
                None => attempt_outcome(false, false, None),
            },
            ExecutionOutcome::BatchFailed { .. } => attempt_outcome(true, true, None),
            ExecutionOutcome::Failed { .. } => attempt_outcome(true, false, None),
        };
        self.native_attempt = Some(NativeAttempt { id, outcome: label, duration_nanos, batch_size: self.batch_size });
        proof {
            reveal_strlit("success");
            reveal_strlit("failure");
            reveal_strlit("timeout");
            reveal_strlit("cancelled");
        }
        match outcome {
            ExecutionOutcome::Cursor { fetcher, affected } => {
                self.bound = true;
                self.columns = clone_columns(&fetcher.columns);
                self.affected = if self.kind == ResultKind::Statement { affected } else { None };
                self.resource = Resource::Active(Some(fetcher));
                (Ok(()), ConnectionEffect::Keep)
            },
            ExecutionOutcome::NoCursor { affected, batch_error } => {
                self.bound = true;
                self.columns = Vec::new();
                self.resource = Resource::Ready;
                match batch_error {
                    Some(error) => {
                        self.resource = Resource::Failed;
                        (Err(error), ConnectionEffect::Keep)
                    },
                    None => match affected {
                        Ok(n) => {
                            self.affected = if self.kind == ResultKind::Statement { n } else { None };
                            (Ok(()), ConnectionEffect::Keep)
                        },
                        Err(error) => {
                            let effect = observe(&error);
                            self.consumption_error = Some(error.duplicate());
                            (Err(error), effect)
                        },
                    },
                }
            },
            ExecutionOutcome::Failed { error } => {
                self.consumption_error = Some(error.duplicate());
                let effect = observe(&error);
                (Err(error), effect)
            },
            ExecutionOutcome::Refused { error, .. } | ExecutionOutcome::BatchFailed { error } => {
                let effect = observe(&error);
                (Err(error), effect)
            },
        }
    }

    /// Starts fetching `limit` rows (all remaining for `None`). A statement
    /// result, and an executed result without a cursor, deliver typed empty
    /// columns; an unexecuted result cannot be fetched. An active result
    /// without a cursor fails consumption.
    pub fn begin_fetch(&self, current_pid: u32, connection: Option<&ConnectionState>, limit: Option<usize>) -> (r: DriverResult<FetchStart>)
        requires
            self.wf(),
        ensures
            !(self.pid == current_pid && self.holds_resource() && usable(connection, current_pid)) ==>
                self.check_outcome("fetch", current_pid, connection, match r { Ok(_) => Ok(()), Err(e) => Err(e) }),
            self.pid == current_pid && self.holds_resource() && usable(connection, current_pid) ==> {
                &&& self.kind == ResultKind::Statement && self.bound ==> (r matches Ok(FetchStart::Rows(v)) && v@.len() == 0)
                &&& !(self.kind == ResultKind::Statement && self.bound) ==> match self.resource {
                    Resource::Active(Some(f)) => r matches Ok(FetchStart::Cursor(p))
                        && p.delivered == 0 && p.target == (match limit { Some(n) => n, None => usize::MAX })
                        && p.stage == (if limit == Some(0usize) { FetchStage::Done } else { FetchStage::Filling })
                        && block_fits(f.columns@, block_view(p.out@), 0),
                    Resource::Active(None) => r matches Ok(FetchStart::Fails(e)) && plain_error("fetch", "state", "No cursor"@, e),
                    _ => if self.bound {
                        r matches Ok(FetchStart::Rows(v)) && block_fits(self.columns@, block_view(v@), 0)
                    } else {
                        r matches Err(e) && plain_error("fetch", "state",
                            "Result is not fetchable; execute it first or create a new result"@, e)
                    },
                }
            },
    {
        match self.check("fetch", current_pid, connection) {
            Ok(()) => {},
            Err(e) => return Err(e),
        }
        if self.kind == ResultKind::Statement && self.bound {
            return Ok(FetchStart::Rows(Vec::new()));
        }
        match &self.resource {
            Resource::Active(Some(f)) => Ok(FetchStart::Cursor(f.begin_fetch(limit))),
            Resource::Active(None) => Ok(FetchStart::Fails(invalid("fetch", "No cursor"))),
            _ => if self.bound {
                Ok(FetchStart::Rows(empty_block(&self.columns)))
            } else {
                Err(invalid("fetch", "Result is not fetchable; execute it first or create a new result"))
            },
        }
    }

    /// Starts a completion query. An unexecuted statement is not complete;
    /// an executed one is. A query with a cursor must probe it (a refill may
    /// be needed to learn whether it is empty); otherwise completion is known.
    pub fn begin_has_completed(&self, current_pid: u32, connection: Option<&ConnectionState>) -> (r: DriverResult<CompletionStep>)
        requires
            self.wf(),
        ensures
            !(self.pid == current_pid && self.holds_resource() && usable(connection, current_pid)) ==>
                self.check_outcome("completion", current_pid, connection, match r { Ok(_) => Ok(()), Err(e) => Err(e) }),
            self.pid == current_pid && self.holds_resource() && usable(connection, current_pid) ==> {
                &&& self.kind == ResultKind::Statement ==> r == Ok::<CompletionStep, DriverError>(CompletionStep::Known(self.bound))
                &&& self.kind == ResultKind::Query ==> match self.resource {
                    Resource::Active(Some(_)) => r == Ok::<CompletionStep, DriverError>(CompletionStep::Probe),
                    Resource::Active(None) => r == Ok::<CompletionStep, DriverError>(CompletionStep::Known(true)),
                    _ => r == Ok::<CompletionStep, DriverError>(CompletionStep::Known(self.is_complete())),
                }
            },
    {
        match self.check("completion", current_pid, connection) {
            Ok(()) => {},
            Err(e) => return Err(e),
        }
        if self.kind == ResultKind::Statement {
            return Ok(CompletionStep::Known(self.bound));
        }
        match &self.resource {
            Resource::Active(Some(_)) => Ok(CompletionStep::Probe),
            Resource::Active(None) => Ok(CompletionStep::Known(true)),
            _ => Ok(CompletionStep::Known(self.complete())),
        }
    }

    /// A failure while consuming the result: it is kept, the result fails
    /// (its native resources are released) and the connection observes it.
    pub fn fail_consumption(&mut self, error: DriverError) -> (r: (DriverError, ConnectionEffect))
        ensures
            r.0 == error,
            r.1 == observed(error),
            final(self).consumption_error == Some(error),
            final(self).resource is Failed,
            final(self).wf(),
            final(self).id == old(self).id,
            final(self).pid == old(self).pid,
            final(self).kind == old(self).kind,
            final(self).bound == old(self).bound,
            final(self).columns == old(self).columns,
            final(self).delivered == old(self).delivered,
            final(self).affected == old(self).affected,
            final(self).native_attempt == old(self).native_attempt,
            final(self).leased == old(self).leased,
            *final(self) == consumption_failed(*old(self), error),
    {
        let effect = observe(&error);
        self.consumption_error = Some(error.duplicate());
        self.resource = Resource::Failed;
        (error, effect)
    }

    /// Starts clearing in process `current_pid`: the result is `Cleared`
    /// from now on, whatever the release of its native resources gives. A
    /// result already cleared, whose connection reference is gone, is left
    /// as it is.
    pub fn begin_clear(&mut self, current_pid: u32) -> (r: DriverResult<ClearStep>)
        ensures
            match clear_step_of(*old(self), current_pid) {
                None => (r matches Err(e) && plain_error("clear", "state", "Result belongs to another process"@, e))
                    && *final(self) == *old(self),
                Some(ClearStep::AlreadyCleared) => (r matches Ok(ClearStep::AlreadyCleared)) && *final(self) == *old(self),
                Some(step) => (r matches Ok(s) && s == step) && *final(self) == cleared(*old(self)),
            },
            old(self).wf() ==> final(self).wf(),
    {
        if self.pid != current_pid {
            return Err(invalid("clear", "Result belongs to another process"));
        }
        if !self.leased {
            if let Resource::Cleared = self.resource {
                return Ok(ClearStep::AlreadyCleared);
            }
        }
        let mut previous = Resource::Cleared;
        std::mem::swap(&mut previous, &mut self.resource);
        match previous {
            Resource::Active(_) => Ok(ClearStep::CloseCursor),
            _ => Ok(ClearStep::Release),
        }
    }

    /// Finishes clearing: `released` is the outcome of closing and
    /// releasing the native resources. The strong connection reference is
    /// dropped next. A release failure is marked uncertain and makes the
    /// connection uncertain.
    pub fn finish_clear(&mut self, released: DriverResult<()>) -> (r: (DriverResult<()>, ConnectionEffect))
        ensures
            *final(self) == (ResultState { leased: false, ..*old(self) }),
            match released {
                Err(e) => r.0 == Err::<(), DriverError>(DriverError { uncertain: true, ..e })
                    && r.1 == ConnectionEffect::MarkUncertain,
                Ok(_) => r.0 is Ok && r.1 == ConnectionEffect::Keep,
            },
    {
        self.leased = false;
        match released {
            Err(mut error) => {
                error.uncertain = true;
                (Err(error), ConnectionEffect::MarkUncertain)
            },
            Ok(()) => (Ok(()), ConnectionEffect::Keep),
        }
    }

    /// Counts rows handed to R after a fetch.
    pub fn record_delivery(&mut self, rows: usize) -> (r: DriverResult<()>)
        ensures
            old(self).delivered + rows <= u64::MAX ==> r is Ok && final(self).delivered == old(self).delivered + rows,
            old(self).delivered + rows > u64::MAX ==> (r matches Err(e) && plain_error("fetch", "conversion",
                "Delivered-row count overflow"@, e)) && final(self).delivered == old(self).delivered,
    {
        if rows as u128 + self.delivered as u128 > u64::MAX as u128 {
            return Err(DriverError::new("fetch", "conversion", String::from_str("Delivered-row count overflow")));
        }
        self.delivered = self.delivered + rows as u64;
        Ok(())
    }
}

} // verus!
