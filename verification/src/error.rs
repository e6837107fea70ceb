//! Native diagnostics, kept separate from any observer payload.
use vstd::prelude::*;
use vstd::string::*;
use crate::text::{has_prefix, same_text, utf8_text};

verus! {

/// A diagnostic raised by the native layer.
#[derive(Debug, Clone)]
pub struct DriverError {
    pub operation: &'static str,
    pub kind: &'static str,
    pub message: String,
    pub sqlstate: Option<String>,
    pub native_code: Option<i32>,
    pub uncertain: bool,
    pub batch_size: Option<usize>,
    pub batch_processed: Option<usize>,
    pub batch_succeeded: Option<usize>,
    pub batch_outcome_uncertain: bool,
}

/// The outcome of a native operation.
pub type DriverResult<T> = core::result::Result<T, DriverError>;

/// A fresh diagnostic: the given operation, kind and message, nothing else known.
pub open spec fn plain_error(operation: &'static str, kind: &'static str, message: Seq<char>, e: DriverError) -> bool {
    &&& e.operation == operation
    &&& e.kind == kind
    &&& e.message@ == message
    &&& e.sqlstate is None
    &&& e.native_code is None
    &&& !e.uncertain
    &&& e.batch_size is None
    &&& e.batch_processed is None
    &&& e.batch_succeeded is None
    &&& !e.batch_outcome_uncertain
}

/// SQLSTATEs after which the connection's usability is unknown: the
/// connection-exception class `08`, a statement completion unknown (`40003`),
/// an invalid asynchronous state (`HY117`), and timeouts or cancellations.
pub open spec fn uncertain_state(state: Seq<char>) -> bool {
    ||| (2 <= state.len() && state[0] == '0' && state[1] == '8')
    ||| state == "40003"@
    ||| state == "HY117"@
    ||| state == "HYT00"@
    ||| state == "HYT01"@
    ||| state == "HY008"@
}

/// The diagnostic kind for a native error with the given SQLSTATE.
pub open spec fn state_kind(state: Option<Seq<char>>) -> Seq<char> {
    match state {
        Some(s) => if s == "HYT00"@ || s == "HYT01"@ {
            "timeout"@
        } else if s == "HY008"@ {
            "cancelled"@
        } else {
            "database"@
        },
        None => "database"@,
    }
}

/// `e` is the diagnostic for a native error in `operation` whose text is
/// `message` and whose diagnostic record, if any, is `record` (SQLSTATE,
/// native code): its kind and uncertainty follow from the SQLSTATE.
pub open spec fn diagnostic_error(operation: &'static str, message: String, record: Option<(String, i32)>, e: DriverError) -> bool {
    &&& e.operation == operation
    &&& e.message == message
    &&& e.sqlstate == (match record { Some(r) => Some(r.0), None => None::<String> })
    &&& e.native_code == (match record { Some(r) => Some(r.1), None => None::<i32> })
    &&& e.kind@ == state_kind(match record { Some(r) => Some(r.0@), None => None::<Seq<char>> })
    &&& e.uncertain == (match record { Some(r) => uncertain_state(r.0@), None => false })
    &&& e.batch_size is None
    &&& e.batch_processed is None
    &&& e.batch_succeeded is None
    &&& !e.batch_outcome_uncertain
}

/// The error type of the ODBC crate.
#[verifier::external_type_specification]
#[verifier::external_body]
pub struct ExOdbcError(odbc_api::Error);

/// The diagnostic record an `odbc_api::Error` carries: the five bytes of its
/// SQLSTATE and its native code.
pub uninterp spec fn diagnostic_record_of(error: odbc_api::Error) -> Option<(Seq<u8>, i32)>;

/// Reads the diagnostic record carried by an `odbc_api::Error`: the variants
/// `Diagnostics`, `InvalidRowArraySize`, `UnsupportedOdbcApiVersion`,
/// `UnableToRepresentNull` and `OracleOdbcDriverDoesNotSupport64Bit` carry one
/// (the bytes of its `State`, a `[u8; 5]`, and its native code); the others
/// carry none. Claims: the result is `diagnostic_record_of` of the error, and
/// a SQLSTATE has five bytes. The bytes are copied, never read as text here.
#[verifier::external_body]
fn diagnostic_record(error: &odbc_api::Error) -> (r: Option<(Vec<u8>, i32)>)
    ensures
        match r {
            Some(x) => diagnostic_record_of(*error) == Some((x.0@, x.1)) && x.0@.len() == 5,
            None => diagnostic_record_of(*error) is None,
        },
{
    match error {
        odbc_api::Error::Diagnostics { record, .. } => Some((record.state.0.to_vec(), record.native_error)),
        odbc_api::Error::InvalidRowArraySize { record, .. } => Some((record.state.0.to_vec(), record.native_error)),
        odbc_api::Error::UnsupportedOdbcApiVersion(record) => Some((record.state.0.to_vec(), record.native_error)),
        odbc_api::Error::UnableToRepresentNull(record) => Some((record.state.0.to_vec(), record.native_error)),
        odbc_api::Error::OracleOdbcDriverDoesNotSupport64Bit(record) => Some((record.state.0.to_vec(), record.native_error)),
        _ => None,
    }
}

/// The SQLSTATE bytes of an `odbc_api::Error::Diagnostics` error.
pub uninterp spec fn diagnostics_state_of(error: odbc_api::Error) -> Option<Seq<u8>>;

/// The bytes of the SQLSTATE of an `odbc_api::Error::Diagnostics` error, or
/// nothing for the other variants. Claims: the result is
/// `diagnostics_state_of` of the error.
#[verifier::external_body]
pub(crate) fn diagnostics_state(error: &odbc_api::Error) -> (r: Option<Vec<u8>>)
    ensures
        match r {
            Some(b) => diagnostics_state_of(*error) == Some(b@),
            None => diagnostics_state_of(*error) is None,
        },
{
    match error {
        odbc_api::Error::Diagnostics { record, .. } => Some(record.state.0.to_vec()),
        _ => None,
    }
}

/// The SQLSTATE text of a `Diagnostics` error, when its bytes are UTF-8.
pub open spec fn diagnostics_text_of(error: odbc_api::Error) -> Option<Seq<char>> {
    match diagnostics_state_of(error) {
        Some(b) => if vstd::utf8::valid_utf8(b) { Some(vstd::utf8::decode_utf8(b)) } else { None },
        None => None,
    }
}

/// The text of an `odbc_api::Error` when it is built from the error's own
/// fields; nothing for an error whose text is the operating system's.
pub uninterp spec fn native_message_of(error: odbc_api::Error) -> Option<Seq<char>>;

/// The text of an `odbc_api::Error` (its `Display` impl). Claims: when
/// `native_message_of` of the error gives a text, the result is that text,
/// and it does give one for an error that carries a diagnostic record. The
/// variants' texts are fixed sentences filled in with the error's fields
/// (the function name, a carried record's SQLSTATE, native code and
/// message, sizes and indices), except `FailedReadingInput`, which prints an
/// `io::Error` whose text may come from the operating system and its
/// locale; nothing is claimed of that one. The impl prints a carried record
/// through `State::as_str`, which unwraps a UTF-8 decoding of the SQLSTATE
/// bytes, so such a record must hold UTF-8; the record's message is decoded
/// lossily on the narrow (non-Windows) build used here.
#[verifier::external_body]
fn native_message(error: &odbc_api::Error) -> (r: String)
    requires
        diagnostic_record_of(*error) matches Some(x) ==> vstd::utf8::valid_utf8(x.0),
    ensures
        native_message_of(*error) matches Some(t) ==> r@ == t,
        diagnostic_record_of(*error) is Some ==> native_message_of(*error) == Some(r@),
{
    error.to_string()
}

/// The message of a native error whose SQLSTATE bytes are not UTF-8.
pub open spec fn undecodable_state_message() -> Seq<char> {
    "ODBC diagnostic record whose SQLSTATE is not UTF-8 text"@
}

/// `e` is the diagnostic for the ODBC error `error` raised in `operation`:
/// its SQLSTATE, native code, kind and uncertainty come from the error's
/// diagnostic record, and its message is the error's text wherever that
/// text is built from the error's own fields (an error without a record is a
/// plain database error). A record whose SQLSTATE is not UTF-8 gives a
/// database error of unknown consequence.
pub open spec fn odbc_error(operation: &'static str, error: odbc_api::Error, e: DriverError) -> bool {
    match diagnostic_record_of(error) {
        Some(x) => if vstd::utf8::valid_utf8(x.0) {
            let state = vstd::utf8::decode_utf8(x.0);
            &&& e.operation == operation
            &&& native_message_of(error) == Some(e.message@)
            &&& e.sqlstate matches Some(s) && s@ == state
            &&& e.native_code == Some(x.1)
            &&& e.kind@ == state_kind(Some(state))
            &&& e.uncertain == uncertain_state(state)
            &&& e.batch_size is None && e.batch_processed is None && e.batch_succeeded is None
            &&& !e.batch_outcome_uncertain
        } else {
            &&& e.operation == operation
            &&& e.message@ == undecodable_state_message()
            &&& e.sqlstate is None
            &&& e.native_code == Some(x.1)
            &&& e.kind@ == "database"@
            &&& e.uncertain
            &&& e.batch_size is None && e.batch_processed is None && e.batch_succeeded is None
            &&& !e.batch_outcome_uncertain
        },
        None => {
            &&& e.operation == operation
            &&& (native_message_of(error) matches Some(t) ==> e.message@ == t)
            &&& e.sqlstate is None
            &&& e.native_code is None
            &&& e.kind@ == "database"@
            &&& !e.uncertain
            &&& e.batch_size is None && e.batch_processed is None && e.batch_succeeded is None
            &&& !e.batch_outcome_uncertain
        },
    }
}

impl DriverError {
    /// A diagnostic for `operation` with the given kind and message.
    pub fn new(operation: &'static str, kind: &'static str, message: String) -> (e: Self)
        ensures
            plain_error(operation, kind, message@, e),
            e.message == message,
    {
        DriverError {
            operation,
            kind,
            message,
            sqlstate: None,
            native_code: None,
            uncertain: false,
            batch_size: None,
            batch_processed: None,
            batch_succeeded: None,
            batch_outcome_uncertain: false,
        }
    }

    /// A copy of this diagnostic, field for field.
    pub fn duplicate(&self) -> (e: Self)
        ensures
            e == *self,
    {
        let sqlstate = match &self.sqlstate {
            Some(s) => Some(s.clone()),
            None => None,
        };
        DriverError {
            operation: self.operation,
            kind: self.kind,
            message: self.message.clone(),
            sqlstate,
            native_code: self.native_code,
            uncertain: self.uncertain,
            batch_size: self.batch_size,
            batch_processed: self.batch_processed,
            batch_succeeded: self.batch_succeeded,
            batch_outcome_uncertain: self.batch_outcome_uncertain,
        }
    }

    /// The diagnostic for a native error whose text is `message` and whose
    /// diagnostic record, if it has one, holds `record` (SQLSTATE, native code).
    pub fn from_diagnostic(operation: &'static str, message: String, record: Option<(String, i32)>) -> (e: Self)
        ensures
            diagnostic_error(operation, message, record, e),
    {
        match record {
            Some((state, code)) => {
                let uncertain = is_uncertain_state(state.as_str());
                let kind = kind_of_state(state.as_str());
                DriverError {
                    operation,
                    kind,
                    message,
                    sqlstate: Some(state),
                    native_code: Some(code),
                    uncertain,
                    batch_size: None,
                    batch_processed: None,
                    batch_succeeded: None,
                    batch_outcome_uncertain: false,
                }
            },
            None => {
                DriverError {
                    operation,
                    kind: "database",
                    message,
                    sqlstate: None,
                    native_code: None,
                    uncertain: false,
                    batch_size: None,
                    batch_processed: None,
                    batch_succeeded: None,
                    batch_outcome_uncertain: false,
                }
            },
        }
    }

    /// The diagnostic for an error returned by an ODBC call in `operation`.
    pub fn odbc(operation: &'static str, error: odbc_api::Error) -> (e: Self)
        ensures
            odbc_error(operation, error, e),
    {
        match diagnostic_record(&error) {
            Some((bytes, code)) => match utf8_text(bytes.as_slice()) {
                Some(state) => {
                    let message = native_message(&error);
                    let e = Self::from_diagnostic(operation, message, Some((state, code)));
                    proof {
                        reveal_strlit("database");
                    }
                    e
                },
                None => {
                    let mut e = Self::from_diagnostic(operation,
                        String::from_str("ODBC diagnostic record whose SQLSTATE is not UTF-8 text"), None);
                    e.native_code = Some(code);
                    e.uncertain = true;
                    proof {
                        reveal_strlit("ODBC diagnostic record whose SQLSTATE is not UTF-8 text");
                    }
                    e
                },
            },
            None => {
                let message = native_message(&error);
                let e = Self::from_diagnostic(operation, message, None);
                proof {
                    reveal_strlit("database");
                }
                e
            },
        }
    }

    /// The text shown for this diagnostic: `operation: message`.
    pub fn render(&self) -> (s: String)
        ensures
            s@ == self.operation@ + ": "@ + self.message@,
    {
        let mut s = String::from_str(self.operation);
        s.append(": ");
        s.append(self.message.as_str());
        s
    }
}

/// Whether a SQLSTATE leaves the connection's usability unknown.
pub fn is_uncertain_state(state: &str) -> (r: bool)
    ensures
        r == uncertain_state(state@),
{
    proof {
        reveal_strlit("08");
    }
    let p = has_prefix(state, "08");
    proof {
        if p {
            assert(state@[0] == state@.subrange(0, 2)[0]);
            assert(state@[1] == state@.subrange(0, 2)[1]);
        } else if 2 <= state@.len() && state@[0] == '0' && state@[1] == '8' {
            assert(state@.subrange(0, 2) =~= "08"@);
        }
    }
    p || same_text(state, "40003") || same_text(state, "HY117") || same_text(state, "HYT00")
        || same_text(state, "HYT01") || same_text(state, "HY008")
}

/// The diagnostic kind for a native error with SQLSTATE `state`.
pub fn kind_of_state(state: &str) -> (k: &'static str)
    ensures
        k@ == state_kind(Some(state@)),
{
    if same_text(state, "HYT00") || same_text(state, "HYT01") {
        "timeout"
    } else if same_text(state, "HY008") {
        "cancelled"
    } else {
        "database"
    }
}

/// A diagnostic about an object's lifecycle state.
pub fn invalid(operation: &'static str, message: &str) -> (e: DriverError)
    ensures
        plain_error(operation, "state", message@, e),
{
    DriverError::new(operation, "state", String::from_str(message))
}

/// A diagnostic about converting a value between the database and R.
pub fn conversion(message: &str) -> (e: DriverError)
    ensures
        plain_error("conversion", "conversion", message@, e),
{
    DriverError::new("conversion", "conversion", String::from_str(message))
}

/// A diagnostic about a bound parameter.
pub fn parameter(message: &str) -> (e: DriverError)
    ensures
        plain_error("bind", "parameter", message@, e),
{
    DriverError::new("bind", "parameter", String::from_str(message))
}

} // verus!
