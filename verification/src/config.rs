//! Decisions of the R-facing boundary: connection options, argument checks
//! and the diagnostics it raises itself.
use vstd::prelude::*;
use vstd::string::*;
use crate::error::{plain_error, DriverError, DriverResult};
use crate::text::{has_char, same_text};
use crate::types::{known_zone, BigInt, Options, Zone};

verus! {

/// A diagnostic about a stale or foreign handle.
pub fn invalid_pointer() -> (e: DriverError)
    ensures
        plain_error("native", "state", "Invalid or stale native pointer"@, e),
{
    DriverError::new("native", "state", String::from_str("Invalid or stale native pointer"))
}

/// A diagnostic about a result used while another operation holds it.
pub fn busy() -> (e: DriverError)
    ensures
        plain_error("native", "state", "Result is already in use"@, e),
{
    DriverError::new("native", "state", String::from_str("Result is already in use"))
}

/// The BIGINT mapping called `name`.
pub open spec fn bigint_named(name: Seq<char>) -> Option<BigInt> {
    if name == "integer64"@ {
        Some(BigInt::Integer64)
    } else if name == "integer"@ {
        Some(BigInt::Integer)
    } else if name == "numeric"@ {
        Some(BigInt::Numeric)
    } else if name == "character"@ {
        Some(BigInt::Character)
    } else {
        None
    }
}

/// The BIGINT mapping called `name`.
pub fn bigint_mapping(name: &str) -> (r: DriverResult<BigInt>)
    ensures
        bigint_named(name@) matches Some(b) ==> r == Ok::<BigInt, DriverError>(b),
        bigint_named(name@) is None ==> (r matches Err(e) && plain_error("connect", "parameter", "Invalid bigint mapping"@, e)),
{
    if same_text(name, "integer64") {
        Ok(BigInt::Integer64)
    } else if same_text(name, "integer") {
        Ok(BigInt::Integer)
    } else if same_text(name, "numeric") {
        Ok(BigInt::Numeric)
    } else if same_text(name, "character") {
        Ok(BigInt::Character)
    } else {
        Err(DriverError::new("connect", "parameter", String::from_str("Invalid bigint mapping")))
    }
}

/// The "`name` must be one nonmissing string" message.
pub open spec fn string_option_message(name: Seq<char>) -> Seq<char> {
    name + " must be one nonmissing string"@
}

/// A string-valued connection option: `value` is `None` when the option was
/// not given (the default applies), `Some(None)` when it is not a single
/// nonmissing string. Strings holding NUL are rejected.
pub fn string_option(name: &str, value: Option<Option<String>>, default: &str) -> (r: DriverResult<String>)
    ensures
        value is None ==> (r matches Ok(s) && s@ == default@),
        value matches Some(v) ==> match v {
            Some(s) => if s@.contains('\0') {
                r matches Err(e) && plain_error("options", "parameter", string_option_message(name@), e)
            } else {
                r == Ok::<String, DriverError>(s)
            },
            None => r matches Err(e) && plain_error("options", "parameter", string_option_message(name@), e),
        },
{
    match value {
        None => Ok(String::from_str(default)),
        Some(v) => {
            let ok = match &v {
                Some(s) => !has_char(s.as_str(), '\0'),
                None => false,
            };
            if ok {
                match v {
                    Some(s) => Ok(s),
                    None => Err(option_error(name)),
                }
            } else {
                Err(option_error(name))
            }
        },
    }
}

fn option_error(name: &str) -> (e: DriverError)
    ensures
        plain_error("options", "parameter", string_option_message(name@), e),
{
    let mut message = String::from_str(name);
    message.append(" must be one nonmissing string");
    DriverError::new("options", "parameter", message)
}

/// The options this layer implements.
pub open spec fn supported_option(name: Seq<char>) -> bool {
    name == "bigint"@ || name == "timezone"@ || name == "timezone_out"@ || name == "timeout"@
}

/// Rejects, rather than silently ignores, options this layer does not implement.
pub fn check_option_names(names: &Vec<String>) -> (r: DriverResult<()>)
    ensures
        (forall|i: int| 0 <= i < names@.len() ==> supported_option(#[trigger] names@[i]@)) <==> r is Ok,
        r matches Err(e) ==> exists|i: int| 0 <= i < names@.len() && !supported_option(#[trigger] names@[i]@)
            && plain_error("connect", "parameter", "Unsupported native option: "@ + names@[i]@, e)
            && forall|j: int| 0 <= j < i ==> supported_option(#[trigger] names@[j]@),
{
    let mut i: usize = 0;
    while i < names.len()
        invariant
            i <= names@.len(),
            forall|j: int| 0 <= j < i ==> supported_option(#[trigger] names@[j]@),
        decreases names@.len() - i,
    {
        let name = names[i].as_str();
        if !(same_text(name, "bigint") || same_text(name, "timezone") || same_text(name, "timezone_out")
            || same_text(name, "timeout")) {
            let mut message = String::from_str("Unsupported native option: ");
            message.append(name);
            return Err(DriverError::new("connect", "parameter", message));
        }
        i = i + 1;
    }
    Ok(())
}

/// The text a string option gives (see `string_option`): the default when
/// it is absent, nothing when it is not one NUL-free string.
pub open spec fn option_text(value: Option<Option<String>>, default: Seq<char>) -> Option<Seq<char>> {
    match value {
        None => Some(default),
        Some(Some(s)) => if s@.contains('\0') { None } else { Some(s@) },
        Some(None) => None,
    }
}

/// Option values from which a connection's options can be made: each is
/// one NUL-free string or absent, the BIGINT mapping is known, both time
/// zones are known to chrono-tz, and every option given is supported.
pub open spec fn valid_connect_options(bigint: Option<Option<String>>, timezone: Option<Option<String>>,
    timezone_out: Option<Option<String>>, names: Seq<String>) -> bool {
    &&& option_text(bigint, "integer64"@) matches Some(b) && bigint_named(b) is Some
    &&& option_text(timezone, "UTC"@) matches Some(z) && known_zone(z)
    &&& option_text(timezone_out, "UTC"@) matches Some(z) && known_zone(z)
    &&& forall|i: int| 0 <= i < names.len() ==> supported_option(#[trigger] names[i]@)
}

/// `e` is the first refusal of invalid connection option values: the
/// options are checked in the order `bigint`, `timezone`, `timezone_out`
/// (each first as a string, then as a mapping or zone), then the names of
/// all options given, in order.
pub open spec fn connect_error(bigint: Option<Option<String>>, timezone: Option<Option<String>>,
    timezone_out: Option<Option<String>>, names: Seq<String>, e: DriverError) -> bool {
    match option_text(bigint, "integer64"@) {
        None => plain_error("options", "parameter", string_option_message("bigint"@), e),
        Some(b) => if bigint_named(b) is None {
            plain_error("connect", "parameter", "Invalid bigint mapping"@, e)
        } else {
            match option_text(timezone, "UTC"@) {
                None => plain_error("options", "parameter", string_option_message("timezone"@), e),
                Some(z) => if !known_zone(z) {
                    plain_error("connect", "parameter", "Unknown server timezone"@, e)
                } else {
                    match option_text(timezone_out, "UTC"@) {
                        None => plain_error("options", "parameter", string_option_message("timezone_out"@), e),
                        Some(z) => if !known_zone(z) {
                            plain_error("connect", "parameter", "Unknown output timezone"@, e)
                        } else {
                            exists|i: int| 0 <= i < names.len() && !supported_option(#[trigger] names[i]@)
                                && plain_error("connect", "parameter", "Unsupported native option: "@ + names[i]@, e)
                                && forall|j: int| 0 <= j < i ==> supported_option(#[trigger] names[j]@)
                        },
                    }
                },
            }
        },
    }
}

/// The conversion options of a new connection from the given `bigint`,
/// `timezone` and `timezone_out` option values (see `string_option`) and
/// the names of all options given.
pub fn connect_options(bigint: Option<Option<String>>, timezone: Option<Option<String>>, timezone_out: Option<Option<String>>, names: &Vec<String>) -> (r: DriverResult<Options>)
    ensures
        r matches Ok(o) ==> {
            &&& known_zone(o.timezone_out@)
            &&& bigint_named(match bigint { Some(Some(s)) => s@, _ => "integer64"@ }) == Some(o.bigint)
            &&& o.timezone.iana() == (match timezone { Some(Some(s)) => s@, _ => "UTC"@ })
            &&& o.timezone_out@ == (match timezone_out { Some(Some(s)) => s@, _ => "UTC"@ })
            &&& o.buffer_bytes == 4 * 1024 * 1024
            &&& o.max_rows == 1024
            &&& o.max_field_bytes == 64 * 1024
            &&& forall|i: int| 0 <= i < names@.len() ==> supported_option(#[trigger] names@[i]@)
        },
        r is Ok <==> valid_connect_options(bigint, timezone, timezone_out, names@),
        r matches Err(e) ==> e.kind@ == "parameter"@ && (e.operation@ == "connect"@ || e.operation@ == "options"@),
        r matches Err(e) ==> connect_error(bigint, timezone, timezone_out, names@, e),
{
    let mut options = Options::default();
    let b = match string_option("bigint", bigint, "integer64") {
        Ok(s) => s,
        Err(e) => return Err(e),
    };
    options.bigint = match bigint_mapping(b.as_str()) {
        Ok(m) => m,
        Err(e) => return Err(e),
    };
    let tz = match string_option("timezone", timezone, "UTC") {
        Ok(s) => s,
        Err(e) => return Err(e),
    };
    options.timezone = match Zone::parse(tz.as_str()) {
        Some(z) => z,
        None => return Err(DriverError::new("connect", "parameter", String::from_str("Unknown server timezone"))),
    };
    let tz_out = match string_option("timezone_out", timezone_out, "UTC") {
        Ok(s) => s,
        Err(e) => return Err(e),
    };
    match Zone::parse(tz_out.as_str()) {
        Some(_) => {},
        None => return Err(DriverError::new("connect", "parameter", String::from_str("Unknown output timezone"))),
    }
    options.timezone_out = tz_out;
    match check_option_names(names) {
        Ok(()) => {},
        Err(e) => return Err(e),
    }
    proof {
        reveal_strlit("integer64");
        reveal_strlit("integer");
    }
    Ok(options)
}

/// A connection string may not hold NUL.
pub fn check_connection_string(connection_string: &str) -> (r: DriverResult<()>)
    ensures
        connection_string@.contains('\0') ==> (r matches Err(e) && plain_error("connect", "parameter",
            "Connection string contains NUL"@, e)),
        !connection_string@.contains('\0') ==> r is Ok,
{
    if has_char(connection_string, '\0') {
        return Err(DriverError::new("connect", "parameter", String::from_str("Connection string contains NUL")));
    }
    Ok(())
}

/// SQL may not hold NUL.
pub fn check_sql(sql: &str) -> (r: DriverResult<()>)
    ensures
        sql@.contains('\0') ==> (r matches Err(e) && plain_error("prepare", "parameter", "SQL contains NUL"@, e)),
        !sql@.contains('\0') ==> r is Ok,
{
    if has_char(sql, '\0') {
        return Err(DriverError::new("prepare", "parameter", String::from_str("SQL contains NUL")));
    }
    Ok(())
}

/// The row count of a data frame handed to R, which R holds in a signed 32-bit integer.
pub fn frame_rows(rows: usize) -> (r: DriverResult<i32>)
    ensures
        rows <= i32::MAX ==> r == Ok::<i32, DriverError>(rows as i32),
        rows > i32::MAX ==> (r matches Err(e) && plain_error("fetch", "conversion",
            "Data frame exceeds supported row count"@, e)),
{
    if rows > 2147483647 {
        return Err(DriverError::new("fetch", "conversion", String::from_str("Data frame exceeds supported row count")));
    }
    Ok(rows as i32)
}

} // verus!
