//! One conversion plan for buffered and long-value fetching.
use vstd::prelude::*;
use vstd::string::*;
use crate::text::{decimal, push_decimal};

verus! {

/// The R representation chosen for a result column.
#[derive(Clone, Copy, Debug, PartialEq, Eq, Structural)]
pub enum Kind {
    Logical,
    Integer,
    Integer64,
    Double,
    Text,
    Binary,
    Date,
    Time,
    Timestamp,
    TimestampOffset,
}

/// How SQL BIGINT columns are returned to R.
#[derive(Clone, Copy, Debug, PartialEq, Eq, Structural)]
pub enum BigInt {
    Integer64,
    Integer,
    Numeric,
    Character,
}

/// Whether chrono-tz knows `name` as a time-zone name.
pub uninterp spec fn known_zone(name: Seq<char>) -> bool;

/// Asks chrono-tz whether `name` parses as a time zone (`Tz::from_str`).
/// Claims: the answer is `known_zone(name)`, and "UTC" is known (the crate
/// defines `Tz::UTC` under that name).
#[verifier::external_body]
fn zone_is_known(name: &str) -> (r: bool)
    ensures
        r == known_zone(name@),
        name@ == "UTC"@ ==> r,
{
    name.parse::<chrono_tz::Tz>().is_ok()
}

/// A time zone that chrono-tz knows, by its IANA name.
#[derive(Debug)]
pub struct Zone {
    name: String,
}

impl Zone {
    #[verifier::type_invariant]
    spec fn known(self) -> bool {
        known_zone(self.name@)
    }

    /// The zone's IANA name.
    pub closed spec fn iana(self) -> Seq<char> {
        self.name@
    }

    /// The zone's IANA name, which chrono-tz knows.
    pub fn name(&self) -> (s: &str)
        ensures
            s@ == self.iana(),
            known_zone(s@),
    {
        proof {
            use_type_invariant(self);
        }
        self.name.as_str()
    }

    /// The zone called `name`, if there is one.
    pub fn parse(name: &str) -> (z: Option<Zone>)
        ensures
            z is Some <==> known_zone(name@),
            z matches Some(zone) ==> zone.iana() == name@,
            name@ == "UTC"@ ==> z is Some,
    {
        if zone_is_known(name) {
            Some(Zone { name: String::from_str(name) })
        } else {
            None
        }
    }

    /// Coordinated Universal Time.
    pub fn utc() -> (z: Zone)
        ensures
            z.iana() == "UTC"@,
    {
        let b = zone_is_known("UTC");
        assert(b);
        Zone { name: String::from_str("UTC") }
    }

    /// A copy of this zone.
    pub fn duplicate(&self) -> (z: Zone)
        ensures
            z == *self,
    {
        proof {
            use_type_invariant(self);
        }
        Zone { name: self.name.clone() }
    }
}

impl Clone for Zone {
    fn clone(&self) -> (z: Self)
        ensures
            z == *self,
    {
        self.duplicate()
    }
}

/// Connection-wide conversion and buffering options.
#[derive(Clone, Debug)]
pub struct Options {
    pub bigint: BigInt,
    pub timezone: Zone,
    pub timezone_out: String,
    pub buffer_bytes: usize,
    pub max_rows: usize,
    pub max_field_bytes: usize,
}

impl Options {
    /// A copy of these options.
    pub fn duplicate(&self) -> (o: Options)
        ensures
            o == *self,
    {
        Options {
            bigint: self.bigint,
            timezone: self.timezone.duplicate(),
            timezone_out: self.timezone_out.clone(),
            buffer_bytes: self.buffer_bytes,
            max_rows: self.max_rows,
            max_field_bytes: self.max_field_bytes,
        }
    }
}

impl Default for Options {
    /// integer64 BIGINTs, UTC in and out, a 4 MiB buffer budget, at most 1024
    /// rows per block and 64 KiB per buffered field.
    fn default() -> (o: Self)
        ensures
            o.bigint == BigInt::Integer64,
            o.timezone.iana() == "UTC"@,
            o.timezone_out@ == "UTC"@,
            o.buffer_bytes == 4 * 1024 * 1024,
            o.max_rows == 1024,
            o.max_field_bytes == 64 * 1024,
    {
        Options {
            bigint: BigInt::Integer64,
            timezone: Zone::utc(),
            timezone_out: String::from_str("UTC"),
            buffer_bytes: 4 * 1024 * 1024,
            max_rows: 1024,
            max_field_bytes: 64 * 1024,
        }
    }
}

/// The SQL data type of a column as the driver describes it. A length of
/// `None` is unknown; a known length is positive.
#[derive(Clone, Copy, Debug, PartialEq, Eq, Structural)]
pub enum SqlType {
    Unknown,
    Char { length: Option<usize> },
    WChar { length: Option<usize> },
    Numeric { precision: usize, scale: i16 },
    Decimal { precision: usize, scale: i16 },
    Integer,
    SmallInt,
    Float { precision: usize },
    Real,
    Double,
    Varchar { length: Option<usize> },
    WVarchar { length: Option<usize> },
    LongVarchar { length: Option<usize> },
    WLongVarchar { length: Option<usize> },
    LongVarbinary { length: Option<usize> },
    Date,
    Time { precision: i16 },
    Timestamp { precision: i16 },
    BigInt,
    TinyInt,
    Bit,
    Varbinary { length: Option<usize> },
    Binary { length: Option<usize> },
    Other { data_type: i16, column_size: Option<usize>, decimal_digits: i16 },
}

/// Whether the driver says a column can hold NULL.
#[derive(Clone, Copy, Debug, PartialEq, Eq, Structural)]
pub enum Nullability {
    Unknown,
    Nullable,
    NoNulls,
}

/// A nullable native column buffer for block fetching.
#[derive(Clone, Copy, Debug, PartialEq, Eq, Structural)]
pub enum BufferPlan {
    Bit,
    I32,
    I64,
    F64,
    Date,
    Timestamp,
    /// UTF-16 text of up to `max_str_len` code units.
    WText { max_str_len: usize },
    /// Bytes, up to `max_bytes` per value.
    Binary { max_bytes: usize },
}

/// A result column and its conversion plan.
#[derive(Clone, Debug)]
pub struct Column {
    pub name: String,
    pub native_type: SqlType,
    pub nullable: Option<bool>,
    pub kind: Kind,
    pub buffer: Option<BufferPlan>,
}

impl Column {
    /// A copy of this column.
    pub fn duplicate(&self) -> (c: Column)
        ensures
            c == *self,
    {
        Column {
            name: self.name.clone(),
            native_type: self.native_type,
            nullable: self.nullable,
            kind: self.kind,
            buffer: self.buffer,
        }
    }
}

/// The SQL Server TIME2 type code.
pub const SQL_SS_TIME2: i16 = -154;
/// The SQL Server DATETIMEOFFSET type code.
pub const SQL_SS_TIMESTAMPOFFSET: i16 = -155;

/// The R representation for a column of type `t`.
pub open spec fn kind_for(t: SqlType, bigint: BigInt) -> Kind {
    match t {
        SqlType::Bit => Kind::Logical,
        SqlType::Integer | SqlType::SmallInt | SqlType::TinyInt => Kind::Integer,
        SqlType::BigInt => match bigint {
            BigInt::Integer64 => Kind::Integer64,
            BigInt::Integer => Kind::Integer,
            BigInt::Numeric => Kind::Double,
            BigInt::Character => Kind::Text,
        },
        SqlType::Numeric { .. } | SqlType::Decimal { .. } | SqlType::Float { .. } | SqlType::Real
        | SqlType::Double => Kind::Double,
        SqlType::Date => Kind::Date,
        SqlType::Time { .. } => Kind::Time,
        SqlType::Timestamp { .. } => Kind::Timestamp,
        SqlType::Binary { .. } | SqlType::Varbinary { .. } | SqlType::LongVarbinary { .. } => Kind::Binary,
        SqlType::Other { data_type, .. } => if data_type == SQL_SS_TIME2 {
            Kind::Time
        } else if data_type == SQL_SS_TIMESTAMPOFFSET {
            Kind::TimestampOffset
        } else {
            Kind::Text
        },
        _ => Kind::Text,
    }
}

/// The UTF-16 buffer for a character column of `n` characters, if its
/// worst-case byte size (two code units of two bytes per character) fits
/// within `max_field_bytes`.
pub open spec fn text_buffer_for(n: usize, max_field_bytes: usize) -> Option<BufferPlan> {
    if n * 4 <= max_field_bytes && n * 2 <= usize::MAX {
        Some(BufferPlan::WText { max_str_len: (n * 2) as usize })
    } else {
        None
    }
}

/// The native buffer for a column of type `t` read as `kind`; `None` selects
/// row-wise fetching.
pub open spec fn buffer_for(kind: Kind, t: SqlType, max_field_bytes: usize) -> Option<BufferPlan> {
    match kind {
        Kind::Logical => Some(BufferPlan::Bit),
        Kind::Integer => Some(BufferPlan::I32),
        Kind::Integer64 => Some(BufferPlan::I64),
        Kind::Double => Some(BufferPlan::F64),
        Kind::Date => Some(BufferPlan::Date),
        Kind::Timestamp => Some(BufferPlan::Timestamp),
        Kind::Time | Kind::TimestampOffset => None,
        Kind::Text => match t {
            SqlType::Char { length: Some(n) } | SqlType::Varchar { length: Some(n) }
            | SqlType::WChar { length: Some(n) } | SqlType::WVarchar { length: Some(n) } =>
                text_buffer_for(n, max_field_bytes),
            SqlType::BigInt => Some(BufferPlan::WText { max_str_len: 21 }),
            _ => None,
        },
        Kind::Binary => match t {
            SqlType::Binary { length: Some(n) } | SqlType::Varbinary { length: Some(n) } =>
                if n <= max_field_bytes { Some(BufferPlan::Binary { max_bytes: n }) } else { None },
            _ => None,
        },
    }
}

/// The name shown for column `index` (1-based): its own, or `V<index>` when empty.
pub open spec fn column_name_for(index: u16, name: Seq<char>) -> Seq<char> {
    if name.len() == 0 {
        seq!['V'] + decimal(index as nat)
    } else {
        name
    }
}

/// What the driver's nullability says.
pub open spec fn nullable_for(n: Nullability) -> Option<bool> {
    match n {
        Nullability::Nullable => Some(true),
        Nullability::NoNulls => Some(false),
        Nullability::Unknown => None,
    }
}

fn text_buffer(n: usize, max_field_bytes: usize) -> (b: Option<BufferPlan>)
    ensures
        b == text_buffer_for(n, max_field_bytes),
{
    match n.checked_mul(2) {
        Some(units) => match units.checked_mul(2) {
            Some(bytes) => if bytes <= max_field_bytes {
                Some(BufferPlan::WText { max_str_len: units })
            } else {
                None
            },
            None => None,
        },
        None => None,
    }
}

/// The conversion plan for result column `index` (1-based) that the driver
/// describes by `name`, `native_type` and `nullability`.
pub fn plan_column(index: u16, name: String, native_type: SqlType, nullability: Nullability, options: &Options) -> (c: Column)
    ensures
        c.name@ == column_name_for(index, name@),
        c.native_type == native_type,
        c.kind == kind_for(native_type, options.bigint),
        c.buffer == buffer_for(c.kind, native_type, options.max_field_bytes),
        c.nullable == nullable_for(nullability),
{
    let name = if name.as_str().unicode_len() == 0 {
        let mut v = String::from_str("V");
        proof { reveal_strlit("V"); }
        push_decimal(&mut v, index as u64);
        v
    } else {
        name
    };
    let kind = match native_type {
        SqlType::Bit => Kind::Logical,
        SqlType::Integer | SqlType::SmallInt | SqlType::TinyInt => Kind::Integer,
        SqlType::BigInt => match options.bigint {
            BigInt::Integer64 => Kind::Integer64,
            BigInt::Integer => Kind::Integer,
            BigInt::Numeric => Kind::Double,
            BigInt::Character => Kind::Text,
        },
        SqlType::Numeric { .. } | SqlType::Decimal { .. } | SqlType::Float { .. } | SqlType::Real
        | SqlType::Double => Kind::Double,
        SqlType::Date => Kind::Date,
        SqlType::Time { .. } => Kind::Time,
        SqlType::Timestamp { .. } => Kind::Timestamp,
        SqlType::Binary { .. } | SqlType::Varbinary { .. } | SqlType::LongVarbinary { .. } => Kind::Binary,
        SqlType::Other { data_type, .. } => if data_type == SQL_SS_TIME2 {
            Kind::Time
        } else if data_type == SQL_SS_TIMESTAMPOFFSET {
            Kind::TimestampOffset
        } else {
            Kind::Text
        },
        _ => Kind::Text,
    };
    // All buffers include NULL indicators even if the driver declares NOT NULL.
    let buffer = match kind {
        Kind::Logical => Some(BufferPlan::Bit),
        Kind::Integer => Some(BufferPlan::I32),
        Kind::Integer64 => Some(BufferPlan::I64),
        Kind::Double => Some(BufferPlan::F64),
        Kind::Date => Some(BufferPlan::Date),
        Kind::Timestamp => Some(BufferPlan::Timestamp),
        // Time is fetched as text to keep fractional seconds.
        Kind::Time | Kind::TimestampOffset => None,
        Kind::Text => match native_type {
            SqlType::Char { length: Some(n) } | SqlType::Varchar { length: Some(n) }
            | SqlType::WChar { length: Some(n) } | SqlType::WVarchar { length: Some(n) } =>
                text_buffer(n, options.max_field_bytes),
            SqlType::BigInt => Some(BufferPlan::WText { max_str_len: 21 }),
            _ => None,
        },
        Kind::Binary => match native_type {
            SqlType::Binary { length: Some(n) } | SqlType::Varbinary { length: Some(n) } =>
                if n <= options.max_field_bytes { Some(BufferPlan::Binary { max_bytes: n }) } else { None },
            _ => None,
        },
    };
    let nullable = match nullability {
        Nullability::Nullable => Some(true),
        Nullability::NoNulls => Some(false),
        Nullability::Unknown => None,
    };
    Column { name, native_type, nullable, kind, buffer }
}

/// The bytes of a NULL indicator (`isize`).
pub open spec fn indicator_bytes() -> nat {
    (usize::BITS / 8) as nat
}

/// The bytes one row takes in a native buffer of this plan, value and NULL
/// indicator together.
pub open spec fn row_bytes(plan: BufferPlan) -> nat {
    match plan {
        BufferPlan::Bit => 1 + indicator_bytes(),
        BufferPlan::I32 => 4 + indicator_bytes(),
        BufferPlan::I64 => 8 + indicator_bytes(),
        BufferPlan::F64 => 8 + indicator_bytes(),
        BufferPlan::Date => 6 + indicator_bytes(),
        BufferPlan::Timestamp => 16 + indicator_bytes(),
        BufferPlan::WText { max_str_len } => ((max_str_len + 1) * 2 + indicator_bytes()) as nat,
        BufferPlan::Binary { max_bytes } => (max_bytes + indicator_bytes()) as nat,
    }
}

/// The ODBC crate's description of a nullable buffer of this plan.
#[verifier::external_body]
fn buffer_desc(plan: BufferPlan) -> odbc_api::buffers::BufferDesc {
    match plan {
        BufferPlan::Bit => odbc_api::buffers::BufferDesc::Bit { nullable: true },
        BufferPlan::I32 => odbc_api::buffers::BufferDesc::I32 { nullable: true },
        BufferPlan::I64 => odbc_api::buffers::BufferDesc::I64 { nullable: true },
        BufferPlan::F64 => odbc_api::buffers::BufferDesc::F64 { nullable: true },
        BufferPlan::Date => odbc_api::buffers::BufferDesc::Date { nullable: true },
        BufferPlan::Timestamp => odbc_api::buffers::BufferDesc::Timestamp { nullable: true },
        BufferPlan::WText { max_str_len } => odbc_api::buffers::BufferDesc::WText { max_str_len },
        BufferPlan::Binary { max_bytes } => odbc_api::buffers::BufferDesc::Binary { max_bytes },
    }
}

/// The buffer description type of the ODBC crate.
#[verifier::external_type_specification]
#[verifier::external_body]
pub struct ExBufferDesc(odbc_api::buffers::BufferDesc);

/// `BufferDesc::bytes_per_row` of the ODBC crate for this plan's buffer. Its
/// source adds `size_of::<isize>()` for the NULL indicator to the value's
/// size: 1 for a bit, 4 and 8 for integers, 8 for a double, 6 for a date, 16
/// for a timestamp, `2 * (max_str_len + 1)` for UTF-16 text and `max_bytes`
/// for binary data; that is what is claimed.
#[verifier::external_body]
pub fn bytes_per_row(plan: BufferPlan) -> (n: usize)
    requires
        row_bytes(plan) <= usize::MAX,
    ensures
        n == row_bytes(plan),
{
    buffer_desc(plan).bytes_per_row()
}

/// Converted column values. Doubles are carried as their IEEE 754 bit
/// patterns.
#[derive(Clone, Debug)]
pub enum Values {
    Logical(Vec<Option<bool>>),
    Integer(Vec<Option<i32>>),
    Integer64(Vec<Option<i64>>),
    Double(Vec<Option<u64>>),
    Text(Vec<Option<String>>),
    Binary(Vec<Option<Vec<u8>>>),
}

/// The mathematical content of a column of values.
pub enum ValuesView {
    Logical(Seq<Option<bool>>),
    Integer(Seq<Option<i32>>),
    Integer64(Seq<Option<i64>>),
    Double(Seq<Option<u64>>),
    Text(Seq<Option<Seq<char>>>),
    Binary(Seq<Option<Seq<u8>>>),
}

/// The characters of an optional text.
pub open spec fn text_view(o: Option<String>) -> Option<Seq<char>> {
    match o {
        Some(s) => Some(s@),
        None => None,
    }
}

/// The bytes of an optional binary value.
pub open spec fn bytes_view(o: Option<Vec<u8>>) -> Option<Seq<u8>> {
    match o {
        Some(b) => Some(b@),
        None => None,
    }
}

impl View for Values {
    type V = ValuesView;

    open spec fn view(&self) -> ValuesView {
        match self {
            Values::Logical(v) => ValuesView::Logical(v@),
            Values::Integer(v) => ValuesView::Integer(v@),
            Values::Integer64(v) => ValuesView::Integer64(v@),
            Values::Double(v) => ValuesView::Double(v@),
            Values::Text(v) => ValuesView::Text(v@.map_values(|o: Option<String>| text_view(o))),
            Values::Binary(v) => ValuesView::Binary(v@.map_values(|o: Option<Vec<u8>>| bytes_view(o))),
        }
    }
}

impl ValuesView {
    /// The number of rows.
    pub open spec fn len(self) -> nat {
        match self {
            ValuesView::Logical(v) => v.len(),
            ValuesView::Integer(v) => v.len(),
            ValuesView::Integer64(v) => v.len(),
            ValuesView::Double(v) => v.len(),
            ValuesView::Text(v) => v.len(),
            ValuesView::Binary(v) => v.len(),
        }
    }

    /// Both hold values of the same R type.
    pub open spec fn same_type(self, other: ValuesView) -> bool {
        match (self, other) {
            (ValuesView::Logical(_), ValuesView::Logical(_)) => true,
            (ValuesView::Integer(_), ValuesView::Integer(_)) => true,
            (ValuesView::Integer64(_), ValuesView::Integer64(_)) => true,
            (ValuesView::Double(_), ValuesView::Double(_)) => true,
            (ValuesView::Text(_), ValuesView::Text(_)) => true,
            (ValuesView::Binary(_), ValuesView::Binary(_)) => true,
            _ => false,
        }
    }

    /// Rows `start .. end`.
    pub open spec fn rows(self, start: int, end: int) -> ValuesView {
        match self {
            ValuesView::Logical(v) => ValuesView::Logical(v.subrange(start, end)),
            ValuesView::Integer(v) => ValuesView::Integer(v.subrange(start, end)),
            ValuesView::Integer64(v) => ValuesView::Integer64(v.subrange(start, end)),
            ValuesView::Double(v) => ValuesView::Double(v.subrange(start, end)),
            ValuesView::Text(v) => ValuesView::Text(v.subrange(start, end)),
            ValuesView::Binary(v) => ValuesView::Binary(v.subrange(start, end)),
        }
    }

    /// These rows followed by those of `other` (of the same type).
    pub open spec fn concat(self, other: ValuesView) -> ValuesView {
        match (self, other) {
            (ValuesView::Logical(a), ValuesView::Logical(b)) => ValuesView::Logical(a + b),
            (ValuesView::Integer(a), ValuesView::Integer(b)) => ValuesView::Integer(a + b),
            (ValuesView::Integer64(a), ValuesView::Integer64(b)) => ValuesView::Integer64(a + b),
            (ValuesView::Double(a), ValuesView::Double(b)) => ValuesView::Double(a + b),
            (ValuesView::Text(a), ValuesView::Text(b)) => ValuesView::Text(a + b),
            (ValuesView::Binary(a), ValuesView::Binary(b)) => ValuesView::Binary(a + b),
            _ => self,
        }
    }

    /// The column holds values of the R type that `kind` is returned as.
    pub open spec fn holds(self, kind: Kind) -> bool {
        match kind {
            Kind::Logical => self is Logical,
            Kind::Integer => self is Integer,
            Kind::Integer64 => self is Integer64,
            Kind::Text => self is Text,
            Kind::Binary => self is Binary,
            _ => self is Double,
        }
    }
}

fn extend_copied<T: Copy>(a: &mut Vec<T>, b: &Vec<T>, start: usize, end: usize)
    requires
        start <= end <= b@.len(),
    ensures
        final(a)@ == old(a)@ + b@.subrange(start as int, end as int),
{
    let ghost a0 = a@;
    let mut i = start;
    while i < end
        invariant
            start <= i <= end <= b@.len(),
            a@ == a0 + b@.subrange(start as int, i as int),
        decreases end - i,
    {
        a.push(b[i]);
        i = i + 1;
        assert(a@ =~= a0 + b@.subrange(start as int, i as int));
    }
}

fn copy_bytes(b: &Vec<u8>) -> (c: Vec<u8>)
    ensures
        c@ == b@,
{
    let mut c: Vec<u8> = Vec::new();
    extend_copied(&mut c, b, 0, b.len());
    assert(c@ =~= b@);
    c
}

fn extend_texts(a: &mut Vec<Option<String>>, b: &Vec<Option<String>>, start: usize, end: usize)
    requires
        start <= end <= b@.len(),
    ensures
        final(a)@.map_values(|o: Option<String>| text_view(o))
            == old(a)@.map_values(|o: Option<String>| text_view(o))
                + b@.map_values(|o: Option<String>| text_view(o)).subrange(start as int, end as int),
{
    let ghost a0 = a@.map_values(|o: Option<String>| text_view(o));
    let ghost bv = b@.map_values(|o: Option<String>| text_view(o));
    let mut i = start;
    while i < end
        invariant
            start <= i <= end <= b@.len(),
            bv == b@.map_values(|o: Option<String>| text_view(o)),
            a@.map_values(|o: Option<String>| text_view(o)) == a0 + bv.subrange(start as int, i as int),
        decreases end - i,
    {
        let v = match &b[i] {
            Some(s) => Some(s.clone()),
            None => None,
        };
        let ghost before = a@;
        a.push(v);
        assert(a@ =~= before.push(v));
        assert(a@.map_values(|o: Option<String>| text_view(o)) =~= before.map_values(|o: Option<String>| text_view(o)).push(text_view(v)));
        i = i + 1;
        assert(a@.map_values(|o: Option<String>| text_view(o)) =~= a0 + bv.subrange(start as int, i as int));
    }
}

fn extend_bytes(a: &mut Vec<Option<Vec<u8>>>, b: &Vec<Option<Vec<u8>>>, start: usize, end: usize)
    requires
        start <= end <= b@.len(),
    ensures
        final(a)@.map_values(|o: Option<Vec<u8>>| bytes_view(o))
            == old(a)@.map_values(|o: Option<Vec<u8>>| bytes_view(o))
                + b@.map_values(|o: Option<Vec<u8>>| bytes_view(o)).subrange(start as int, end as int),
{
    let ghost a0 = a@.map_values(|o: Option<Vec<u8>>| bytes_view(o));
    let ghost bv = b@.map_values(|o: Option<Vec<u8>>| bytes_view(o));
    let mut i = start;
    while i < end
        invariant
            start <= i <= end <= b@.len(),
            bv == b@.map_values(|o: Option<Vec<u8>>| bytes_view(o)),
            a@.map_values(|o: Option<Vec<u8>>| bytes_view(o)) == a0 + bv.subrange(start as int, i as int),
        decreases end - i,
    {
        let v = match &b[i] {
            Some(bytes) => Some(copy_bytes(bytes)),
            None => None,
        };
        let ghost before = a@;
        a.push(v);
        assert(a@ =~= before.push(v));
        assert(a@.map_values(|o: Option<Vec<u8>>| bytes_view(o)) =~= before.map_values(|o: Option<Vec<u8>>| bytes_view(o)).push(bytes_view(v)));
        i = i + 1;
        assert(a@.map_values(|o: Option<Vec<u8>>| bytes_view(o)) =~= a0 + bv.subrange(start as int, i as int));
    }
}

impl Values {
    /// No values, of the R type that `kind` is returned as.
    pub fn empty(kind: Kind) -> (v: Self)
        ensures
            v@.len() == 0,
            v@.holds(kind),
    {
        match kind {
            Kind::Logical => Values::Logical(Vec::new()),
            Kind::Integer => Values::Integer(Vec::new()),
            Kind::Integer64 => Values::Integer64(Vec::new()),
            Kind::Text => Values::Text(Vec::new()),
            Kind::Binary => Values::Binary(Vec::new()),
            _ => Values::Double(Vec::new()),
        }
    }

    /// The number of rows.
    pub fn len(&self) -> (n: usize)
        ensures
            n == self@.len(),
    {
        match self {
            Values::Logical(v) => v.len(),
            Values::Integer(v) => v.len(),
            Values::Integer64(v) => v.len(),
            Values::Double(v) => v.len(),
            Values::Text(v) => v.len(),
            Values::Binary(v) => v.len(),
        }
    }

    /// Whether `other` holds values of the same R type.
    pub fn same_type(&self, other: &Values) -> (b: bool)
        ensures
            b == self@.same_type(other@),
    {
        match (self, other) {
            (Values::Logical(_), Values::Logical(_)) => true,
            (Values::Integer(_), Values::Integer(_)) => true,
            (Values::Integer64(_), Values::Integer64(_)) => true,
            (Values::Double(_), Values::Double(_)) => true,
            (Values::Text(_), Values::Text(_)) => true,
            (Values::Binary(_), Values::Binary(_)) => true,
            _ => false,
        }
    }

    /// Whether these values are of the R type that `kind` is returned as.
    pub fn holds(&self, kind: Kind) -> (b: bool)
        ensures
            b == self@.holds(kind),
    {
        match (kind, self) {
            (Kind::Logical, Values::Logical(_)) => true,
            (Kind::Integer, Values::Integer(_)) => true,
            (Kind::Integer64, Values::Integer64(_)) => true,
            (Kind::Text, Values::Text(_)) => true,
            (Kind::Binary, Values::Binary(_)) => true,
            (Kind::Double, Values::Double(_)) => true,
            (Kind::Date, Values::Double(_)) => true,
            (Kind::Time, Values::Double(_)) => true,
            (Kind::Timestamp, Values::Double(_)) => true,
            (Kind::TimestampOffset, Values::Double(_)) => true,
            _ => false,
        }
    }

    /// Appends rows `start .. end` of `source`, which holds the same type.
    pub fn append_range(&mut self, source: &Self, start: usize, end: usize)
        requires
            old(self)@.same_type(source@),
            start <= end <= source@.len(),
        ensures
            final(self)@ == old(self)@.concat(source@.rows(start as int, end as int)),
    {
        match (self, source) {
            (Values::Logical(a), Values::Logical(b)) => extend_copied(a, b, start, end),
            (Values::Integer(a), Values::Integer(b)) => extend_copied(a, b, start, end),
            (Values::Integer64(a), Values::Integer64(b)) => extend_copied(a, b, start, end),
            (Values::Double(a), Values::Double(b)) => extend_copied(a, b, start, end),
            (Values::Text(a), Values::Text(b)) => extend_texts(a, b, start, end),
            (Values::Binary(a), Values::Binary(b)) => extend_bytes(a, b, start, end),
            _ => {},
        }
    }
}

} // verus!
