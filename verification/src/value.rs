//! The generic value model and the cascading cell coercion.
//!
//! Every engine surfaces row cells only through statically typed decode
//! accessors, and the physical column type is not reliably knowable ahead
//! of time. A cell is therefore read by a fixed, ordered sequence of typed
//! decode attempts; the shell performs the decodes and records each
//! outcome as an [`Attempt`], and [`coerce_cell`] resolves the sequence to
//! exactly one [`GenValue`] with early-return semantics. Coercion never
//! fails: when no attempt applies, the result is null.

use vstd::prelude::*;

use crate::engine::DatabaseType;
use crate::text::spec_pad2;
use crate::text::spec_pad4;
use crate::text::pad2;
use crate::text::pad4;

verus! {

/// The closed variant every returned cell is normalized to: null, a number
/// (integer or floating-point, the latter carried by its IEEE-754 bit
/// pattern), a boolean, or text. No raw-binary representation is exposed.
#[derive(Debug, Clone, PartialEq, Eq)]
pub enum GenValue {
    Null,
    Int(i64),
    UInt(u64),
    /// A finite 64-bit floating-point number, by its bit pattern.
    Float(u64),
    Bool(bool),
    Text(String),
}

/// The mathematical shadow of [`GenValue`]: the same variants over `int`
/// and `Seq<char>`.
pub enum SpecValue {
    Null,
    Int(int),
    UInt(nat),
    Float(u64),
    Bool(bool),
    Text(Seq<char>),
}

impl View for GenValue {
    type V = SpecValue;

    open spec fn view(&self) -> SpecValue {
        match self {
            GenValue::Null => SpecValue::Null,
            GenValue::Int(v) => SpecValue::Int(*v as int),
            GenValue::UInt(v) => SpecValue::UInt(*v as nat),
            GenValue::Float(b) => SpecValue::Float(*b),
            GenValue::Bool(b) => SpecValue::Bool(*b),
            GenValue::Text(s) => SpecValue::Text(s@),
        }
    }
}

/// The recorded outcome of one typed decode attempt on one cell.
///
/// `Missing` means the decode did not apply to the cell at all;
/// `NullValue` means it applied and found an explicit null. Date and time
/// outcomes carry their calendar fields; a 32-bit float outcome is widened
/// to its exact 64-bit pattern before it is recorded; a structured
/// (JSON-native) outcome is carried as its rendered text.
#[derive(Debug, Clone, PartialEq, Eq)]
pub enum Attempt {
    Missing,
    NullValue,
    BigInt(i64),
    SmallInt(i32),
    /// An unsigned integer beyond the signed 64-bit range, as a
    /// structured (JSON-native) decode can surface one.
    UnsignedInt(u64),
    /// A 64-bit float, by its IEEE-754 bit pattern.
    Double(u64),
    Boolean(bool),
    DateTime { year: u16, month: u8, day: u8, hour: u8, minute: u8, second: u8 },
    Date { year: u16, month: u8, day: u8 },
    Time { hour: u8, minute: u8, second: u8 },
    /// A timezone-aware datetime, in the driver's timezone-preserving
    /// standard textual rendering.
    ZonedDateTime(String),
    Json(String),
    Text(String),
    Blob(Vec<u8>),
}

/// A tag naming one typed decode in the cascade. The shell performs the
/// decode this tag names and records its outcome as an [`Attempt`]: an
/// `Int64` decode as `BigInt`, an `Int32` decode as `SmallInt`, either
/// float decode as `Double` (a 32-bit value widened exactly), and the
/// rest under the same name.
#[derive(Clone, Copy, Debug, PartialEq, Eq, Structural)]
pub enum AttemptKind {
    Int64,
    Int32,
    Float64,
    Float32,
    Boolean,
    ZonedDateTime,
    DateTime,
    Date,
    Time,
    Json,
    Text,
    Blob,
}

/// The decode order MySQL and SQLite cells are read with: the most
/// specific numeric types first, so integers are never misread as
/// floats; binary last.
pub open spec fn spec_common_attempt_order() -> Seq<AttemptKind> {
    seq![
        AttemptKind::Int64,
        AttemptKind::Int32,
        AttemptKind::Float64,
        AttemptKind::Float32,
        AttemptKind::Boolean,
        AttemptKind::DateTime,
        AttemptKind::Date,
        AttemptKind::Time,
        AttemptKind::Json,
        AttemptKind::Text,
        AttemptKind::Blob,
    ]
}

/// The decode order PostgreSQL cells are read with: as the common order,
/// with the timezone-aware datetime tried first among the date/time
/// family.
pub open spec fn spec_postgresql_attempt_order() -> Seq<AttemptKind> {
    seq![
        AttemptKind::Int64,
        AttemptKind::Int32,
        AttemptKind::Float64,
        AttemptKind::Float32,
        AttemptKind::Boolean,
        AttemptKind::ZonedDateTime,
        AttemptKind::DateTime,
        AttemptKind::Date,
        AttemptKind::Time,
        AttemptKind::Json,
        AttemptKind::Text,
        AttemptKind::Blob,
    ]
}

/// The fixed, ordered list of typed decodes for one engine's cells. The
/// order also encodes which declared type takes precedence when a cell
/// holds an explicit null. The document engine decodes no row cells.
pub fn attempt_order(t: &DatabaseType) -> (r: Option<Vec<AttemptKind>>)
    ensures
        t.is_relational() <==> r is Some,
        *t == DatabaseType::MySQL ==> (r matches Some(v) && v@ == spec_common_attempt_order()),
        *t == DatabaseType::SQLite ==> (r matches Some(v) && v@ == spec_common_attempt_order()),
        *t == DatabaseType::PostgreSQL ==> (r matches Some(v) && v@
            == spec_postgresql_attempt_order()),
{
    match t {
        DatabaseType::MongoDB => None,
        DatabaseType::MySQL | DatabaseType::PostgreSQL | DatabaseType::SQLite => {
            let mut order: Vec<AttemptKind> = Vec::new();
            order.push(AttemptKind::Int64);
            order.push(AttemptKind::Int32);
            order.push(AttemptKind::Float64);
            order.push(AttemptKind::Float32);
            order.push(AttemptKind::Boolean);
            if *t == DatabaseType::PostgreSQL {
                order.push(AttemptKind::ZonedDateTime);
            }
            order.push(AttemptKind::DateTime);
            order.push(AttemptKind::Date);
            order.push(AttemptKind::Time);
            order.push(AttemptKind::Json);
            order.push(AttemptKind::Text);
            order.push(AttemptKind::Blob);
            proof {
                if *t == DatabaseType::PostgreSQL {
                    assert(order@ =~= spec_postgresql_attempt_order());
                } else {
                    assert(order@ =~= spec_common_attempt_order());
                }
            }
            Some(order)
        },
    }
}

/// Whether this bit pattern encodes a finite 64-bit float: the exponent
/// field is not all ones (which would mean an infinity or a NaN).
pub open spec fn spec_double_is_finite(bits: u64) -> bool {
    (bits >> 52) & 0x7ff != 0x7ff
}

/// Checks at run time that `bits` encodes a finite 64-bit float.
pub fn double_is_finite(bits: u64) -> (r: bool)
    ensures
        r == spec_double_is_finite(bits),
{
    (bits >> 52) & 0x7ff != 0x7ff
}

/// `YYYY-MM-DD HH:MM:SS`.
pub open spec fn spec_datetime_text(
    year: nat,
    month: nat,
    day: nat,
    hour: nat,
    minute: nat,
    second: nat,
) -> Seq<char> {
    spec_date_text(year, month, day) + " "@ + spec_time_text(hour, minute, second)
}

/// `YYYY-MM-DD`.
pub open spec fn spec_date_text(year: nat, month: nat, day: nat) -> Seq<char> {
    spec_pad4(year) + "-"@ + spec_pad2(month) + "-"@ + spec_pad2(day)
}

/// `HH:MM:SS`.
pub open spec fn spec_time_text(hour: nat, minute: nat, second: nat) -> Seq<char> {
    spec_pad2(hour) + ":"@ + spec_pad2(minute) + ":"@ + spec_pad2(second)
}

/// Renders a date as `YYYY-MM-DD`.
pub fn format_date(year: u16, month: u8, day: u8) -> (r: String)
    ensures
        r@ == spec_date_text(year as nat, month as nat, day as nat),
{
    let mut s = pad4(year as u64);
    s.append("-");
    let m = pad2(month as u64);
    s.append(m.as_str());
    s.append("-");
    let d = pad2(day as u64);
    s.append(d.as_str());
    s
}

/// Renders a time of day as `HH:MM:SS`.
pub fn format_time(hour: u8, minute: u8, second: u8) -> (r: String)
    ensures
        r@ == spec_time_text(hour as nat, minute as nat, second as nat),
{
    let mut s = pad2(hour as u64);
    s.append(":");
    let m = pad2(minute as u64);
    s.append(m.as_str());
    s.append(":");
    let sec = pad2(second as u64);
    s.append(sec.as_str());
    s
}

/// Renders a datetime as `YYYY-MM-DD HH:MM:SS`.
pub fn format_datetime(year: u16, month: u8, day: u8, hour: u8, minute: u8, second: u8) -> (r:
    String)
    ensures
        r@ == spec_datetime_text(
            year as nat,
            month as nat,
            day as nat,
            hour as nat,
            minute as nat,
            second as nat,
        ),
{
    let mut s = format_date(year, month, day);
    s.append(" ");
    let t = format_time(hour, minute, second);
    s.append(t.as_str());
    s
}

/// The sentinel text standing in for binary data that is not valid UTF-8.
pub open spec fn spec_blob_sentinel() -> Seq<char> {
    "BLOB_DATA"@
}

/// What one decode attempt resolves to: a generic value, or nothing, in
/// which case the next attempt in the cascade is consulted. A float that
/// is not finite cannot be represented as a number and falls through; a
/// blob becomes its UTF-8 decoding, or the sentinel text when the bytes
/// are not valid UTF-8.
pub open spec fn spec_step(a: Attempt) -> Option<SpecValue> {
    match a {
        Attempt::Missing => None,
        Attempt::NullValue => Some(SpecValue::Null),
        Attempt::BigInt(v) => Some(SpecValue::Int(v as int)),
        Attempt::SmallInt(v) => Some(SpecValue::Int(v as int)),
        Attempt::UnsignedInt(v) => Some(SpecValue::UInt(v as nat)),
        Attempt::Double(bits) => if spec_double_is_finite(bits) {
            Some(SpecValue::Float(bits))
        } else {
            None
        },
        Attempt::Boolean(b) => Some(SpecValue::Bool(b)),
        Attempt::DateTime { year, month, day, hour, minute, second } => Some(
            SpecValue::Text(
                spec_datetime_text(
                    year as nat,
                    month as nat,
                    day as nat,
                    hour as nat,
                    minute as nat,
                    second as nat,
                ),
            ),
        ),
        Attempt::Date { year, month, day } => Some(
            SpecValue::Text(spec_date_text(year as nat, month as nat, day as nat)),
        ),
        Attempt::Time { hour, minute, second } => Some(
            SpecValue::Text(spec_time_text(hour as nat, minute as nat, second as nat)),
        ),
        Attempt::ZonedDateTime(s) => Some(SpecValue::Text(s@)),
        Attempt::Json(s) => Some(SpecValue::Text(s@)),
        Attempt::Text(s) => Some(SpecValue::Text(s@)),
        Attempt::Blob(bytes) => Some(
            SpecValue::Text(
                if vstd::utf8::valid_utf8(bytes@) {
                    vstd::utf8::decode_utf8(bytes@)
                } else {
                    spec_blob_sentinel()
                },
            ),
        ),
    }
}

/// The value a whole cascade resolves to: the first attempt that steps to
/// a value wins; when every attempt falls through, the cell is null.
pub open spec fn spec_coerce(attempts: Seq<Attempt>) -> SpecValue
    decreases attempts.len(),
{
    if attempts.len() == 0 {
        SpecValue::Null
    } else {
        match spec_step(attempts[0]) {
            Some(v) => v,
            None => spec_coerce(attempts.drop_first()),
        }
    }
}

/// Relies on `String::from_utf8`: it returns the decoded string exactly
/// when the bytes are valid UTF-8.
#[verifier::external_body]
fn utf8_string(bytes: &Vec<u8>) -> (r: Option<String>)
    ensures
        r is Some <==> vstd::utf8::valid_utf8(bytes@),
        r matches Some(s) ==> s@ == vstd::utf8::decode_utf8(bytes@),
{
    String::from_utf8(bytes.clone()).ok()
}

/// Resolves one decode attempt, in executable form.
fn step(a: &Attempt) -> (r: Option<GenValue>)
    ensures
        r is Some <==> spec_step(*a) is Some,
        r matches Some(v) ==> spec_step(*a) matches Some(sv) && v@ == sv,
{
    match a {
        Attempt::Missing => None,
        Attempt::NullValue => Some(GenValue::Null),
        Attempt::BigInt(v) => Some(GenValue::Int(*v)),
        Attempt::SmallInt(v) => Some(GenValue::Int(*v as i64)),
        Attempt::UnsignedInt(v) => Some(GenValue::UInt(*v)),
        Attempt::Double(bits) => if double_is_finite(*bits) {
            Some(GenValue::Float(*bits))
        } else {
            None
        },
        Attempt::Boolean(b) => Some(GenValue::Bool(*b)),
        Attempt::DateTime { year, month, day, hour, minute, second } => Some(
            GenValue::Text(format_datetime(*year, *month, *day, *hour, *minute, *second)),
        ),
        Attempt::Date { year, month, day } => Some(GenValue::Text(format_date(*year, *month, *day))),
        Attempt::Time { hour, minute, second } => Some(
            GenValue::Text(format_time(*hour, *minute, *second)),
        ),
        Attempt::ZonedDateTime(s) => Some(GenValue::Text(s.clone())),
        Attempt::Json(s) => Some(GenValue::Text(s.clone())),
        Attempt::Text(s) => Some(GenValue::Text(s.clone())),
        Attempt::Blob(bytes) => match utf8_string(bytes) {
            Some(s) => Some(GenValue::Text(s)),
            None => Some(GenValue::Text(String::from_str("BLOB_DATA"))),
        },
    }
}

/// Resolves a whole cascade of decode attempts to exactly one generic
/// value. The first attempt that yields a value wins; an explicit null
/// short-circuits the rest; when nothing applies, the result is null.
pub fn coerce_cell(attempts: &Vec<Attempt>) -> (r: GenValue)
    ensures
        r@ == spec_coerce(attempts@),
{
    let n = attempts.len();
    let mut i: usize = 0;
    proof {
        assert(attempts@.skip(0) =~= attempts@);
    }
    while i < n
        invariant
            n == attempts@.len(),
            i <= n,
            spec_coerce(attempts@) == spec_coerce(attempts@.skip(i as int)),
        decreases n - i,
    {
        let outcome = step(&attempts[i]);
        proof {
            assert(attempts@.skip(i as int)[0] == attempts@[i as int]);
            assert(attempts@.skip(i as int).drop_first() =~= attempts@.skip(i as int + 1));
        }
        match outcome {
            Some(v) => {
                return v;
            },
            None => {
                i = i + 1;
            },
        }
    }
    proof {
        assert(attempts@.skip(i as int).len() == 0);
    }
    GenValue::Null
}

/// An integer cell round-trips: when the widest integer decode succeeds
/// on a cell, the cascade returns exactly that integer, whatever follows.
pub proof fn lemma_integer_round_trip(v: i64, rest: Seq<Attempt>)
    ensures
        spec_coerce(seq![Attempt::BigInt(v)] + rest) == SpecValue::Int(v as int),
{
    assert((seq![Attempt::BigInt(v)] + rest)[0] == Attempt::BigInt(v));
}

/// A null cell is null whatever the declared column type: however many
/// decodes fall through before one applies and reports an explicit null,
/// the cascade returns null.
pub proof fn lemma_null_regardless_of_type(attempts: Seq<Attempt>, k: int)
    requires
        0 <= k < attempts.len(),
        forall|j: int| 0 <= j < k ==> attempts[j] is Missing,
        attempts[k] is NullValue,
    ensures
        spec_coerce(attempts) == SpecValue::Null,
    decreases k,
{
    if k == 0 {
        assert(spec_step(attempts[0]) == Some(SpecValue::Null));
    } else {
        assert(spec_step(attempts[0]) is None);
        lemma_null_regardless_of_type(attempts.drop_first(), k - 1);
    }
}

/// Binary data that is not valid UTF-8 coerces to the sentinel text, never
/// to an error: however many decodes fall through before the blob decode
/// applies, the cascade returns the sentinel.
pub proof fn lemma_blob_sentinel(attempts: Seq<Attempt>, k: int, bytes: Vec<u8>)
    requires
        0 <= k < attempts.len(),
        forall|j: int| 0 <= j < k ==> attempts[j] is Missing,
        attempts[k] == Attempt::Blob(bytes),
        !vstd::utf8::valid_utf8(bytes@),
    ensures
        spec_coerce(attempts) == SpecValue::Text(spec_blob_sentinel()),
    decreases k,
{
    if k == 0 {
        assert(spec_step(attempts[0]) == Some(SpecValue::Text(spec_blob_sentinel())));
    } else {
        assert(spec_step(attempts[0]) is None);
        lemma_blob_sentinel(attempts.drop_first(), k - 1, bytes);
    }
}

/// When no decode applies at all, the final fallback is null.
pub proof fn lemma_all_missing_is_null(attempts: Seq<Attempt>)
    requires
        forall|j: int| 0 <= j < attempts.len() ==> attempts[j] is Missing,
    ensures
        spec_coerce(attempts) == SpecValue::Null,
    decreases attempts.len(),
{
    if attempts.len() > 0 {
        assert(spec_step(attempts[0]) is None);
        lemma_all_missing_is_null(attempts.drop_first());
    }
}

} // verus!
