use dbcore::engine::DatabaseType;
use dbcore::value::Attempt;
use dbcore::value::AttemptKind;
use dbcore::value::GenValue;
use dbcore::value::attempt_order;
use dbcore::value::coerce_cell;
use dbcore::value::double_is_finite;
use dbcore::value::format_date;
use dbcore::value::format_datetime;
use dbcore::value::format_time;

#[test]
fn integer_cell_round_trips() {
    let attempts = vec![Attempt::BigInt(42)];
    assert_eq!(coerce_cell(&attempts), GenValue::Int(42));
    let attempts = vec![Attempt::BigInt(-7), Attempt::Text(String::from("later"))];
    assert_eq!(coerce_cell(&attempts), GenValue::Int(-7));
}

#[test]
fn narrow_integer_widens() {
    let attempts = vec![Attempt::Missing, Attempt::SmallInt(-5)];
    assert_eq!(coerce_cell(&attempts), GenValue::Int(-5));
}

#[test]
fn null_short_circuits_regardless_of_type() {
    let attempts = vec![
        Attempt::Missing,
        Attempt::NullValue,
        Attempt::Text(String::from("never reached")),
    ];
    assert_eq!(coerce_cell(&attempts), GenValue::Null);
}

#[test]
fn empty_cascade_is_null() {
    let attempts: Vec<Attempt> = vec![];
    assert_eq!(coerce_cell(&attempts), GenValue::Null);
}

#[test]
fn all_missing_is_null() {
    let attempts = vec![Attempt::Missing, Attempt::Missing, Attempt::Missing];
    assert_eq!(coerce_cell(&attempts), GenValue::Null);
}

#[test]
fn finite_float_is_kept() {
    let bits = (1.5f64).to_bits();
    assert!(double_is_finite(bits));
    let attempts = vec![Attempt::Double(bits)];
    assert_eq!(coerce_cell(&attempts), GenValue::Float(bits));
}

#[test]
fn non_finite_float_falls_through() {
    let nan = f64::NAN.to_bits();
    let inf = f64::INFINITY.to_bits();
    assert!(!double_is_finite(nan));
    assert!(!double_is_finite(inf));
    let attempts = vec![Attempt::Double(nan), Attempt::Text(String::from("fallback"))];
    assert_eq!(coerce_cell(&attempts), GenValue::Text(String::from("fallback")));
    let attempts = vec![Attempt::Double(inf)];
    assert_eq!(coerce_cell(&attempts), GenValue::Null);
}

#[test]
fn boolean_cell() {
    let attempts = vec![Attempt::Missing, Attempt::Boolean(true)];
    assert_eq!(coerce_cell(&attempts), GenValue::Bool(true));
}

#[test]
fn datetime_renders_fixed_format() {
    assert_eq!(format_datetime(2024, 3, 7, 9, 5, 30), "2024-03-07 09:05:30");
    assert_eq!(format_date(1999, 12, 31), "1999-12-31");
    assert_eq!(format_time(0, 0, 0), "00:00:00");
    let attempts = vec![Attempt::DateTime {
        year: 2024,
        month: 3,
        day: 7,
        hour: 9,
        minute: 5,
        second: 30,
    }];
    assert_eq!(
        coerce_cell(&attempts),
        GenValue::Text(String::from("2024-03-07 09:05:30"))
    );
}

#[test]
fn date_and_time_cells() {
    let attempts = vec![Attempt::Date { year: 2020, month: 1, day: 2 }];
    assert_eq!(coerce_cell(&attempts), GenValue::Text(String::from("2020-01-02")));
    let attempts = vec![Attempt::Time { hour: 23, minute: 59, second: 1 }];
    assert_eq!(coerce_cell(&attempts), GenValue::Text(String::from("23:59:01")));
}

#[test]
fn zoned_datetime_passes_through() {
    let attempts = vec![Attempt::ZonedDateTime(String::from("2024-03-07T09:05:30+00:00"))];
    assert_eq!(
        coerce_cell(&attempts),
        GenValue::Text(String::from("2024-03-07T09:05:30+00:00"))
    );
}

#[test]
fn utf8_blob_decodes_to_text() {
    let attempts = vec![Attempt::Blob(b"hello".to_vec())];
    assert_eq!(coerce_cell(&attempts), GenValue::Text(String::from("hello")));
}

#[test]
fn non_utf8_blob_becomes_sentinel() {
    let attempts = vec![Attempt::Missing, Attempt::Blob(vec![0xff, 0xfe, 0x00])];
    assert_eq!(coerce_cell(&attempts), GenValue::Text(String::from("BLOB_DATA")));
}

#[test]
fn json_cell_carries_rendered_text() {
    let attempts = vec![Attempt::Json(String::from("{\"a\":1}"))];
    assert_eq!(coerce_cell(&attempts), GenValue::Text(String::from("{\"a\":1}")));
}

#[test]
fn first_applicable_attempt_wins() {
    let attempts = vec![
        Attempt::Missing,
        Attempt::BigInt(10),
        Attempt::Text(String::from("shadowed")),
    ];
    assert_eq!(coerce_cell(&attempts), GenValue::Int(10));
}

#[test]
fn unsigned_integer_beyond_signed_range() {
    let big = i64::MAX as u64 + 1;
    let attempts = vec![Attempt::Missing, Attempt::UnsignedInt(big)];
    assert_eq!(coerce_cell(&attempts), GenValue::UInt(big));
}

#[test]
fn decode_order_is_pinned_per_engine() {
    let common = vec![
        AttemptKind::Int64,
        AttemptKind::Int32,
        AttemptKind::Float64,
        AttemptKind::Float32,
        AttemptKind::Boolean,
        AttemptKind::DateTime,
        AttemptKind::Date,
        AttemptKind::Time,
        AttemptKind::Json,
        AttemptKind::Text,
        AttemptKind::Blob,
    ];
    assert_eq!(attempt_order(&DatabaseType::MySQL).unwrap(), common);
    assert_eq!(attempt_order(&DatabaseType::SQLite).unwrap(), common);
    let pg = attempt_order(&DatabaseType::PostgreSQL).unwrap();
    assert_eq!(pg.len(), 12);
    assert_eq!(pg[5], AttemptKind::ZonedDateTime);
    assert_eq!(pg[6], AttemptKind::DateTime);
    assert_eq!(&pg[..5], &common[..5]);
    assert_eq!(&pg[6..], &common[5..]);
    assert!(attempt_order(&DatabaseType::MongoDB).is_none());
}
