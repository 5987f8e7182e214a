use dbcore::query::QueryResult;
use dbcore::value::Attempt;
use dbcore::value::GenValue;

#[test]
fn zero_rows_is_a_success() {
    let r = QueryResult::empty();
    assert_eq!(r.columns.len(), 0);
    assert_eq!(r.rows.len(), 0);
    assert_eq!(r.row_count, 0);
}

#[test]
fn row_count_matches_rows_and_width_matches_columns() {
    let columns = vec![String::from("id"), String::from("name")];
    let cells = vec![
        vec![
            vec![Attempt::BigInt(1)],
            vec![Attempt::Missing, Attempt::Text(String::from("alice"))],
        ],
        vec![vec![Attempt::BigInt(2)], vec![Attempt::Missing, Attempt::NullValue]],
        vec![vec![Attempt::BigInt(3)], vec![Attempt::Text(String::from("carol"))]],
    ];
    let r = QueryResult::from_cells(columns, &cells);
    assert_eq!(r.row_count, 3);
    assert_eq!(r.rows.len(), 3);
    for row in &r.rows {
        assert_eq!(row.len(), r.columns.len());
    }
    assert_eq!(r.rows[0][0], GenValue::Int(1));
    assert_eq!(r.rows[0][1], GenValue::Text(String::from("alice")));
    assert_eq!(r.rows[1][1], GenValue::Null);
    assert_eq!(r.rows[2][1], GenValue::Text(String::from("carol")));
}

#[test]
fn duplicate_column_names_are_preserved_positionally() {
    let columns = vec![String::from("id"), String::from("id")];
    let cells = vec![vec![vec![Attempt::BigInt(1)], vec![Attempt::BigInt(9)]]];
    let r = QueryResult::from_cells(columns, &cells);
    assert_eq!(r.columns, vec![String::from("id"), String::from("id")]);
    assert_eq!(r.rows[0][0], GenValue::Int(1));
    assert_eq!(r.rows[0][1], GenValue::Int(9));
}

#[test]
fn mongo_summary_shape() {
    let entries = vec![(String::from("users"), 5u64), (String::from("orders"), 0u64)];
    let r = QueryResult::mongo_summary(&entries);
    assert_eq!(r.columns, vec![String::from("collection"), String::from("count")]);
    assert_eq!(r.row_count, 2);
    assert_eq!(r.rows[0][0], GenValue::Text(String::from("users")));
    assert_eq!(r.rows[0][1], GenValue::UInt(5));
    assert_eq!(r.rows[1][0], GenValue::Text(String::from("orders")));
    assert_eq!(r.rows[1][1], GenValue::UInt(0));
}

#[test]
fn mongo_summary_of_no_collections() {
    let r = QueryResult::mongo_summary(&vec![]);
    assert_eq!(r.row_count, 0);
    assert_eq!(r.rows.len(), 0);
    assert_eq!(r.columns.len(), 2);
}
