use dbcore::schema::ColumnInfo;
use dbcore::schema::DatabaseSchema;
use dbcore::schema::FieldKind;
use dbcore::schema::MySqlColumnRow;
use dbcore::schema::PgColumnRow;
use dbcore::schema::SqliteColumnRow;
use dbcore::schema::TableInfo;

#[test]
fn mysql_primary_key_detection() {
    let pk_row = MySqlColumnRow {
        column_name: String::from("id"),
        data_type: String::from("int"),
        is_nullable: String::from("NO"),
        column_key: String::from("PRI"),
    };
    let plain_row = MySqlColumnRow {
        column_name: String::from("name"),
        data_type: String::from("varchar"),
        is_nullable: String::from("YES"),
        column_key: String::from(""),
    };
    let pk = ColumnInfo::from_mysql(&pk_row);
    assert!(pk.is_primary_key);
    assert!(!pk.is_nullable);
    assert_eq!(pk.name, "id");
    assert_eq!(pk.data_type, "int");
    let plain = ColumnInfo::from_mysql(&plain_row);
    assert!(!plain.is_primary_key);
    assert!(plain.is_nullable);
}

#[test]
fn postgresql_primary_key_detection() {
    let pk = ColumnInfo::from_postgresql(&PgColumnRow {
        column_name: String::from("id"),
        data_type: String::from("integer"),
        is_nullable: String::from("NO"),
        is_primary_key: true,
    });
    assert!(pk.is_primary_key);
    assert!(!pk.is_nullable);
    let plain = ColumnInfo::from_postgresql(&PgColumnRow {
        column_name: String::from("note"),
        data_type: String::from("text"),
        is_nullable: String::from("YES"),
        is_primary_key: false,
    });
    assert!(!plain.is_primary_key);
    assert!(plain.is_nullable);
}

#[test]
fn sqlite_primary_key_detection() {
    let pk = ColumnInfo::from_sqlite(&SqliteColumnRow {
        cid: 0,
        name: String::from("id"),
        data_type: String::from("INTEGER"),
        not_null: 1,
        pk: 1,
    });
    assert!(pk.is_primary_key);
    assert!(!pk.is_nullable);
    let plain = ColumnInfo::from_sqlite(&SqliteColumnRow {
        cid: 1,
        name: String::from("name"),
        data_type: String::from("TEXT"),
        not_null: 0,
        pk: 0,
    });
    assert!(!plain.is_primary_key);
    assert!(plain.is_nullable);
}

#[test]
fn mongo_sample_document_inference() {
    let fields = vec![
        (String::from("_id"), FieldKind::ObjectId),
        (String::from("name"), FieldKind::Text),
        (String::from("age"), FieldKind::Int32),
    ];
    let table = TableInfo::from_mongo_fields(String::from("users"), fields);
    assert_eq!(table.name, "users");
    assert_eq!(table.columns.len(), 3);
    assert_eq!(table.columns[0].name, "_id");
    assert!(table.columns[0].is_primary_key);
    assert_eq!(table.columns[0].data_type, "ObjectId");
    assert_eq!(table.columns[1].name, "name");
    assert!(!table.columns[1].is_primary_key);
    assert_eq!(table.columns[1].data_type, "String");
    assert_eq!(table.columns[2].name, "age");
    assert!(!table.columns[2].is_primary_key);
    assert_eq!(table.columns[2].data_type, "Int32");
    assert!(table.columns.iter().all(|c| c.is_nullable));
}

#[test]
fn mongo_empty_collection_yields_no_columns() {
    let table = TableInfo::from_mongo_fields(String::from("empty"), vec![]);
    assert_eq!(table.columns.len(), 0);
}

#[test]
fn field_kind_labels() {
    assert_eq!(FieldKind::Text.label(), "String");
    assert_eq!(FieldKind::Int64.label(), "Int64");
    assert_eq!(FieldKind::Double.label(), "Double");
    assert_eq!(FieldKind::Boolean.label(), "Boolean");
    assert_eq!(FieldKind::DateTime.label(), "DateTime");
    assert_eq!(FieldKind::Array.label(), "Array");
    assert_eq!(FieldKind::Document.label(), "Document");
    assert_eq!(FieldKind::Unknown.label(), "Unknown");
}

#[test]
fn zero_tables_is_an_empty_schema() {
    let schema = DatabaseSchema::from_tables(vec![]);
    assert_eq!(schema.tables.len(), 0);
}

#[test]
fn table_builders_keep_catalog_order() {
    let rows = vec![
        MySqlColumnRow {
            column_name: String::from("b"),
            data_type: String::from("int"),
            is_nullable: String::from("YES"),
            column_key: String::from(""),
        },
        MySqlColumnRow {
            column_name: String::from("a"),
            data_type: String::from("int"),
            is_nullable: String::from("YES"),
            column_key: String::from(""),
        },
    ];
    let table = TableInfo::from_mysql_rows(String::from("t"), &rows);
    assert_eq!(table.columns[0].name, "b");
    assert_eq!(table.columns[1].name, "a");
}

#[test]
fn table_with_no_columns() {
    let table = TableInfo::from_sqlite_rows(String::from("bare"), &vec![]);
    assert_eq!(table.name, "bare");
    assert_eq!(table.columns.len(), 0);
}
