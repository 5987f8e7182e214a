//! Schema introspection: normalizing each engine's catalog metadata into
//! one table/column model.
//!
//! The shell runs the catalog queries of [`crate::catalog`] and hands the
//! fetched rows to the builders here, which normalize primary-key and
//! nullability semantics engine by engine.

use vstd::prelude::*;

verus! {

/// One column of a table: the name, the engine-native type label (not
/// normalized further), and the normalized nullability and primary-key
/// flags.
#[derive(Debug, Clone, PartialEq, Eq)]
pub struct ColumnInfo {
    pub name: String,
    pub data_type: String,
    pub is_nullable: bool,
    pub is_primary_key: bool,
}

/// The mathematical shadow of [`ColumnInfo`].
pub struct SpecColumn {
    pub name: Seq<char>,
    pub data_type: Seq<char>,
    pub is_nullable: bool,
    pub is_primary_key: bool,
}

impl View for ColumnInfo {
    type V = SpecColumn;

    open spec fn view(&self) -> SpecColumn {
        SpecColumn {
            name: self.name@,
            data_type: self.data_type@,
            is_nullable: self.is_nullable,
            is_primary_key: self.is_primary_key,
        }
    }
}

/// One table (or collection) and its columns, in catalog order.
#[derive(Debug, Clone, PartialEq, Eq)]
pub struct TableInfo {
    pub name: String,
    pub columns: Vec<ColumnInfo>,
}

/// The mathematical shadow of [`TableInfo`].
pub struct SpecTable {
    pub name: Seq<char>,
    pub columns: Seq<SpecColumn>,
}

impl View for TableInfo {
    type V = SpecTable;

    open spec fn view(&self) -> SpecTable {
        SpecTable { name: self.name@, columns: self.columns@.map_values(|c: ColumnInfo| c@) }
    }
}

/// A database's tables, in the order the engine's catalog yields them.
/// Produced fresh on every introspection, never cached.
#[derive(Debug, Clone, PartialEq, Eq)]
pub struct DatabaseSchema {
    pub tables: Vec<TableInfo>,
}

impl View for DatabaseSchema {
    type V = Seq<SpecTable>;

    open spec fn view(&self) -> Seq<SpecTable> {
        self.tables@.map_values(|t: TableInfo| t@)
    }
}

/// One row of MySQL's column catalog, scoped to a table and ordered by
/// declared position.
#[derive(Debug, Clone, PartialEq, Eq)]
pub struct MySqlColumnRow {
    pub column_name: String,
    pub data_type: String,
    /// The catalog's textual yes/no flag.
    pub is_nullable: String,
    /// The catalog's key classification; `PRI` marks a primary-key column.
    pub column_key: String,
}

/// One row of PostgreSQL's column catalog joined against the derived
/// primary-key-constraint lookup, ordered by ordinal position.
#[derive(Debug, Clone, PartialEq, Eq)]
pub struct PgColumnRow {
    pub column_name: String,
    pub data_type: String,
    /// The catalog's textual yes/no flag.
    pub is_nullable: String,
    /// Whether the primary-key-constraint lookup matched this column.
    pub is_primary_key: bool,
}

/// One row of SQLite's per-table column metadata.
#[derive(Debug, Clone, PartialEq, Eq)]
pub struct SqliteColumnRow {
    pub cid: i32,
    pub name: String,
    pub data_type: String,
    /// Non-zero when the column is declared NOT NULL.
    pub not_null: i32,
    /// One when the column is the primary key.
    pub pk: i32,
}

/// The fixed label set a sampled document field's dynamic value kind is
/// mapped to.
#[derive(Clone, Copy, Debug, PartialEq, Eq, Structural)]
pub enum FieldKind {
    Text,
    Int32,
    Int64,
    Double,
    Boolean,
    DateTime,
    ObjectId,
    Array,
    Document,
    Unknown,
}

impl FieldKind {
    /// The label `label` returns, kind by kind.
    pub open spec fn spec_label(self) -> Seq<char> {
        match self {
            FieldKind::Text => "String"@,
            FieldKind::Int32 => "Int32"@,
            FieldKind::Int64 => "Int64"@,
            FieldKind::Double => "Double"@,
            FieldKind::Boolean => "Boolean"@,
            FieldKind::DateTime => "DateTime"@,
            FieldKind::ObjectId => "ObjectId"@,
            FieldKind::Array => "Array"@,
            FieldKind::Document => "Document"@,
            FieldKind::Unknown => "Unknown"@,
        }
    }

    /// The fixed type label for this kind.
    pub fn label(&self) -> (r: &'static str)
        ensures
            r@ == self.spec_label(),
    {
        match self {
            FieldKind::Text => "String",
            FieldKind::Int32 => "Int32",
            FieldKind::Int64 => "Int64",
            FieldKind::Double => "Double",
            FieldKind::Boolean => "Boolean",
            FieldKind::DateTime => "DateTime",
            FieldKind::ObjectId => "ObjectId",
            FieldKind::Array => "Array",
            FieldKind::Document => "Document",
            FieldKind::Unknown => "Unknown",
        }
    }
}

/// The column MySQL's catalog row normalizes to: nullable exactly when the
/// textual flag is `YES`, primary key exactly when the key classification
/// is `PRI`.
pub open spec fn spec_mysql_column(r: MySqlColumnRow) -> SpecColumn {
    SpecColumn {
        name: r.column_name@,
        data_type: r.data_type@,
        is_nullable: r.is_nullable@ == "YES"@,
        is_primary_key: r.column_key@ == "PRI"@,
    }
}

/// The column PostgreSQL's catalog row normalizes to: nullable exactly
/// when the textual flag is `YES`; the primary-key flag is taken as the
/// constraint lookup computed it.
pub open spec fn spec_postgresql_column(r: PgColumnRow) -> SpecColumn {
    SpecColumn {
        name: r.column_name@,
        data_type: r.data_type@,
        is_nullable: r.is_nullable@ == "YES"@,
        is_primary_key: r.is_primary_key,
    }
}

/// The column SQLite's metadata row normalizes to: nullable exactly when
/// the NOT NULL flag is zero, primary key exactly when the pk flag is one.
pub open spec fn spec_sqlite_column(r: SqliteColumnRow) -> SpecColumn {
    SpecColumn {
        name: r.name@,
        data_type: r.data_type@,
        is_nullable: r.not_null == 0,
        is_primary_key: r.pk == 1,
    }
}

/// The column a sampled document field infers: the field named `_id` is
/// the primary key, and every field is nullable, since the schema is
/// inferred from a single sample document and may be incomplete.
pub open spec fn spec_mongo_column(name: Seq<char>, kind: FieldKind) -> SpecColumn {
    SpecColumn {
        name: name,
        data_type: kind.spec_label(),
        is_nullable: true,
        is_primary_key: name == "_id"@,
    }
}

impl ColumnInfo {
    /// Normalizes one MySQL catalog row.
    pub fn from_mysql(r: &MySqlColumnRow) -> (c: ColumnInfo)
        ensures
            c@ == spec_mysql_column(*r),
    {
        ColumnInfo {
            name: r.column_name.clone(),
            data_type: r.data_type.clone(),
            is_nullable: r.is_nullable == String::from_str("YES"),
            is_primary_key: r.column_key == String::from_str("PRI"),
        }
    }

    /// Normalizes one PostgreSQL catalog row.
    pub fn from_postgresql(r: &PgColumnRow) -> (c: ColumnInfo)
        ensures
            c@ == spec_postgresql_column(*r),
    {
        ColumnInfo {
            name: r.column_name.clone(),
            data_type: r.data_type.clone(),
            is_nullable: r.is_nullable == String::from_str("YES"),
            is_primary_key: r.is_primary_key,
        }
    }

    /// Normalizes one SQLite metadata row.
    pub fn from_sqlite(r: &SqliteColumnRow) -> (c: ColumnInfo)
        ensures
            c@ == spec_sqlite_column(*r),
    {
        ColumnInfo {
            name: r.name.clone(),
            data_type: r.data_type.clone(),
            is_nullable: r.not_null == 0,
            is_primary_key: r.pk == 1,
        }
    }

    /// Infers one column from a sampled document field.
    pub fn from_mongo(name: String, kind: FieldKind) -> (c: ColumnInfo)
        ensures
            c@ == spec_mongo_column(name@, kind),
    {
        let is_primary_key = name == String::from_str("_id");
        ColumnInfo {
            name,
            data_type: String::from_str(kind.label()),
            is_nullable: true,
            is_primary_key,
        }
    }
}

impl TableInfo {
    /// Normalizes a fetched MySQL table: one column per catalog row, in
    /// catalog order.
    pub fn from_mysql_rows(name: String, rows: &Vec<MySqlColumnRow>) -> (t: TableInfo)
        ensures
            t@.name == name@,
            t@.columns == rows@.map_values(|r: MySqlColumnRow| spec_mysql_column(r)),
    {
        let mut columns: Vec<ColumnInfo> = Vec::new();
        let n = rows.len();
        let mut i: usize = 0;
        while i < n
            invariant
                n == rows@.len(),
                i <= n,
                columns@.len() == i,
                forall|j: int| 0 <= j < i ==> columns@[j]@ == spec_mysql_column(rows@[j]),
            decreases n - i,
        {
            columns.push(ColumnInfo::from_mysql(&rows[i]));
            i = i + 1;
        }
        let t = TableInfo { name, columns };
        proof {
            assert(t@.columns =~= rows@.map_values(|r: MySqlColumnRow| spec_mysql_column(r)));
        }
        t
    }

    /// Normalizes a fetched PostgreSQL table: one column per catalog row,
    /// in ordinal order.
    pub fn from_postgresql_rows(name: String, rows: &Vec<PgColumnRow>) -> (t: TableInfo)
        ensures
            t@.name == name@,
            t@.columns == rows@.map_values(|r: PgColumnRow| spec_postgresql_column(r)),
    {
        let mut columns: Vec<ColumnInfo> = Vec::new();
        let n = rows.len();
        let mut i: usize = 0;
        while i < n
            invariant
                n == rows@.len(),
                i <= n,
                columns@.len() == i,
                forall|j: int| 0 <= j < i ==> columns@[j]@ == spec_postgresql_column(rows@[j]),
            decreases n - i,
        {
            columns.push(ColumnInfo::from_postgresql(&rows[i]));
            i = i + 1;
        }
        let t = TableInfo { name, columns };
        proof {
            assert(t@.columns =~= rows@.map_values(|r: PgColumnRow| spec_postgresql_column(r)));
        }
        t
    }

    /// Normalizes a fetched SQLite table: one column per metadata row.
    pub fn from_sqlite_rows(name: String, rows: &Vec<SqliteColumnRow>) -> (t: TableInfo)
        ensures
            t@.name == name@,
            t@.columns == rows@.map_values(|r: SqliteColumnRow| spec_sqlite_column(r)),
    {
        let mut columns: Vec<ColumnInfo> = Vec::new();
        let n = rows.len();
        let mut i: usize = 0;
        while i < n
            invariant
                n == rows@.len(),
                i <= n,
                columns@.len() == i,
                forall|j: int| 0 <= j < i ==> columns@[j]@ == spec_sqlite_column(rows@[j]),
            decreases n - i,
        {
            columns.push(ColumnInfo::from_sqlite(&rows[i]));
            i = i + 1;
        }
        let t = TableInfo { name, columns };
        proof {
            assert(t@.columns =~= rows@.map_values(|r: SqliteColumnRow| spec_sqlite_column(r)));
        }
        t
    }

    /// Infers a collection's columns from the top-level fields of one
    /// sampled document, in the order the sample yields them. A collection
    /// with zero documents yields zero columns; the `_id` field is always
    /// the primary key and every field is nullable.
    pub fn from_mongo_fields(name: String, fields: Vec<(String, FieldKind)>) -> (t: TableInfo)
        ensures
            t@.name == name@,
            t@.columns == fields@.map_values(
                |f: (String, FieldKind)| spec_mongo_column(f.0@, f.1),
            ),
    {
        let mut columns: Vec<ColumnInfo> = Vec::new();
        let n = fields.len();
        let mut i: usize = 0;
        while i < n
            invariant
                n == fields@.len(),
                i <= n,
                columns@.len() == i,
                forall|j: int| 0 <= j < i ==> columns@[j]@ == spec_mongo_column(
                    fields@[j].0@,
                    fields@[j].1,
                ),
            decreases n - i,
        {
            let (field_name, kind) = &fields[i];
            columns.push(ColumnInfo::from_mongo(field_name.clone(), *kind));
            i = i + 1;
        }
        let t = TableInfo { name, columns };
        proof {
            assert(t@.columns =~= fields@.map_values(
                |f: (String, FieldKind)| spec_mongo_column(f.0@, f.1),
            ));
        }
        t
    }
}

impl DatabaseSchema {
    /// Wraps already-normalized tables, in the given order. A database
    /// with zero tables yields an empty schema, not an error.
    pub fn from_tables(tables: Vec<TableInfo>) -> (s: DatabaseSchema)
        ensures
            s@ == tables@.map_values(|t: TableInfo| t@),
    {
        DatabaseSchema { tables }
    }
}

} // verus!
