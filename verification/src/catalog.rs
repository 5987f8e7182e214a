//! The fixed query texts each engine is spoken to with: the liveness
//! probe, the catalog queries introspection runs, and the listing
//! queries. The shell executes them verbatim; the texts themselves are
//! owned and pinned here.

use vstd::prelude::*;

use crate::engine::DatabaseType;

verus! {

/// The cheap liveness probe issued right after connecting: `SELECT 1`
/// for the relational engines. The document engine has no query text —
/// its probe is a collection-listing call.
pub fn probe_query(t: &DatabaseType) -> (r: Option<&'static str>)
    ensures
        t.is_relational() <==> r is Some,
        r matches Some(q) ==> q@ == "SELECT 1"@,
{
    match t {
        DatabaseType::MySQL => Some("SELECT 1"),
        DatabaseType::PostgreSQL => Some("SELECT 1"),
        DatabaseType::SQLite => Some("SELECT 1"),
        DatabaseType::MongoDB => None,
    }
}

/// The query introspection enumerates tables with. MySQL reads its
/// information catalog scoped to the current database; PostgreSQL reads
/// the public schema ordered by name; SQLite reads its master catalog
/// excluding internal tables. The document engine enumerates collections
/// by a client call, not a query.
pub fn tables_query(t: &DatabaseType) -> (r: Option<&'static str>)
    ensures
        t.is_relational() <==> r is Some,
        *t == DatabaseType::MySQL ==> (r matches Some(q) && q@
            == "SELECT TABLE_NAME FROM INFORMATION_SCHEMA.TABLES WHERE TABLE_SCHEMA = DATABASE()"@),
        *t == DatabaseType::PostgreSQL ==> (r matches Some(q) && q@
            == "SELECT table_name FROM information_schema.tables WHERE table_schema = 'public' ORDER BY table_name"@),
        *t == DatabaseType::SQLite ==> (r matches Some(q) && q@
            == "SELECT name FROM sqlite_master WHERE type='table' AND name NOT LIKE 'sqlite_%'"@),
{
    match t {
        DatabaseType::MySQL => Some(
            "SELECT TABLE_NAME FROM INFORMATION_SCHEMA.TABLES WHERE TABLE_SCHEMA = DATABASE()",
        ),
        DatabaseType::PostgreSQL => Some(
            "SELECT table_name FROM information_schema.tables WHERE table_schema = 'public' ORDER BY table_name",
        ),
        DatabaseType::SQLite => Some(
            "SELECT name FROM sqlite_master WHERE type='table' AND name NOT LIKE 'sqlite_%'",
        ),
        DatabaseType::MongoDB => None,
    }
}

/// MySQL's per-table column query, with one placeholder for the table
/// name: name, declared type, the textual nullability flag and the key
/// classification, ordered by declared position.
pub fn mysql_columns_query() -> (r: &'static str)
    ensures
        r@ == "SELECT COLUMN_NAME, DATA_TYPE, IS_NULLABLE, COLUMN_KEY FROM INFORMATION_SCHEMA.COLUMNS WHERE TABLE_SCHEMA = DATABASE() AND TABLE_NAME = ? ORDER BY ORDINAL_POSITION"@,
{
    "SELECT COLUMN_NAME, DATA_TYPE, IS_NULLABLE, COLUMN_KEY FROM INFORMATION_SCHEMA.COLUMNS WHERE TABLE_SCHEMA = DATABASE() AND TABLE_NAME = ? ORDER BY ORDINAL_POSITION"
}

/// PostgreSQL's per-table column query, with one placeholder for the
/// table name: the column catalog left-joined against a derived
/// primary-key-constraint lookup, ordered by ordinal position.
pub fn postgresql_columns_query() -> (r: &'static str)
    ensures
        r@ == "SELECT column_name, data_type, is_nullable, CASE WHEN pk.column_name IS NOT NULL THEN true ELSE false END as is_primary_key FROM information_schema.columns c LEFT JOIN (SELECT ku.table_name, ku.column_name FROM information_schema.table_constraints tc JOIN information_schema.key_column_usage ku ON tc.constraint_name = ku.constraint_name AND tc.table_schema = ku.table_schema WHERE tc.constraint_type = 'PRIMARY KEY') pk ON c.table_name = pk.table_name AND c.column_name = pk.column_name WHERE c.table_name = $1 ORDER BY c.ordinal_position"@,
{
    "SELECT column_name, data_type, is_nullable, CASE WHEN pk.column_name IS NOT NULL THEN true ELSE false END as is_primary_key FROM information_schema.columns c LEFT JOIN (SELECT ku.table_name, ku.column_name FROM information_schema.table_constraints tc JOIN information_schema.key_column_usage ku ON tc.constraint_name = ku.constraint_name AND tc.table_schema = ku.table_schema WHERE tc.constraint_type = 'PRIMARY KEY') pk ON c.table_name = pk.table_name AND c.column_name = pk.column_name WHERE c.table_name = $1 ORDER BY c.ordinal_position"
}

/// SQLite's per-table column metadata query: the well-known pragma, with
/// the table name interpolated.
pub fn sqlite_columns_query(table: &str) -> (r: String)
    ensures
        r@ == "PRAGMA table_info("@ + table@ + ")"@,
{
    let mut s = String::from_str("PRAGMA table_info(");
    s.append(table);
    s.append(")");
    s
}

/// The query `list databases` runs. SQLite has no notion of multiple
/// databases (see [`sqlite_database_names`]) and the document engine
/// lists databases by a client call.
pub fn list_databases_query(t: &DatabaseType) -> (r: Option<&'static str>)
    ensures
        *t == DatabaseType::MySQL ==> (r matches Some(q) && q@ == "SHOW DATABASES"@),
        *t == DatabaseType::PostgreSQL ==> (r matches Some(q) && q@
            == "SELECT datname FROM pg_database WHERE datistemplate = false"@),
        *t == DatabaseType::SQLite ==> r is None,
        *t == DatabaseType::MongoDB ==> r is None,
{
    match t {
        DatabaseType::MySQL => Some("SHOW DATABASES"),
        DatabaseType::PostgreSQL => Some(
            "SELECT datname FROM pg_database WHERE datistemplate = false",
        ),
        DatabaseType::SQLite => None,
        DatabaseType::MongoDB => None,
    }
}

/// SQLite's fixed answer to `list databases`: the single main database.
pub fn sqlite_database_names() -> (r: Vec<String>)
    ensures
        r@.len() == 1,
        r@[0]@ == "main"@,
{
    let mut names: Vec<String> = Vec::new();
    names.push(String::from_str("main"));
    names
}

/// The query `list tables/collections` runs. The document engine lists
/// collections by a client call.
pub fn list_tables_query(t: &DatabaseType) -> (r: Option<&'static str>)
    ensures
        t.is_relational() <==> r is Some,
        *t == DatabaseType::MySQL ==> (r matches Some(q) && q@ == "SHOW TABLES"@),
        *t == DatabaseType::PostgreSQL ==> (r matches Some(q) && q@
            == "SELECT tablename FROM pg_tables WHERE schemaname = 'public'"@),
        *t == DatabaseType::SQLite ==> (r matches Some(q) && q@
            == "SELECT name FROM sqlite_master WHERE type='table'"@),
{
    match t {
        DatabaseType::MySQL => Some("SHOW TABLES"),
        DatabaseType::PostgreSQL => Some(
            "SELECT tablename FROM pg_tables WHERE schemaname = 'public'",
        ),
        DatabaseType::SQLite => Some("SELECT name FROM sqlite_master WHERE type='table'"),
        DatabaseType::MongoDB => None,
    }
}

} // verus!
