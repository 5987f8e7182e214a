use dbcore::catalog::list_databases_query;
use dbcore::catalog::list_tables_query;
use dbcore::catalog::mysql_columns_query;
use dbcore::catalog::postgresql_columns_query;
use dbcore::catalog::probe_query;
use dbcore::catalog::sqlite_columns_query;
use dbcore::catalog::sqlite_database_names;
use dbcore::catalog::tables_query;
use dbcore::engine::DatabaseType;
use dbcore::text::pad2;
use dbcore::text::pad4;
use dbcore::text::remove_all;
use dbcore::text::trim;
use dbcore::text::u64_to_string;

#[test]
fn probe_is_select_one_for_relational_engines() {
    assert_eq!(probe_query(&DatabaseType::MySQL), Some("SELECT 1"));
    assert_eq!(probe_query(&DatabaseType::PostgreSQL), Some("SELECT 1"));
    assert_eq!(probe_query(&DatabaseType::SQLite), Some("SELECT 1"));
    assert_eq!(probe_query(&DatabaseType::MongoDB), None);
}

#[test]
fn table_enumeration_queries() {
    assert_eq!(
        tables_query(&DatabaseType::MySQL),
        Some("SELECT TABLE_NAME FROM INFORMATION_SCHEMA.TABLES WHERE TABLE_SCHEMA = DATABASE()")
    );
    assert_eq!(
        tables_query(&DatabaseType::SQLite),
        Some("SELECT name FROM sqlite_master WHERE type='table' AND name NOT LIKE 'sqlite_%'")
    );
    assert!(tables_query(&DatabaseType::PostgreSQL).unwrap().contains("table_schema = 'public'"));
    assert_eq!(tables_query(&DatabaseType::MongoDB), None);
}

#[test]
fn column_queries() {
    assert!(mysql_columns_query().contains("ORDER BY ORDINAL_POSITION"));
    assert!(postgresql_columns_query().contains("PRIMARY KEY"));
    assert_eq!(sqlite_columns_query("users"), "PRAGMA table_info(users)");
}

#[test]
fn listing_queries() {
    assert_eq!(list_databases_query(&DatabaseType::MySQL), Some("SHOW DATABASES"));
    assert_eq!(
        list_databases_query(&DatabaseType::PostgreSQL),
        Some("SELECT datname FROM pg_database WHERE datistemplate = false")
    );
    assert_eq!(list_databases_query(&DatabaseType::SQLite), None);
    assert_eq!(list_databases_query(&DatabaseType::MongoDB), None);
    assert_eq!(sqlite_database_names(), vec![String::from("main")]);
    assert_eq!(list_tables_query(&DatabaseType::MySQL), Some("SHOW TABLES"));
    assert_eq!(
        list_tables_query(&DatabaseType::SQLite),
        Some("SELECT name FROM sqlite_master WHERE type='table'")
    );
    assert_eq!(list_tables_query(&DatabaseType::MongoDB), None);
}

#[test]
fn decimal_rendering() {
    assert_eq!(u64_to_string(0), "0");
    assert_eq!(u64_to_string(7), "7");
    assert_eq!(u64_to_string(12345), "12345");
    assert_eq!(u64_to_string(u64::MAX), "18446744073709551615");
    assert_eq!(pad2(7), "07");
    assert_eq!(pad2(42), "42");
    assert_eq!(pad4(3), "0003");
    assert_eq!(pad4(42), "0042");
    assert_eq!(pad4(999), "0999");
    assert_eq!(pad4(2024), "2024");
}

#[test]
fn removing_and_trimming() {
    assert_eq!(remove_all("a``` b```c", "```"), "a bc");
    assert_eq!(remove_all("abc", "xyz"), "abc");
    assert_eq!(remove_all("aaaa", "aa"), "");
    assert_eq!(trim("  hello \n"), "hello");
    assert_eq!(trim("\t\n "), "");
    assert_eq!(trim("plain"), "plain");
}
