//! The four supported engine kinds.

use vstd::prelude::*;

verus! {

/// One of the four backing data stores: three relational engines and one
/// document store. Immutable, chosen at connect time.
#[derive(Clone, Copy, Debug, PartialEq, Eq, Structural)]
pub enum DatabaseType {
    MySQL,
    PostgreSQL,
    SQLite,
    MongoDB,
}

impl DatabaseType {
    /// True for the three row/column engines, false for the document store.
    pub open spec fn is_relational(self) -> bool {
        self != DatabaseType::MongoDB
    }

    /// The engine's lower-case wire name.
    pub fn as_str(&self) -> (r: &'static str)
        ensures
            *self == DatabaseType::MySQL ==> r@ == "mysql"@,
            *self == DatabaseType::PostgreSQL ==> r@ == "postgresql"@,
            *self == DatabaseType::SQLite ==> r@ == "sqlite"@,
            *self == DatabaseType::MongoDB ==> r@ == "mongodb"@,
    {
        match self {
            DatabaseType::MySQL => "mysql",
            DatabaseType::PostgreSQL => "postgresql",
            DatabaseType::SQLite => "sqlite",
            DatabaseType::MongoDB => "mongodb",
        }
    }
}

} // verus!
