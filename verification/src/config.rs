//! Connection configuration and connection-string construction.

use vstd::prelude::*;

use crate::engine::DatabaseType;
use crate::error::AppError;
use crate::text::spec_dec;
use crate::text::u64_to_string;

verus! {

/// What the caller supplies to open a connection. Never mutated after use.
///
/// An empty `database` means "no default database" for MySQL, PostgreSQL
/// and MongoDB; for SQLite the field names the database file and must not
/// be empty.
#[derive(Debug, Clone, PartialEq, Eq)]
pub struct DatabaseConfig {
    pub host: String,
    pub port: u16,
    pub username: String,
    pub password: String,
    pub database: String,
    pub db_type: DatabaseType,
}

impl DatabaseConfig {
    /// A configuration is usable unless it asks for SQLite without a file
    /// path.
    pub open spec fn valid(self) -> bool {
        self.db_type == DatabaseType::SQLite ==> self.database@.len() > 0
    }

    /// The `user:password@host:port` part shared by the networked engines.
    pub open spec fn spec_authority(self) -> Seq<char> {
        self.username@ + ":"@ + self.password@ + "@"@ + self.host@ + ":"@ + spec_dec(
            self.port as nat,
        )
    }

    /// The connection string `connection_string` builds for a valid
    /// configuration: scheme, credentials, host and port, and the database
    /// name when one is set. SQLite takes only the file path.
    pub open spec fn spec_connection_string(self) -> Seq<char> {
        match self.db_type {
            DatabaseType::MySQL => "mysql://"@ + self.spec_authority() + self.spec_database_suffix(),
            DatabaseType::PostgreSQL => "postgresql://"@ + self.spec_authority()
                + self.spec_database_suffix(),
            DatabaseType::SQLite => "sqlite://"@ + self.database@,
            DatabaseType::MongoDB => "mongodb://"@ + self.spec_authority()
                + self.spec_database_suffix(),
        }
    }

    /// `/database` when a database name is set, nothing otherwise.
    pub open spec fn spec_database_suffix(self) -> Seq<char> {
        if self.database@.len() == 0 {
            Seq::<char>::empty()
        } else {
            "/"@ + self.database@
        }
    }

    /// Appends `user:password@host:port` to `s`.
    fn push_authority(&self, s: &mut String)
        ensures
            final(s)@ == old(s)@ + self.spec_authority(),
    {
        s.append(self.username.as_str());
        s.append(":");
        s.append(self.password.as_str());
        s.append("@");
        s.append(self.host.as_str());
        s.append(":");
        let port = u64_to_string(self.port as u64);
        s.append(port.as_str());
    }

    /// Appends `/database` to `s` when a database name is set.
    fn push_database_suffix(&self, s: &mut String)
        ensures
            final(s)@ == old(s)@ + self.spec_database_suffix(),
    {
        if !self.database.as_str().is_empty() {
            s.append("/");
            s.append(self.database.as_str());
        }
    }

    /// Builds the engine-specific connection string, or reports the one
    /// configuration error: SQLite with an empty file path.
    pub fn connection_string(&self) -> (r: Result<String, AppError>)
        ensures
            self.valid() <==> r is Ok,
            r matches Ok(s) ==> s@ == self.spec_connection_string(),
            r matches Err(e) ==> e matches AppError::InvalidConfiguration(m) && m@
                == "SQLite requires a database file path"@,
    {
        match self.db_type {
            DatabaseType::MySQL => {
                let mut s = String::from_str("mysql://");
                self.push_authority(&mut s);
                self.push_database_suffix(&mut s);
                Ok(s)
            },
            DatabaseType::PostgreSQL => {
                let mut s = String::from_str("postgresql://");
                self.push_authority(&mut s);
                self.push_database_suffix(&mut s);
                Ok(s)
            },
            DatabaseType::SQLite => {
                if self.database.as_str().is_empty() {
                    Err(
                        AppError::InvalidConfiguration(
                            String::from_str("SQLite requires a database file path"),
                        ),
                    )
                } else {
                    let mut s = String::from_str("sqlite://");
                    s.append(self.database.as_str());
                    Ok(s)
                }
            },
            DatabaseType::MongoDB => {
                let mut s = String::from_str("mongodb://");
                self.push_authority(&mut s);
                self.push_database_suffix(&mut s);
                Ok(s)
            },
        }
    }

    /// The database the document engine opens: the configured name, or the
    /// administrative default when none is set.
    pub fn mongo_database_name(&self) -> (r: String)
        ensures
            self.database@.len() == 0 ==> r@ == "admin"@,
            self.database@.len() > 0 ==> r@ == self.database@,
    {
        if self.database.as_str().is_empty() {
            String::from_str("admin")
        } else {
            self.database.clone()
        }
    }
}

} // verus!
