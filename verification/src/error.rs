//! The error kinds that every operation of the core reports.

use vstd::prelude::*;

verus! {

/// One kind per failure class. Engine-native diagnostics are preserved
/// verbatim in the `String` payloads; no error is silently swallowed.
#[derive(Debug, Clone, PartialEq, Eq)]
pub enum AppError {
    /// Auth, network or malformed-target failure while establishing or
    /// probing a connection.
    DatabaseConnectionFailed(String),
    /// An operation was attempted while no connection is active.
    DatabaseNotConnected,
    /// The engine rejected or failed a query.
    QueryExecutionFailed(String),
    /// A catalog query failed during introspection.
    SchemaRetrievalFailed(String),
    /// A required configuration field is missing or unusable.
    InvalidConfiguration(String),
    /// The assistant subsystem could not serve a request.
    AIServiceError(String),
    /// An assistant call failed.
    AIError(String),
    /// Any other internal failure.
    InternalError(String),
}

impl AppError {
    /// The single descriptive text shown for this error: a fixed label for
    /// the kind, with the preserved diagnostic appended.
    pub fn message(&self) -> (r: String)
        ensures
            r@ == self.spec_message(),
    {
        match self {
            AppError::DatabaseConnectionFailed(m) => {
                let mut s = String::from_str("Database connection failed: ");
                s.append(m.as_str());
                s
            },
            AppError::DatabaseNotConnected => String::from_str("Database not connected"),
            AppError::QueryExecutionFailed(m) => {
                let mut s = String::from_str("Query execution failed: ");
                s.append(m.as_str());
                s
            },
            AppError::SchemaRetrievalFailed(m) => {
                let mut s = String::from_str("Schema retrieval failed: ");
                s.append(m.as_str());
                s
            },
            AppError::InvalidConfiguration(m) => {
                let mut s = String::from_str("Invalid configuration: ");
                s.append(m.as_str());
                s
            },
            AppError::AIServiceError(m) => {
                let mut s = String::from_str("AI service error: ");
                s.append(m.as_str());
                s
            },
            AppError::AIError(m) => {
                let mut s = String::from_str("AI error: ");
                s.append(m.as_str());
                s
            },
            AppError::InternalError(m) => {
                let mut s = String::from_str("Internal error: ");
                s.append(m.as_str());
                s
            },
        }
    }

    /// The text `message` returns, variant by variant.
    pub open spec fn spec_message(self) -> Seq<char> {
        match self {
            AppError::DatabaseConnectionFailed(m) => "Database connection failed: "@ + m@,
            AppError::DatabaseNotConnected => "Database not connected"@,
            AppError::QueryExecutionFailed(m) => "Query execution failed: "@ + m@,
            AppError::SchemaRetrievalFailed(m) => "Schema retrieval failed: "@ + m@,
            AppError::InvalidConfiguration(m) => "Invalid configuration: "@ + m@,
            AppError::AIServiceError(m) => "AI service error: "@ + m@,
            AppError::AIError(m) => "AI error: "@ + m@,
            AppError::InternalError(m) => "Internal error: "@ + m@,
        }
    }
}

} // verus!
