//! Core of a multi-engine database explorer.
//!
//! Four structurally different data stores — MySQL, PostgreSQL, SQLite and
//! MongoDB — are presented behind one uniform interface: build a connection
//! target, introspect a schema, execute a query, and receive every result
//! as a single normalized value model.
//!
//! The library itself is stateless and pure: it owns the connection-string
//! construction, the normalization of catalog metadata into [`schema`]
//! types, the cascading cell coercion of [`value`], the assembly of
//! [`query::QueryResult`] values, and the session bookkeeping of
//! [`session::AppData`]. The surrounding shell performs the network and
//! disk round trips and hands their outcomes to these functions as plain
//! values.

pub mod ai;
pub mod catalog;
pub mod config;
pub mod engine;
pub mod error;
pub mod query;
pub mod schema;
pub mod session;
pub mod text;
pub mod value;
