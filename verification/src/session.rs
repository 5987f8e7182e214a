//! The application session: at most one active connection, held together
//! with the configuration that produced it.
//!
//! The core is stateless; the shell owns one `AppData` value behind its
//! lock and passes the handle to every operation. The handle type is a
//! parameter, so the bookkeeping is verified once for whatever union of
//! engine connections the shell stores.

use vstd::prelude::*;

use crate::ai::AIProviderConfig;
use crate::config::DatabaseConfig;
use crate::error::AppError;

verus! {

/// The process-wide state: the active connection handle and its
/// configuration, if any, and the assistant configuration, if set.
#[derive(Debug)]
pub struct AppData<H> {
    pub db_connection: Option<H>,
    pub db_config: Option<DatabaseConfig>,
    pub ai_config: Option<AIProviderConfig>,
}

/// The session state after a successful connect on `s`: exactly the new
/// handle and configuration; only the assistant configuration survives.
pub open spec fn spec_connected<H>(s: AppData<H>, h: H, c: DatabaseConfig) -> AppData<H> {
    AppData { db_connection: Some(h), db_config: Some(c), ai_config: s.ai_config }
}

impl<H> Default for AppData<H> {
    /// A fresh session: nothing connected, nothing configured.
    fn default() -> (r: Self)
        ensures
            r.db_connection is None,
            r.db_config is None,
            r.ai_config is None,
    {
        AppData { db_connection: None, db_config: None, ai_config: None }
    }
}

impl<H> AppData<H> {
    /// Installs a validated connection and its configuration, dropping
    /// whatever was active before.
    pub fn connect(&mut self, connection: H, config: DatabaseConfig)
        ensures
            *final(self) == spec_connected(*old(self), connection, config),
    {
        self.db_connection = Some(connection);
        self.db_config = Some(config);
    }

    /// Drops the active connection and its configuration.
    pub fn disconnect(&mut self)
        ensures
            final(self).db_connection is None,
            final(self).db_config is None,
            final(self).ai_config == old(self).ai_config,
    {
        self.db_connection = None;
        self.db_config = None;
    }

    /// The active handle, or the not-connected error: an operation
    /// invoked without a prior successful connect fails with exactly
    /// [`AppError::DatabaseNotConnected`].
    pub fn current_connection(&self) -> (r: Result<&H, AppError>)
        ensures
            self.db_connection is Some <==> r is Ok,
            r matches Ok(h) ==> self.db_connection == Some(*h),
            r matches Err(e) ==> e == AppError::DatabaseNotConnected,
    {
        match &self.db_connection {
            Some(h) => Ok(h),
            None => Err(AppError::DatabaseNotConnected),
        }
    }

    /// Stores the assistant configuration, leaving the connection alone.
    pub fn set_ai_config(&mut self, config: AIProviderConfig)
        ensures
            final(self).ai_config == Some(config),
            final(self).db_connection == old(self).db_connection,
            final(self).db_config == old(self).db_config,
    {
        self.ai_config = Some(config);
    }
}

/// Connecting twice fully replaces the first handle and configuration:
/// the session after the second connect is exactly the session a single
/// connect would have produced, so no later operation can observe the
/// first engine's state.
pub proof fn lemma_reconnect_replaces<H>(
    s: AppData<H>,
    h1: H,
    c1: DatabaseConfig,
    h2: H,
    c2: DatabaseConfig,
)
    ensures
        spec_connected(spec_connected(s, h1, c1), h2, c2) == spec_connected(s, h2, c2),
{
}

} // verus!
