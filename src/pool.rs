//! Connection-pool settings.

use vstd::prelude::*;
use crate::error::DbError;

verus! {

/// Upper bound on the connections the shared pool keeps open at once.
pub const MAX_CONNECTIONS: u32 = 5;

/// How the single process-wide pool is to be opened.
#[derive(Debug)]
pub struct PoolConfig {
    pub url: String,
    pub max_connections: u32,
}

/// The pool settings for the connection string found in the configuration.
/// A missing or empty connection string is a configuration error.
pub fn pool_config(database_url: Option<String>) -> (r: Result<PoolConfig, DbError>)
    ensures
        match database_url {
            Some(u) if u@.len() > 0 => r matches Ok(c) && c.url@ == u@ && c.max_connections
                == MAX_CONNECTIONS,
            _ => r == Err::<PoolConfig, DbError>(DbError::Config),
        },
{
    match database_url {
        Some(u) => {
            if u.as_str().unicode_len() == 0 {
                Err(DbError::Config)
            } else {
                Ok(PoolConfig { url: u, max_connections: MAX_CONNECTIONS })
            }
        },
        None => Err(DbError::Config),
    }
}

} // verus!
