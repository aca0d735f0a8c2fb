use vstd::prelude::*;
use std::path::PathBuf;

verus! {

/// A connector to a Redis server.
pub struct RedisConnector {
    pub connection: redis::Connection,
}

/// Why a connector refused a request.
#[derive(Debug, Clone, Copy, PartialEq, Eq, Structural)]
pub enum ConnectorError {
    /// The connector does not offer this yet.
    NotImplemented,
}

impl RedisConnector {
    /// Loading connector settings from a file is not offered: every request,
    /// with or without a path, is refused.
    pub fn get_settings(self, path: Option<PathBuf>) -> (res: Result<(), ConnectorError>)
        ensures
            res == Err::<(), ConnectorError>(ConnectorError::NotImplemented),
    {
        Err(ConnectorError::NotImplemented)
    }
}

} // verus!
