use vstd::prelude::*;

use crate::engine::CallError;

verus! {

/// Seconds a session waits for a response before giving up. Conversions on
/// the engine's side can be slow, so this is generous.
pub const READ_TIMEOUT_SECS: u64 = 600;

/// Seconds a session waits for its connection to open.
pub const CONNECT_TIMEOUT_SECS: u64 = 60;

/// The process-wide configuration a session is built from, read once at
/// startup.
#[derive(Clone, Debug, PartialEq, Eq)]
pub struct SessionConfig {
    /// The API token; required.
    pub api_token: Option<String>,
    /// A host to use in place of the default engine endpoint.
    pub host: Option<String>,
}

/// Everything needed to open a connection to the engine.
#[derive(Clone, Debug, PartialEq, Eq)]
pub struct SessionSettings {
    pub api_token: String,
    pub host: Option<String>,
    pub read_timeout_secs: u64,
    pub connect_timeout_secs: u64,
}

/// The settings a configuration yields: its token and host with the fixed
/// timeouts, or a configuration error where no token is given.
pub open spec fn settings_outcome(config: SessionConfig) -> Result<SessionSettings, CallError> {
    match config.api_token {
        Some(api_token) => Ok(
            SessionSettings {
                api_token,
                host: config.host,
                read_timeout_secs: READ_TIMEOUT_SECS,
                connect_timeout_secs: CONNECT_TIMEOUT_SECS,
            },
        ),
        None => Err(CallError::MissingCredential),
    }
}

/// Builds the settings for a session from the configuration. Fails, before
/// anything touches the network, where no API token is configured.
pub fn session_settings(config: SessionConfig) -> (r: Result<SessionSettings, CallError>)
    ensures
        r == settings_outcome(config),
        r is Err <==> config.api_token is None,
{
    match config.api_token {
        Some(api_token) => Ok(
            SessionSettings {
                api_token,
                host: config.host,
                read_timeout_secs: READ_TIMEOUT_SECS,
                connect_timeout_secs: CONNECT_TIMEOUT_SECS,
            },
        ),
        None => Err(CallError::MissingCredential),
    }
}

} // verus!
