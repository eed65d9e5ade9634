//! HTTP server configuration.
use vstd::prelude::*;

use crate::manager::SessionManagerConfig;

verus! {

/// Configuration for the HTTP server.
pub struct ServerConfig {
    /// Bind address, such as an interface and port.
    pub address: String,
    /// Session manager configuration.
    pub session_manager: SessionManagerConfig,
}

impl ServerConfig {
    /// A config with the given address and the default session manager
    /// settings.
    pub fn new(address: String) -> (r: Self)
        ensures
            r.address == address,
            r.session_manager.max_sessions == Some(100usize),
            r.session_manager.agent_name is None,
            !r.session_manager.ephemeral,
    {
        ServerConfig { address, session_manager: SessionManagerConfig::default() }
    }

    /// Set whether sessions are ephemeral by default.
    pub fn with_ephemeral(self, ephemeral: bool) -> (r: Self)
        ensures
            r.address == self.address,
            r.session_manager.max_sessions == self.session_manager.max_sessions,
            r.session_manager.agent_name == self.session_manager.agent_name,
            r.session_manager.ephemeral == ephemeral,
    {
        let mut c = self;
        c.session_manager.ephemeral = ephemeral;
        c
    }

    /// Set the maximum number of concurrent sessions.
    pub fn with_max_sessions(self, max_sessions: Option<usize>) -> (r: Self)
        ensures
            r.address == self.address,
            r.session_manager.max_sessions == max_sessions,
            r.session_manager.agent_name == self.session_manager.agent_name,
            r.session_manager.ephemeral == self.session_manager.ephemeral,
    {
        let mut c = self;
        c.session_manager.max_sessions = max_sessions;
        c
    }
}

} // verus!
