//! The agent's session with the proxy.
use crate::domain::Encryption;
use vstd::prelude::*;

verus! {

/// The encryptions both sides agreed on, and the session's token.
#[derive(Debug, Clone)]
pub struct AgentSession {
    pub agent_encryption: Encryption,
    pub proxy_encryption: Encryption,
    pub session_token: String,
}

} // verus!
