//! Events that the agent server publishes.
use vstd::prelude::*;

verus! {

/// An event in the agent server's life.
#[derive(Debug, Clone, Copy, PartialEq, Eq, Structural)]
pub enum AgentServerEvent {
    ServerStartup,
    ServerStartFail,
    ServerTcpBind,
    AgentTcpConnected,
}

} // verus!
