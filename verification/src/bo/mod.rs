//! The agent's business objects: its configuration, its server events and
//! its session with the proxy.
pub mod config;
pub mod event;
pub mod session;
