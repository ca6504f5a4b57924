//! A verified codec and decision core for a proxy agent: length-delimited
//! framing of control, data, relay and heartbeat packets, the binary layout
//! of relay frames, the agent's configuration, and the decisions that its
//! connection pool and client handlers take.
pub mod error;
pub mod frame;
pub mod domain;
pub mod big_endian;
pub mod relay;
pub mod heartbeat;
pub mod session;
pub mod tunnel;
pub mod control;
pub mod data;
pub mod packet;
pub mod bo;
pub mod config;
pub mod pool;
pub mod handler;
pub mod server;
pub mod uuid_text;
pub mod holder;
pub mod seal;
pub mod log_level;
