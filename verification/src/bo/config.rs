//! The configuration of the agent that keeps one session with the proxy.

use vstd::prelude::*;

verus! {

/// The agent's configuration.
#[derive(Debug, Clone)]
pub struct Config {
    /// The port the agent listens on.
    pub port: u16,
    /// The user's auth token.
    pub auth_token: String,
    /// The proxy addresses, as `host:port`.
    pub proxy_addresses: Vec<String>,
    /// The number of runtime worker threads.
    pub worker_threads: usize,
    /// The directory that holds each user's RSA keys.
    pub rsa_dir: String,
    /// The most verbose log level written.
    pub max_log_level: String,
    /// The buffer size for relaying client data.
    pub client_relay_buffer_size: usize,
    /// The buffer size for relaying proxy data.
    pub proxy_relay_buffer_size: usize,
    /// The proxy socket's receive buffer size.
    pub proxy_socket_recv_buffer_size: u32,
    /// The proxy socket's send buffer size.
    pub proxy_socket_send_buffer_size: u32,
    /// The size of the proxy connection pool.
    pub proxy_connection_pool_size: usize,
}

impl Default for Config {
    fn default() -> (c: Self)
        ensures
            c.port == 80,
            c.auth_token@ == "user1"@,
            c.proxy_addresses@.len() == 1,
            c.proxy_addresses@[0]@ == "45.32.10.177:80"@,
            c.worker_threads == 256,
            c.rsa_dir@ == "/resources/rsa"@,
            c.max_log_level@ == "INFO"@,
            c.client_relay_buffer_size == 8388608,
            c.proxy_relay_buffer_size == 8388608,
            c.proxy_socket_recv_buffer_size == 8388608,
            c.proxy_socket_send_buffer_size == 8388608,
            c.proxy_connection_pool_size == 32,
    {
        Config {
            port: 80,
            auth_token: "user1".to_string(),
            proxy_addresses: vec!["45.32.10.177:80".to_string()],
            worker_threads: 256,
            rsa_dir: "/resources/rsa".to_string(),
            max_log_level: "INFO".to_string(),
            client_relay_buffer_size: 8388608,
            proxy_relay_buffer_size: 8388608,
            proxy_socket_recv_buffer_size: 8388608,
            proxy_socket_send_buffer_size: 8388608,
            proxy_connection_pool_size: 32,
        }
    }
}

impl Config {
    /// The port the agent listens on.
    pub fn port(&self) -> (r: &u16)
        ensures
            *r == self.port,
    {
        &self.port
    }

    /// The user's auth token.
    pub fn auth_token(&self) -> (r: &str)
        ensures
            r@ == self.auth_token@,
    {
        self.auth_token.as_str()
    }

    /// The proxy addresses, as `host:port`.
    pub fn proxy_addresses(&self) -> (r: &Vec<String>)
        ensures
            *r == self.proxy_addresses,
    {
        &self.proxy_addresses
    }

    /// The number of runtime worker threads.
    pub fn worker_threads(&self) -> (r: &usize)
        ensures
            *r == self.worker_threads,
    {
        &self.worker_threads
    }

    /// The directory that holds each user's RSA keys.
    pub fn rsa_dir(&self) -> (r: &str)
        ensures
            r@ == self.rsa_dir@,
    {
        self.rsa_dir.as_str()
    }

    /// The most verbose log level written.
    pub fn max_log_level(&self) -> (r: &str)
        ensures
            r@ == self.max_log_level@,
    {
        self.max_log_level.as_str()
    }

    /// The buffer size for relaying client data.
    pub fn client_relay_buffer_size(&self) -> (r: &usize)
        ensures
            *r == self.client_relay_buffer_size,
    {
        &self.client_relay_buffer_size
    }

    /// The buffer size for relaying proxy data.
    pub fn proxy_relay_buffer_size(&self) -> (r: &usize)
        ensures
            *r == self.proxy_relay_buffer_size,
    {
        &self.proxy_relay_buffer_size
    }

    /// The proxy socket's receive buffer size.
    pub fn proxy_socket_recv_buffer_size(&self) -> (r: &u32)
        ensures
            *r == self.proxy_socket_recv_buffer_size,
    {
        &self.proxy_socket_recv_buffer_size
    }

    /// The proxy socket's send buffer size.
    pub fn proxy_socket_send_buffer_size(&self) -> (r: &u32)
        ensures
            *r == self.proxy_socket_send_buffer_size,
    {
        &self.proxy_socket_send_buffer_size
    }

    /// The size of the proxy connection pool.
    pub fn proxy_connection_pool_size(&self) -> (r: &usize)
        ensures
            *r == self.proxy_connection_pool_size,
    {
        &self.proxy_connection_pool_size
    }

}

} // verus!
