//! The agent's configuration, as read from its configuration file.

use vstd::prelude::*;

verus! {

/// The agent's configuration.
#[derive(Debug, Clone)]
pub struct Config {
    /// The port the agent listens on.
    pub port: u16,
    /// The user's auth token.
    pub auth_token: String,
    /// The proxy addresses, as `host:port`.
    pub proxy_addresses: Vec<String>,
    /// The number of runtime worker threads.
    pub worker_threads: usize,
    /// How long an idle worker thread lives, in seconds.
    pub worker_thread_keep_alive: u64,
    /// The directory that holds each user's RSA keys.
    pub rsa_dir: String,
    /// The most verbose log level written.
    pub max_log_level: String,
    /// The listening socket's backlog.
    pub server_socket_backlog: u16,
    /// Whether client connections use TCP keepalive.
    pub client_connection_tcp_keepalive: bool,
    /// The client keepalive interval, in seconds.
    pub client_connection_tcp_keepalive_interval: Option<u64>,
    /// The client keepalive idle time, in seconds.
    pub client_connection_tcp_keepalive_time: Option<u64>,
    /// The client read timeout, in seconds.
    pub client_connection_read_timeout: Option<u64>,
    /// The client write timeout, in seconds.
    pub client_connection_write_timeout: Option<u64>,
    /// The client socket's receive buffer size.
    pub client_socket_receive_buffer_size: Option<usize>,
    /// The client socket's send buffer size.
    pub client_socket_send_buffer_size: Option<usize>,
    /// The buffer size for relaying client data.
    pub client_relay_buffer_size: usize,
    /// The buffer size for relaying proxy data.
    pub proxy_relay_buffer_size: usize,
    /// The size of the proxy connection pool; none for no pool.
    pub proxy_connection_pool_size: Option<usize>,
    /// How long to wait before taking a connection again, in seconds.
    pub proxy_connection_retake_interval: u64,
    /// Whether pooled connections are checked on a timer.
    pub proxy_connection_start_check_timer: bool,
    /// The interval of that timer, in seconds.
    pub proxy_connection_start_check_timer_interval: u64,
    /// How long a pooled connection may live, in seconds.
    pub proxy_connection_max_lifetime: i64,
    /// How long to wait for a heartbeat answer, in seconds.
    pub proxy_connection_ping_pong_read_timeout: u64,
    /// How long a pooled connection goes unchecked, in seconds.
    pub proxy_connection_check_interval: i64,
    /// The interval of refilling the pool, in seconds; none to fill once.
    pub proxy_connection_pool_fill_interval: Option<u64>,
    /// The timeout for connecting to the proxy, in seconds.
    pub proxy_connect_timeout: u64,
    /// The proxy read timeout, in seconds.
    pub proxy_connection_read_timeout: Option<u64>,
    /// The proxy write timeout, in seconds.
    pub proxy_connection_write_timeout: Option<u64>,
    /// The proxy socket's receive buffer size.
    pub proxy_socket_receive_buffer_size: Option<usize>,
    /// The proxy socket's send buffer size.
    pub proxy_socket_send_buffer_size: Option<usize>,
    /// Whether proxy connections use TCP keepalive.
    pub proxy_connection_tcp_keepalive: bool,
    /// The proxy keepalive interval, in seconds.
    pub proxy_connection_tcp_keepalive_interval: Option<u64>,
    /// The proxy keepalive idle time, in seconds.
    pub proxy_connection_tcp_keepalive_time: Option<u64>,
    /// The folder that log files go to.
    pub log_folder: String,
    /// The capacity of the server event channel.
    pub server_event_max_size: usize,
}

impl Default for Config {
    fn default() -> (c: Self)
        ensures
            c.port == 80,
            c.auth_token@ == "user1"@,
            c.proxy_addresses@.len() == 1,
            c.proxy_addresses@[0]@ == "45.76.0.10:80"@,
            c.worker_threads == 256,
            c.worker_thread_keep_alive == 10,
            c.rsa_dir@ == "/resources/agent/rsa"@,
            c.max_log_level@ == "INFO"@,
            c.server_socket_backlog == 1024,
            c.client_connection_tcp_keepalive == false,
            c.client_connection_tcp_keepalive_interval == Some(75u64),
            c.client_connection_tcp_keepalive_time == Some(7200u64),
            c.client_connection_read_timeout == None::<u64>,
            c.client_connection_write_timeout == None::<u64>,
            c.client_socket_receive_buffer_size == None::<usize>,
            c.client_socket_send_buffer_size == None::<usize>,
            c.client_relay_buffer_size == 65536,
            c.proxy_relay_buffer_size == 65536,
            c.proxy_connection_pool_size == Some(32usize),
            c.proxy_connection_retake_interval == 5,
            c.proxy_connection_start_check_timer == false,
            c.proxy_connection_start_check_timer_interval == 120,
            c.proxy_connection_max_lifetime == 300,
            c.proxy_connection_ping_pong_read_timeout == 10,
            c.proxy_connection_check_interval == 60,
            c.proxy_connection_pool_fill_interval == Some(20u64),
            c.proxy_connect_timeout == 20,
            c.proxy_connection_read_timeout == None::<u64>,
            c.proxy_connection_write_timeout == None::<u64>,
            c.proxy_socket_receive_buffer_size == None::<usize>,
            c.proxy_socket_send_buffer_size == None::<usize>,
            c.proxy_connection_tcp_keepalive == false,
            c.proxy_connection_tcp_keepalive_interval == Some(75u64),
            c.proxy_connection_tcp_keepalive_time == Some(7200u64),
            c.log_folder@ == "/logs"@,
            c.server_event_max_size == 4294967295,
    {
        Config {
            port: 80,
            auth_token: "user1".to_string(),
            proxy_addresses: vec!["45.76.0.10:80".to_string()],
            worker_threads: 256,
            worker_thread_keep_alive: 10,
            rsa_dir: "/resources/agent/rsa".to_string(),
            max_log_level: "INFO".to_string(),
            server_socket_backlog: 1024,
            client_connection_tcp_keepalive: false,
            client_connection_tcp_keepalive_interval: Some(75),
            client_connection_tcp_keepalive_time: Some(7200),
            client_connection_read_timeout: None,
            client_connection_write_timeout: None,
            client_socket_receive_buffer_size: None,
            client_socket_send_buffer_size: None,
            client_relay_buffer_size: 65536,
            proxy_relay_buffer_size: 65536,
            proxy_connection_pool_size: Some(32),
            proxy_connection_retake_interval: 5,
            proxy_connection_start_check_timer: false,
            proxy_connection_start_check_timer_interval: 120,
            proxy_connection_max_lifetime: 300,
            proxy_connection_ping_pong_read_timeout: 10,
            proxy_connection_check_interval: 60,
            proxy_connection_pool_fill_interval: Some(20),
            proxy_connect_timeout: 20,
            proxy_connection_read_timeout: None,
            proxy_connection_write_timeout: None,
            proxy_socket_receive_buffer_size: None,
            proxy_socket_send_buffer_size: None,
            proxy_connection_tcp_keepalive: false,
            proxy_connection_tcp_keepalive_interval: Some(75),
            proxy_connection_tcp_keepalive_time: Some(7200),
            log_folder: "/logs".to_string(),
            server_event_max_size: 4294967295,
        }
    }
}

impl Config {
    /// The port the agent listens on.
    pub fn port(&self) -> (r: &u16)
        ensures
            *r == self.port,
    {
        &self.port
    }

    /// The user's auth token.
    pub fn auth_token(&self) -> (r: &str)
        ensures
            r@ == self.auth_token@,
    {
        self.auth_token.as_str()
    }

    /// The proxy addresses, as `host:port`.
    pub fn proxy_addresses(&self) -> (r: &Vec<String>)
        ensures
            *r == self.proxy_addresses,
    {
        &self.proxy_addresses
    }

    /// The number of runtime worker threads.
    pub fn worker_threads(&self) -> (r: &usize)
        ensures
            *r == self.worker_threads,
    {
        &self.worker_threads
    }

    /// How long an idle worker thread lives, in seconds.
    pub fn worker_thread_keep_alive(&self) -> (r: &u64)
        ensures
            *r == self.worker_thread_keep_alive,
    {
        &self.worker_thread_keep_alive
    }

    /// The directory that holds each user's RSA keys.
    pub fn rsa_dir(&self) -> (r: &str)
        ensures
            r@ == self.rsa_dir@,
    {
        self.rsa_dir.as_str()
    }

    /// The most verbose log level written.
    pub fn max_log_level(&self) -> (r: &str)
        ensures
            r@ == self.max_log_level@,
    {
        self.max_log_level.as_str()
    }

    /// The listening socket's backlog.
    pub fn server_socket_backlog(&self) -> (r: &u16)
        ensures
            *r == self.server_socket_backlog,
    {
        &self.server_socket_backlog
    }

    /// Whether client connections use TCP keepalive.
    pub fn client_connection_tcp_keepalive(&self) -> (r: &bool)
        ensures
            *r == self.client_connection_tcp_keepalive,
    {
        &self.client_connection_tcp_keepalive
    }

    /// The client keepalive interval, in seconds.
    pub fn client_connection_tcp_keepalive_interval(&self) -> (r: &Option<u64>)
        ensures
            *r == self.client_connection_tcp_keepalive_interval,
    {
        &self.client_connection_tcp_keepalive_interval
    }

    /// The client keepalive idle time, in seconds.
    pub fn client_connection_tcp_keepalive_time(&self) -> (r: &Option<u64>)
        ensures
            *r == self.client_connection_tcp_keepalive_time,
    {
        &self.client_connection_tcp_keepalive_time
    }

    /// The client read timeout, in seconds.
    pub fn client_connection_read_timeout(&self) -> (r: &Option<u64>)
        ensures
            *r == self.client_connection_read_timeout,
    {
        &self.client_connection_read_timeout
    }

    /// The client write timeout, in seconds.
    pub fn client_connection_write_timeout(&self) -> (r: &Option<u64>)
        ensures
            *r == self.client_connection_write_timeout,
    {
        &self.client_connection_write_timeout
    }

    /// The client socket's receive buffer size.
    pub fn client_socket_receive_buffer_size(&self) -> (r: &Option<usize>)
        ensures
            *r == self.client_socket_receive_buffer_size,
    {
        &self.client_socket_receive_buffer_size
    }

    /// The client socket's send buffer size.
    pub fn client_socket_send_buffer_size(&self) -> (r: &Option<usize>)
        ensures
            *r == self.client_socket_send_buffer_size,
    {
        &self.client_socket_send_buffer_size
    }

    /// The buffer size for relaying client data.
    pub fn client_relay_buffer_size(&self) -> (r: &usize)
        ensures
            *r == self.client_relay_buffer_size,
    {
        &self.client_relay_buffer_size
    }

    /// The buffer size for relaying proxy data.
    pub fn proxy_relay_buffer_size(&self) -> (r: &usize)
        ensures
            *r == self.proxy_relay_buffer_size,
    {
        &self.proxy_relay_buffer_size
    }

    /// The size of the proxy connection pool; none for no pool.
    pub fn proxy_connection_pool_size(&self) -> (r: &Option<usize>)
        ensures
            *r == self.proxy_connection_pool_size,
    {
        &self.proxy_connection_pool_size
    }

    /// How long to wait before taking a connection again, in seconds.
    pub fn proxy_connection_retake_interval(&self) -> (r: &u64)
        ensures
            *r == self.proxy_connection_retake_interval,
    {
        &self.proxy_connection_retake_interval
    }

    /// Whether pooled connections are checked on a timer.
    pub fn proxy_connection_start_check_timer(&self) -> (r: &bool)
        ensures
            *r == self.proxy_connection_start_check_timer,
    {
        &self.proxy_connection_start_check_timer
    }

    /// The interval of that timer, in seconds.
    pub fn proxy_connection_start_check_timer_interval(&self) -> (r: &u64)
        ensures
            *r == self.proxy_connection_start_check_timer_interval,
    {
        &self.proxy_connection_start_check_timer_interval
    }

    /// How long a pooled connection may live, in seconds.
    pub fn proxy_connection_max_lifetime(&self) -> (r: &i64)
        ensures
            *r == self.proxy_connection_max_lifetime,
    {
        &self.proxy_connection_max_lifetime
    }

    /// How long to wait for a heartbeat answer, in seconds.
    pub fn proxy_connection_ping_pong_read_timeout(&self) -> (r: &u64)
        ensures
            *r == self.proxy_connection_ping_pong_read_timeout,
    {
        &self.proxy_connection_ping_pong_read_timeout
    }

    /// How long a pooled connection goes unchecked, in seconds.
    pub fn proxy_connection_check_interval(&self) -> (r: &i64)
        ensures
            *r == self.proxy_connection_check_interval,
    {
        &self.proxy_connection_check_interval
    }

    /// The interval of refilling the pool, in seconds; none to fill once.
    pub fn proxy_connection_pool_fill_interval(&self) -> (r: &Option<u64>)
        ensures
            *r == self.proxy_connection_pool_fill_interval,
    {
        &self.proxy_connection_pool_fill_interval
    }

    /// The timeout for connecting to the proxy, in seconds.
    pub fn proxy_connect_timeout(&self) -> (r: &u64)
        ensures
            *r == self.proxy_connect_timeout,
    {
        &self.proxy_connect_timeout
    }

    /// The proxy read timeout, in seconds.
    pub fn proxy_connection_read_timeout(&self) -> (r: &Option<u64>)
        ensures
            *r == self.proxy_connection_read_timeout,
    {
        &self.proxy_connection_read_timeout
    }

    /// The proxy write timeout, in seconds.
    pub fn proxy_connection_write_timeout(&self) -> (r: &Option<u64>)
        ensures
            *r == self.proxy_connection_write_timeout,
    {
        &self.proxy_connection_write_timeout
    }

    /// The proxy socket's receive buffer size.
    pub fn proxy_socket_receive_buffer_size(&self) -> (r: &Option<usize>)
        ensures
            *r == self.proxy_socket_receive_buffer_size,
    {
        &self.proxy_socket_receive_buffer_size
    }

    /// The proxy socket's send buffer size.
    pub fn proxy_socket_send_buffer_size(&self) -> (r: &Option<usize>)
        ensures
            *r == self.proxy_socket_send_buffer_size,
    {
        &self.proxy_socket_send_buffer_size
    }

    /// Whether proxy connections use TCP keepalive.
    pub fn proxy_connection_tcp_keepalive(&self) -> (r: &bool)
        ensures
            *r == self.proxy_connection_tcp_keepalive,
    {
        &self.proxy_connection_tcp_keepalive
    }

    /// The proxy keepalive interval, in seconds.
    pub fn proxy_connection_tcp_keepalive_interval(&self) -> (r: &Option<u64>)
        ensures
            *r == self.proxy_connection_tcp_keepalive_interval,
    {
        &self.proxy_connection_tcp_keepalive_interval
    }

    /// The proxy keepalive idle time, in seconds.
    pub fn proxy_connection_tcp_keepalive_time(&self) -> (r: &Option<u64>)
        ensures
            *r == self.proxy_connection_tcp_keepalive_time,
    {
        &self.proxy_connection_tcp_keepalive_time
    }

    /// The folder that log files go to.
    pub fn log_folder(&self) -> (r: &str)
        ensures
            r@ == self.log_folder@,
    {
        self.log_folder.as_str()
    }

    /// The capacity of the server event channel.
    pub fn server_event_max_size(&self) -> (r: &usize)
        ensures
            *r == self.server_event_max_size,
    {
        &self.server_event_max_size
    }

}

} // verus!
