use ppaass::bo::config::Config as SessionAgentConfig;
use ppaass::config::Config;
use ppaass::domain::{Encryption, HeartbeatPing, HeartbeatPong, ProxyControlPacket, ProxyDataPacket, Timestamp, TunnelInitResponse, UnifiedAddress};
use ppaass::error::{AgentError, CommonError};
use ppaass::log_level::{parse_log_level, LogLevel};
use ppaass::handler::{
    client_data_to_proxy, connect_established_reply, tunnel_init_request, http_proxy_destination, http_request_route, is_connect_method, on_heartbeat_reply, on_tunnel_init_reply,
    proxy_data_to_client, socks5_command_check, Socks5Command,
};
use ppaass::pool::{
    check_task_action, connections_to_open, pick_proxy_address_index, proxy_keepalive_settings, plan_check_round, put_back_all, finish_check_round,
    sort_by_last_check_time, take_step, CheckTaskAction, ConnectionQueue, PopError, PooledProxyConnection, PushError,
    TakeStep,
};
use ppaass::server::{select_client_protocol, ClientProtocol};
use ppaass::uuid_text::{generate_uuid, remove_hyphens_upper};

fn ts(secs: i64, nanos: u32) -> Timestamp {
    Timestamp { secs, nanos }
}

#[test]
fn config_defaults() {
    let c = Config::default();
    assert_eq!(*c.port(), 80);
    assert_eq!(c.auth_token(), "user1");
    assert_eq!(c.proxy_addresses(), &vec!["45.76.0.10:80".to_string()]);
    assert_eq!(*c.proxy_connection_pool_size(), Some(32));
    assert_eq!(*c.proxy_connection_check_interval(), 60);
    assert_eq!(*c.proxy_connection_max_lifetime(), 300);
    assert_eq!(*c.server_event_max_size(), u32::MAX as usize);
    assert_eq!(c.rsa_dir(), "/resources/agent/rsa");
    assert_eq!(c.log_folder(), "/logs");
    assert_eq!(*c.proxy_connection_pool_fill_interval(), Some(20));
    assert_eq!(*c.client_socket_send_buffer_size(), None);
    let s = SessionAgentConfig::default();
    assert_eq!(s.proxy_addresses(), &vec!["45.32.10.177:80".to_string()]);
    assert_eq!(*s.client_relay_buffer_size(), 8 * 1024 * 1024);
    assert_eq!(*s.proxy_socket_recv_buffer_size(), 8 * 1024 * 1024);
    assert_eq!(*s.proxy_connection_pool_size(), 32);
    assert_eq!(s.rsa_dir(), "/resources/rsa");
}

#[test]
fn encryption_defaults_to_plain() {
    assert!(matches!(Encryption::default(), Encryption::Plain));
}

#[test]
fn heartbeats_are_stamped_now() {
    let ping = HeartbeatPing::default();
    let pong = HeartbeatPong::default();
    assert!(ping.heartbeat_time.secs > 1_600_000_000);
    assert!(pong.heartbeat_time.nanos < 1_000_000_000);
}

#[test]
fn whole_seconds_truncate_toward_zero() {
    assert_eq!(ts(10, 0).whole_seconds_since(&ts(5, 0)), 5);
    assert_eq!(ts(10, 100).whole_seconds_since(&ts(5, 200)), 4);
    assert_eq!(ts(5, 200).whole_seconds_since(&ts(10, 100)), -4);
    assert_eq!(ts(5, 0).whole_seconds_since(&ts(5, 999_999_999)), 0);
    assert_eq!(ts(-3, 500).whole_seconds_since(&ts(-1, 0)), -1);
}

#[test]
fn pooled_connection_checks_and_lifetime() {
    let config = Config::default();
    let c = PooledProxyConnection::new_at("conn", &config, ts(1000, 0));
    assert!(!c.need_check_at(&ts(1000, 0)));
    assert!(!c.need_close_at(&ts(1000, 0)));
    assert!(!c.need_check_at(&ts(1060, 0)));
    assert!(c.need_check_at(&ts(1061, 0)));
    assert!(!c.need_close_at(&ts(1300, 999_999_999)));
    assert!(c.need_close_at(&ts(1301, 0)));
    assert_eq!(check_task_action(&c, &ts(1010, 0)), CheckTaskAction::PutBack);
    assert_eq!(check_task_action(&c, &ts(1100, 0)), CheckTaskAction::Check);
    assert_eq!(check_task_action(&c, &ts(1400, 0)), CheckTaskAction::Close);
    let mut c = c;
    c.update_check_time_at(ts(1090, 0));
    assert_eq!(*c.last_check_time(), ts(1090, 0));
    assert_eq!(*c.create_time(), ts(1000, 0));
    assert!(!c.need_check_at(&ts(1100, 0)));
    assert_eq!(c.into_inner(), "conn");
    let fresh = PooledProxyConnection::new(5u8, &config);
    assert!(!fresh.need_check());
    assert!(!fresh.need_close());
}

#[test]
fn connection_queue_is_bounded_fifo() {
    let mut q = ConnectionQueue::bounded(2);
    assert!(q.is_empty());
    assert!(q.push(1).is_ok());
    assert!(q.push(2).is_ok());
    assert!(q.is_full());
    assert!(matches!(q.push(3), Err(PushError::Full(3))));
    assert_eq!(q.len(), 2);
    assert_eq!(q.capacity(), 2);
    assert_eq!(q.pop(), Ok(1));
    assert_eq!(q.pop(), Ok(2));
    assert_eq!(q.pop(), Err(PopError::Empty));
}

#[test]
fn put_back_keeps_order_and_drops_overflow() {
    let mut q = ConnectionQueue::bounded(3);
    assert!(q.push(7).is_ok());
    let dropped = put_back_all(&mut q, vec![1, 2, 3, 4]);
    assert_eq!(dropped, vec![3, 4]);
    assert_eq!(q.len(), 3);
    assert_eq!(q.pop(), Ok(7));
    assert_eq!(q.pop(), Ok(1));
    assert_eq!(q.pop(), Ok(2));
    let dropped = put_back_all(&mut q, vec![5]);
    assert!(dropped.is_empty());
    assert_eq!(q.pop(), Ok(5));
    assert_eq!(q.pop(), Err(PopError::Empty));
}

#[test]
fn taking_a_connection_step_by_step() {
    let config = Config::default();
    let empty: Result<PooledProxyConnection<u8>, PopError> = Err(PopError::Empty);
    assert!(matches!(take_step(empty, false, &ts(0, 0)), TakeStep::FillThenWait));
    let empty: Result<PooledProxyConnection<u8>, PopError> = Err(PopError::Empty);
    assert!(matches!(take_step(empty, true, &ts(0, 0)), TakeStep::Wait));
    let fresh = PooledProxyConnection::new_at(1u8, &config, ts(100, 0));
    match take_step(Ok(fresh), false, &ts(160, 0)) {
        TakeStep::Hand(c) => assert_eq!(c.into_inner(), 1),
        _ => panic!("a fresh connection is handed out"),
    }
    let stale = PooledProxyConnection::new_at(2u8, &config, ts(100, 0));
    match take_step(Ok(stale), true, &ts(161, 0)) {
        TakeStep::Check(c) => assert_eq!(c.into_inner(), 2),
        _ => panic!("a stale connection is checked first"),
    }
}

#[test]
fn fill_and_index_choices() {
    assert_eq!(connections_to_open(3, 32), 29);
    assert_eq!(connections_to_open(32, 32), 0);
    assert_eq!(connections_to_open(40, 32), 0);
    assert_eq!(pick_proxy_address_index(17, 5), 2);
}

#[test]
fn sorting_by_last_check_time() {
    let config = Config::default();
    let conns = vec![
        PooledProxyConnection::new_at('a', &config, ts(30, 0)),
        PooledProxyConnection::new_at('b', &config, ts(10, 5)),
        PooledProxyConnection::new_at('c', &config, ts(10, 1)),
        PooledProxyConnection::new_at('d', &config, ts(20, 0)),
    ];
    let sorted = sort_by_last_check_time(conns);
    let order: Vec<char> = sorted.into_iter().map(|c| c.into_inner()).collect();
    assert_eq!(order, vec!['c', 'b', 'd', 'a']);
}

#[test]
fn sorting_keeps_ties_in_order() {
    let config = Config::default();
    let conns = vec![
        PooledProxyConnection::new_at('x', &config, ts(10, 0)),
        PooledProxyConnection::new_at('y', &config, ts(5, 0)),
        PooledProxyConnection::new_at('z', &config, ts(10, 0)),
        PooledProxyConnection::new_at('w', &config, ts(5, 0)),
    ];
    let sorted = sort_by_last_check_time(conns);
    let order: Vec<char> = sorted.into_iter().map(|c| c.into_inner()).collect();
    assert_eq!(order, vec!['y', 'w', 'x', 'z']);
}

#[test]
fn keepalive_settings() {
    let mut config = Config::default();
    assert_eq!(proxy_keepalive_settings(&config), Ok(None));
    config.proxy_connection_tcp_keepalive = true;
    assert_eq!(proxy_keepalive_settings(&config), Ok(Some((75, 7200))));
    config.proxy_connection_tcp_keepalive_time = None;
    assert_eq!(
        proxy_keepalive_settings(&config),
        Err(AgentError::Unknown("Fail to create proxy connection tcp socket becauause of no keepalive time provided".to_string()))
    );
    config.proxy_connection_tcp_keepalive_interval = None;
    assert_eq!(
        proxy_keepalive_settings(&config),
        Err(AgentError::Unknown("Fail to create proxy connection tcp socket becauause of no keepalive interval provided".to_string()))
    );
}

#[test]
fn client_protocol_selection() {
    assert_eq!(select_client_protocol(5), Ok(ClientProtocol::Socks5));
    assert_eq!(select_client_protocol(4), Err(AgentError::UnsupportedSocksV4Protocol));
    assert_eq!(select_client_protocol(b'G'), Ok(ClientProtocol::Http));
    assert_eq!(select_client_protocol(0), Ok(ClientProtocol::Http));
}

#[test]
fn connect_method_is_case_insensitive() {
    assert!(is_connect_method("CONNECT"));
    assert!(is_connect_method("Connect"));
    assert!(!is_connect_method("GET"));
    assert!(!is_connect_method("CONNECTS"));
}

#[test]
fn http_destinations() {
    let (addr, forward) = http_proxy_destination("CONNECT", "example.com:8443").unwrap();
    assert!(matches!(addr, UnifiedAddress::Domain { ref host, port: 8443 } if host == "example.com"));
    assert!(!forward);
    let (addr, _) = http_proxy_destination("connect", "example.com:443").unwrap();
    assert!(matches!(addr, UnifiedAddress::Domain { port: 443, .. }));
    let (addr, _) = http_proxy_destination("CONNECT", "example.com").unwrap();
    assert!(matches!(addr, UnifiedAddress::Domain { port: 443, .. }));
    let (addr, forward) = http_proxy_destination("GET", "http://www.example.org/index.html").unwrap();
    assert!(matches!(addr, UnifiedAddress::Domain { ref host, port: 80 } if host == "www.example.org"));
    assert!(forward);
    let (addr, _) = http_proxy_destination("POST", "http://h:8080/x").unwrap();
    assert!(matches!(addr, UnifiedAddress::Domain { port: 8080, .. }));
    assert!(matches!(http_proxy_destination("GET", "/relative"), Err(AgentError::ParseUrl(_))));
    assert!(matches!(
        http_proxy_destination("GET", "mailto:someone@example.com"),
        Err(AgentError::UnknownHostFromTargetUrl(ref u)) if u == "mailto:someone@example.com"
    ));
}

#[test]
fn socks5_commands() {
    assert_eq!(socks5_command_check(Socks5Command::Connect), Ok(()));
    assert_eq!(socks5_command_check(Socks5Command::Bind), Err(AgentError::UnsupportedSocksV5Command("BIND".to_string())));
    assert_eq!(
        socks5_command_check(Socks5Command::UdpAssociate),
        Err(AgentError::UnsupportedSocksV5Command("UDP_ASSOCIATE".to_string()))
    );
}

#[test]
fn tunnel_and_heartbeat_replies() {
    let pong = || ProxyControlPacket::Heartbeat(HeartbeatPong { heartbeat_time: ts(1, 0) });
    let answer = || ProxyControlPacket::TunnelInit(("u".to_string(), TunnelInitResponse { proxy_encryption: Encryption::Aes(vec![9]) }));
    assert!(matches!(on_tunnel_init_reply(Some(Ok(pong()))), Ok(None)));
    assert!(matches!(on_tunnel_init_reply(Some(Ok(answer()))), Ok(Some(TunnelInitResponse { proxy_encryption: Encryption::Aes(ref k) })) if k == &vec![9]));
    assert!(matches!(on_tunnel_init_reply(None), Err(AgentError::ProxyConnectionExhausted)));
    assert!(matches!(on_tunnel_init_reply(Some(Err(AgentError::AgentSessionLock))), Err(AgentError::AgentSessionLock)));
    assert_eq!(on_heartbeat_reply(Some(Ok(pong()))), Ok(()));
    assert_eq!(on_heartbeat_reply(Some(Ok(answer()))), Err(AgentError::InvalidProxyDataType));
    assert_eq!(on_heartbeat_reply(None), Err(AgentError::ProxyConnectionExhausted));
}

#[test]
fn relayed_data_crossing() {
    assert!(matches!(client_data_to_proxy(vec![1, 2]), ppaass::domain::AgentDataPacket::Tcp(ref d) if d == &vec![1, 2]));
    assert_eq!(proxy_data_to_client(ProxyDataPacket::Tcp(vec![3])), Ok(vec![3]));
    let udp = ProxyDataPacket::Udp { destination_address: UnifiedAddress::Ipv4 { ip: [1, 2, 3, 4], port: 53 }, payload: vec![] };
    assert_eq!(proxy_data_to_client(udp), Err(AgentError::InvalidProxyDataType));
}

#[test]
fn generated_ids_are_32_upper_hex_digits() {
    let a = generate_uuid();
    let b = generate_uuid();
    assert_eq!(a.len(), 32);
    assert!(a.chars().all(|c| c.is_ascii_digit() || ('A'..='F').contains(&c)));
    assert_ne!(a, b);
    assert_eq!(remove_hyphens_upper("ab-c-1f"), "ABC1F");
}

#[test]
fn http_requests_are_routed_from_their_bytes() {
    let get = b"GET http://example.com:8080/x HTTP/1.1\r\nHost: example.com\r\n\r\n";
    let (destination, initial) = http_request_route(get).unwrap().unwrap();
    assert!(matches!(destination, UnifiedAddress::Domain { ref host, port: 8080 } if host == "example.com"));
    let initial = initial.unwrap();
    assert!(initial.starts_with(b"GET http://example.com:8080/x HTTP/1.1\r\n"));
    let connect = b"CONNECT example.com:443 HTTP/1.1\r\n\r\n";
    let (destination, initial) = http_request_route(connect).unwrap().unwrap();
    assert!(matches!(destination, UnifiedAddress::Domain { ref host, port: 443 } if host == "example.com"));
    assert!(initial.is_none());
    let no_host = b"GET /relative HTTP/1.1\r\n\r\n";
    assert!(matches!(http_request_route(no_host), Err(AgentError::ParseUrl(_))));
    assert!(matches!(http_request_route(b"\x00\x01 not http\r\n\r\n"), Err(AgentError::ByteCodec(_))));
}

#[test]
fn log_levels_are_read_by_name_or_rank() {
    assert_eq!(parse_log_level("INFO"), Ok(LogLevel::Info));
    assert_eq!(parse_log_level("Debug"), Ok(LogLevel::Debug));
    assert_eq!(parse_log_level("1"), Ok(LogLevel::Error));
    assert_eq!(parse_log_level("trace"), Ok(LogLevel::Trace));
    assert_eq!(parse_log_level("warn"), Ok(LogLevel::Warn));
    assert!(matches!(parse_log_level("loud"), Err(CommonError::ParseLogLevel(_))));
    assert!(matches!(parse_log_level("9"), Err(CommonError::ParseLogLevel(_))));
    assert!(matches!(parse_log_level("foo"), Err(CommonError::ParseLogLevel(_))));
    assert!(matches!(parse_log_level("0"), Err(CommonError::ParseLogLevel(_))));
    assert_eq!(parse_log_level("+3"), Ok(LogLevel::Info));
    assert_eq!(parse_log_level("05"), Ok(LogLevel::Trace));
}

#[test]
fn connect_reply_is_an_empty_200() {
    let reply = connect_established_reply().unwrap();
    assert_eq!(reply, b"HTTP/1.1 200 Connection Established\r\nContent-Length: 0\r\n\r\n".to_vec());
}

#[test]
fn a_check_round_closes_keeps_and_checks() {
    let config = Config::default();
    let taken = vec![
        PooledProxyConnection::new_at('o', &config, ts(0, 0)),
        PooledProxyConnection::new_at('f', &config, ts(950, 0)),
        PooledProxyConnection::new_at('d', &config, ts(900, 0)),
        PooledProxyConnection::new_at('g', &config, ts(990, 0)),
    ];
    let (kept, checked) = plan_check_round(taken, &ts(1000, 0));
    let kept: Vec<char> = kept.into_iter().map(|c| c.into_inner()).collect();
    let checked: Vec<char> = checked.into_iter().map(|c| c.into_inner()).collect();
    assert_eq!(kept, vec!['f', 'g']);
    assert_eq!(checked, vec!['d']);
}

#[test]
fn the_tunnel_request_carries_the_fresh_key() {
    let key = [7u8; 32];
    let destination = UnifiedAddress::Domain { host: "example.com".to_string(), port: 443 };
    let request = tunnel_init_request(key, "user", destination, true);
    assert!(matches!(&request.agent_encryption, Encryption::Aes(k) if k == &vec![7u8; 32]));
    assert_eq!(request.auth_token, "user");
    assert!(matches!(request.dst_address, UnifiedAddress::Domain { ref host, port: 443 } if host == "example.com"));
    assert!(matches!(request.tunnel_type, ppaass::domain::TunnelType::Tcp { keepalive: true }));
}

#[test]
fn generated_ids_carry_the_version_and_variant() {
    for _ in 0..20 {
        let id = generate_uuid();
        let chars: Vec<char> = id.chars().collect();
        assert_eq!(chars[12], '4');
        assert!(matches!(chars[16], '8' | '9' | 'A' | 'B'));
    }
}

#[test]
fn a_check_round_ends_with_the_earliest_checked_back_in_the_pool() {
    let config = Config::default();
    let mut queue = ConnectionQueue::bounded(2);
    let returned = vec![
        PooledProxyConnection::new_at('x', &config, ts(30, 0)),
        PooledProxyConnection::new_at('y', &config, ts(10, 0)),
        PooledProxyConnection::new_at('z', &config, ts(20, 0)),
    ];
    let dropped = finish_check_round(&mut queue, returned);
    let dropped: Vec<char> = dropped.into_iter().map(|c| c.into_inner()).collect();
    assert_eq!(dropped, vec!['x']);
    assert_eq!(queue.pop().map(|c| c.into_inner()), Ok('y'));
    assert_eq!(queue.pop().map(|c| c.into_inner()), Ok('z'));
}
