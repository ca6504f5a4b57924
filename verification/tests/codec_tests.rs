use ppaass::control::{AgentControlPacketDecoder, AgentControlPacketEncoder, ControlPacketKind, ProxyControlPacketDecoder, ProxyControlPacketEncoder};
use ppaass::data::{AgentDataPacketDecoder, AgentDataPacketEncoder, ProxyDataPacketDecoder, ProxyDataPacketEncoder};
use ppaass::domain::Encryption;
use ppaass::error::CodecError;
use ppaass::frame::{FrameCodec, MAX_FRAME_LENGTH};
use ppaass::heartbeat::{HeartbeatPingDecoder, HeartbeatPingEncoder};
use ppaass::packet::PpaassPacketCodec;
use ppaass::relay::{
    read_relay_request, read_relay_response, relay_request_frame_readable, relay_response_frame_readable,
    RelayRequestDecoder, RelayRequestEncoder, RelayResponseDecoder, RelayResponseEncoder, RelayResponseStatus,
    RelayType,
};
use ppaass::domain::{TunnelInitRequest, TunnelInitResponse, TunnelType, UnifiedAddress};
use ppaass::error::CryptoError;
use ppaass::holder::{AesCrypto, EncryptionHolder, RsaCrypto, RsaCryptoHolder};
use ppaass::session::{SessionInitRequestDecoder, SessionInitRequestEncoder, SessionInitResponseDecoder, SessionInitResponseEncoder};
use ppaass::tunnel::{TunnelInitRequestDecoder, TunnelInitRequestEncoder, TunnelInitResponseDecoder, TunnelInitResponseEncoder};
use std::sync::Arc;

/// Session encryptions by token.
struct Sessions(Vec<(String, Encryption)>);

impl EncryptionHolder for Sessions {
    fn get_encryption(&self, encryption_key: &str) -> Result<Option<Arc<Encryption>>, CodecError> {
        Ok(self.0.iter().find(|(k, _)| k == encryption_key).map(|(_, e)| Arc::new(e.clone())))
    }
}

/// A store whose lookups always fail.
struct BrokenStore;

impl EncryptionHolder for BrokenStore {
    fn get_encryption(&self, _encryption_key: &str) -> Result<Option<Arc<Encryption>>, CodecError> {
        Err(CodecError::EncryptionHolderLock)
    }
}

/// A toy cipher: each byte exclusive-or'ed with the key's bytes in turn.
struct XorAes;

impl AesCrypto for XorAes {
    fn encrypt_with_aes(&self, key: &Vec<u8>, data: &[u8]) -> Result<Vec<u8>, CryptoError> {
        Ok(data.iter().enumerate().map(|(i, b)| b ^ key[i % key.len()]).collect())
    }

    fn decrypt_with_aes(&self, key: &Vec<u8>, data: &[u8]) -> Result<Vec<u8>, CryptoError> {
        self.encrypt_with_aes(key, data)
    }
}

/// A toy key pair: sealing reverses the bytes and prepends a marker byte.
struct ToyRsa;

impl RsaCrypto for ToyRsa {
    fn encrypt(&self, data: &Vec<u8>) -> Result<Vec<u8>, CryptoError> {
        let mut v: Vec<u8> = data.iter().rev().cloned().collect();
        v.insert(0, 0xAB);
        Ok(v)
    }

    fn decrypt(&self, data: &Vec<u8>) -> Result<Vec<u8>, CryptoError> {
        if data.first() != Some(&0xAB) {
            return Err(CryptoError::Rsa("not sealed".to_string()));
        }
        Ok(data[1..].iter().rev().cloned().collect())
    }
}

/// Key pairs of the listed users.
struct Keys(Vec<String>);

impl RsaCryptoHolder for Keys {
    type Crypto = ToyRsa;

    fn get_rsa_crypto(&self, auth_token: &str) -> Result<Option<Arc<ToyRsa>>, CodecError> {
        Ok(self.0.iter().find(|u| u.as_str() == auth_token).map(|_| Arc::new(ToyRsa)))
    }
}

fn plain_session(token: &str) -> Sessions {
    Sessions(vec![(token.to_string(), Encryption::Plain)])
}

#[test]
fn frame_has_big_endian_length_header() {
    let mut codec = FrameCodec::new();
    let mut dst = vec![9u8];
    codec.encode(b"hello", &mut dst).unwrap();
    assert_eq!(dst, vec![9, 0, 0, 0, 5, b'h', b'e', b'l', b'l', b'o']);
}

#[test]
fn frame_roundtrip_leaves_following_bytes() {
    let mut encoder = FrameCodec::new();
    let mut buf = Vec::new();
    encoder.encode(&[1, 2, 3], &mut buf).unwrap();
    buf.extend_from_slice(&[7, 7]);
    let mut decoder = FrameCodec::new();
    assert_eq!(decoder.decode(&mut buf).unwrap(), Some(vec![1, 2, 3]));
    assert_eq!(buf, vec![7, 7]);
}

#[test]
fn frame_split_delivery_gives_same_payload() {
    let mut encoder = FrameCodec::new();
    let mut whole = Vec::new();
    encoder.encode(&[10, 20, 30, 40], &mut whole).unwrap();
    for k in 0..whole.len() {
        let mut decoder = FrameCodec::new();
        let mut buf = whole[..k].to_vec();
        assert_eq!(decoder.decode(&mut buf).unwrap(), None);
        buf.extend_from_slice(&whole[k..]);
        assert_eq!(decoder.decode(&mut buf).unwrap(), Some(vec![10, 20, 30, 40]));
        assert!(buf.is_empty());
    }
}

#[test]
fn frame_over_limit_is_refused_both_ways() {
    let mut codec = FrameCodec::new();
    let mut dst = vec![1u8];
    let big = vec![0u8; MAX_FRAME_LENGTH + 1];
    assert!(codec.encode(&big, &mut dst).is_err());
    assert_eq!(dst, vec![1u8]);
    let mut src = vec![0x00, 0x80, 0x00, 0x01, 0xAA];
    let mut decoder = FrameCodec::new();
    assert!(matches!(decoder.decode(&mut src), Err(CodecError::Io(_))));
    assert_eq!(src, vec![0x00, 0x80, 0x00, 0x01, 0xAA]);
}

#[test]
fn frame_of_exactly_the_limit_is_accepted() {
    let mut codec = FrameCodec::new();
    let mut dst = Vec::new();
    let payload = vec![3u8; MAX_FRAME_LENGTH];
    codec.encode(&payload, &mut dst).unwrap();
    assert_eq!(&dst[..4], &[0x00, 0x80, 0x00, 0x00]);
    let mut decoder = FrameCodec::new();
    assert_eq!(decoder.decode(&mut dst).unwrap().map(|v| v.len()), Some(MAX_FRAME_LENGTH));
}

#[test]
fn relay_request_layout_and_roundtrip() {
    let mut encoder = RelayRequestEncoder::new();
    let mut dst = Vec::new();
    encoder.encode(&plain_session("tok"), &XorAes, "tok", RelayType::Udp, &[0xEE, 0xFF], &mut dst).unwrap();
    let expected_payload: Vec<u8> = vec![0, 0, 0, 0, 0, 0, 0, 3, b't', b'o', b'k', 1, 0, 0, 0, 0, 0, 0, 0, 2, 0xEE, 0xFF];
    let mut expected = vec![0, 0, 0, expected_payload.len() as u8];
    expected.extend_from_slice(&expected_payload);
    assert_eq!(dst, expected);
    let mut decoder = RelayRequestDecoder::new();
    let frame = decoder.decode_frame(&mut dst).unwrap().unwrap();
    assert!(relay_request_frame_readable(&frame));
    let request = read_relay_request(&frame).unwrap();
    assert_eq!(request.session_token, "tok");
    assert_eq!(request.relay_type, RelayType::Udp);
    assert_eq!(request.content, vec![0xEE, 0xFF]);
}

#[test]
fn relay_request_with_unicode_token_roundtrips() {
    let mut encoder = RelayRequestEncoder::new();
    let mut dst = Vec::new();
    encoder.encode(&plain_session("héllo✓"), &XorAes, "héllo✓", RelayType::Tcp, b"payload", &mut dst).unwrap();
    let mut decoder = RelayRequestDecoder::new();
    let frame = decoder.decode_frame(&mut dst).unwrap().unwrap();
    let request = read_relay_request(&frame).unwrap();
    assert_eq!(request.session_token, "héllo✓");
    assert_eq!(request.relay_type, RelayType::Tcp);
    assert_eq!(request.content, b"payload".to_vec());
}

#[test]
fn relay_request_errors() {
    let bad_type = vec![0, 0, 0, 0, 0, 0, 0, 1, b'a', 9];
    assert!(relay_request_frame_readable(&bad_type));
    assert_eq!(read_relay_request(&bad_type).unwrap_err(), CodecError::InvalidRelayTypeByte(9));
    let short_content = vec![0, 0, 0, 0, 0, 0, 0, 1, b'a', 0, 0, 0, 0, 0, 0, 0, 0, 5, 1, 2];
    assert!(relay_request_frame_readable(&short_content));
    assert_eq!(read_relay_request(&short_content).unwrap_err(), CodecError::NotEnoughRemainingBytes(5));
    assert!(!relay_request_frame_readable(&[0, 0, 0]));
    assert!(!relay_request_frame_readable(&[0, 0, 0, 0, 0, 0, 0, 9, b'a']));
    assert!(!relay_request_frame_readable(&[0, 0, 0, 0, 0, 0, 0, 1, b'a', 0, 0, 0]));
}

#[test]
fn relay_request_keeps_trailing_content_bytes() {
    let frame = vec![0, 0, 0, 0, 0, 0, 0, 0, 1, 0, 0, 0, 0, 0, 0, 0, 1, 4, 5, 6];
    let request = read_relay_request(&frame).unwrap();
    assert_eq!(request.session_token, "");
    assert_eq!(request.content, vec![4, 5, 6]);
}

#[test]
fn relay_request_token_is_read_lossily() {
    let frame = vec![0, 0, 0, 0, 0, 0, 0, 1, 0xFF, 0, 0, 0, 0, 0, 0, 0, 0, 0];
    let request = read_relay_request(&frame).unwrap();
    assert_eq!(request.session_token, "\u{FFFD}");
}

#[test]
fn relay_response_layout_and_errors() {
    let mut encoder = RelayResponseEncoder::new();
    let mut dst = Vec::new();
    encoder
        .encode(&plain_session("s"), &XorAes, "s", RelayResponseStatus::DestinationUnreachable, RelayType::Tcp, &[7], &mut dst)
        .unwrap();
    assert_eq!(&dst[4..], &[0, 0, 0, 0, 0, 0, 0, 1, b's', 2, 0, 0, 0, 0, 0, 0, 0, 0, 1, 7]);
    let mut decoder = RelayResponseDecoder::new();
    let frame = decoder.decode_frame(&mut dst).unwrap().unwrap();
    assert!(relay_response_frame_readable(&frame));
    let response = read_relay_response(&frame).unwrap();
    assert_eq!(response.session_token, "s");
    assert_eq!(response.status, RelayResponseStatus::DestinationUnreachable);
    assert_eq!(response.relay_type, RelayType::Tcp);
    assert_eq!(response.content, vec![7]);
    let bad_status = vec![0, 0, 0, 0, 0, 0, 0, 0, 3];
    assert!(relay_response_frame_readable(&bad_status));
    assert_eq!(read_relay_response(&bad_status).unwrap_err(), CodecError::InvalidRelayResponseStatusByte(3));
    let bad_type = vec![0, 0, 0, 0, 0, 0, 0, 0, 1, 2];
    assert_eq!(read_relay_response(&bad_type).unwrap_err(), CodecError::InvalidRelayTypeByte(2));
    let short = vec![0, 0, 0, 0, 0, 0, 0, 0, 0, 0, 0, 0, 0, 0, 0, 0, 0, 3, 1];
    assert_eq!(read_relay_response(&short).unwrap_err(), CodecError::NotEnoughRemainingBytes(3));
    assert!(!relay_response_frame_readable(&[0, 0, 0, 0, 0, 0, 0, 0, 0]));
}

#[test]
fn control_packet_roundtrip_and_tags() {
    let mut encoder = AgentControlPacketEncoder::new();
    let mut buf = Vec::new();
    encoder.encode(ControlPacketKind::Heartbeat, &[1, 2], &mut buf).unwrap();
    encoder.encode(ControlPacketKind::TunnelInit, &[3], &mut buf).unwrap();
    assert_eq!(buf, vec![1, 0, 0, 0, 2, 1, 2, 0, 0, 0, 0, 1, 3]);
    let mut decoder = AgentControlPacketDecoder::new();
    assert_eq!(decoder.decode(&mut buf).unwrap(), Some((ControlPacketKind::Heartbeat, vec![1, 2])));
    assert_eq!(decoder.decode(&mut buf).unwrap(), Some((ControlPacketKind::TunnelInit, vec![3])));
    assert_eq!(decoder.decode(&mut buf).unwrap(), None);
}

#[test]
fn control_packet_unknown_tag_is_refused() {
    let mut decoder = ProxyControlPacketDecoder::new("user1".to_string());
    let mut buf = vec![7, 0, 0, 0, 0];
    assert_eq!(decoder.decode(&mut buf).unwrap_err(), CodecError::InvalidAgentPacketByte(7));
    assert_eq!(buf, vec![0, 0, 0, 0]);
    assert_eq!(decoder.auth_token(), "user1");
}

#[test]
fn control_packet_tag_is_taken_before_frame_completes() {
    let mut decoder = AgentControlPacketDecoder::new();
    let mut buf = vec![0, 0, 0];
    assert_eq!(decoder.decode(&mut buf).unwrap(), None);
    assert_eq!(buf, vec![0, 0]);
}

#[test]
fn proxy_control_packet_roundtrip() {
    let mut encoder = ProxyControlPacketEncoder::new();
    let mut buf = Vec::new();
    encoder.encode(ControlPacketKind::TunnelInit, b"resp", &mut buf).unwrap();
    let mut decoder = ProxyControlPacketDecoder::new("u".to_string());
    assert_eq!(decoder.decode(&mut buf).unwrap(), Some((ControlPacketKind::TunnelInit, b"resp".to_vec())));
}

#[test]
fn data_and_framed_codecs_roundtrip() {
    let mut e = AgentDataPacketEncoder::new(Encryption::Aes(vec![1; 32]));
    assert!(matches!(e.encryption(), Encryption::Aes(k) if k.len() == 32));
    let mut buf = Vec::new();
    e.encode(&XorAes, b"abc", &mut buf).unwrap();
    assert_eq!(buf, vec![0, 0, 0, 3, b'a' ^ 1, b'b' ^ 1, b'c' ^ 1]);
    let mut d = AgentDataPacketDecoder::new(Encryption::Aes(vec![1; 32]));
    assert!(matches!(d.encryption(), Encryption::Aes(_)));
    assert_eq!(d.decode(&XorAes, &mut buf).unwrap(), Some(b"abc".to_vec()));
    let mut pe = ProxyDataPacketEncoder::new(Encryption::Plain);
    pe.encode(&XorAes, b"x", &mut buf).unwrap();
    let mut pd = ProxyDataPacketDecoder::new(Encryption::Plain);
    assert!(matches!(pd.encryption(), Encryption::Plain));
    assert_eq!(pd.decode(&XorAes, &mut buf).unwrap(), Some(b"x".to_vec()));
    let mut he = HeartbeatPingEncoder::new();
    he.encode(&[5], &mut buf).unwrap();
    let mut hd = HeartbeatPingDecoder::new();
    assert_eq!(hd.decode(&mut buf).unwrap(), Some(vec![5]));
    let mut te = TunnelInitRequestEncoder::new();
    te.encode(&[6, 6], &mut buf).unwrap();
    let mut td = TunnelInitRequestDecoder::new();
    assert_eq!(td.decode(&mut buf).unwrap(), Some(vec![6, 6]));
    let mut se = SessionInitResponseEncoder::new();
    se.encode(&[], &mut buf).unwrap();
    let mut sd = SessionInitResponseDecoder::new("user".to_string());
    assert_eq!(sd.auth_token(), "user");
    assert_eq!(sd.decode(&mut buf).unwrap(), Some(vec![]));
}

#[test]
fn gzip_packet_roundtrip() {
    let mut codec = PpaassPacketCodec::default();
    let mut buf = Vec::new();
    let packet: Vec<u8> = (0..1000u32).map(|i| (i % 7) as u8).collect();
    codec.encode(&packet, &mut buf).unwrap();
    assert_eq!(&buf[4..6], &[0x1f, 0x8b]);
    let mut decoder = PpaassPacketCodec::default();
    assert_eq!(decoder.decode(&mut buf).unwrap(), Some(packet));
    assert!(buf.is_empty());
}

#[test]
fn gzip_packet_broken_stream_fails() {
    let mut decoder = PpaassPacketCodec::default();
    let mut buf = vec![0, 0, 0, 3, 1, 2, 3];
    assert!(decoder.decode(&mut buf).is_err());
}

#[test]
fn gzip_packet_encoding_is_reproducible() {
    let packet = b"the same packet".to_vec();
    let mut first = Vec::new();
    let mut second = vec![9u8];
    PpaassPacketCodec::default().encode(&packet, &mut first).unwrap();
    PpaassPacketCodec::default().encode(&packet, &mut second).unwrap();
    assert_eq!(second[0], 9);
    assert_eq!(&second[1..], &first[..]);
}

#[test]
fn framing_a_compression_outcome() {
    let mut codec = PpaassPacketCodec::default();
    let mut buf = vec![7u8];
    let failed = codec.encode_compressed(Err(CodecError::Io("broken".to_string())), &mut buf);
    assert_eq!(failed, Err(CodecError::Io("broken".to_string())));
    assert_eq!(buf, vec![7u8]);
    codec.encode_compressed(Ok(vec![1, 2, 3]), &mut buf).unwrap();
    assert_eq!(buf, vec![7u8, 0, 0, 0, 3, 1, 2, 3]);
}

#[test]
fn relay_sessions_are_looked_up_and_content_encrypted() {
    let sessions = Sessions(vec![("t".to_string(), Encryption::Aes(vec![0x0F]))]);
    let mut encoder = RelayRequestEncoder::new();
    let mut dst = vec![9u8];
    let refused = encoder.encode(&sessions, &XorAes, "missing", RelayType::Tcp, b"x", &mut dst);
    assert_eq!(refused, Err(CodecError::EncryptionNotExist("missing".to_string())));
    assert_eq!(dst, vec![9u8]);
    let failed = encoder.encode(&BrokenStore, &XorAes, "t", RelayType::Tcp, b"x", &mut dst);
    assert_eq!(failed, Err(CodecError::EncryptionHolderLock));
    assert_eq!(dst, vec![9u8]);
    encoder.encode(&sessions, &XorAes, "t", RelayType::Tcp, &[0xF0, 0x01], &mut dst).unwrap();
    assert_eq!(&dst[dst.len() - 2..], &[0xFF, 0x0E]);
    let mut decoder = RelayRequestDecoder::new();
    let mut wire = dst[1..].to_vec();
    let frame = decoder.decode_frame(&mut wire).unwrap().unwrap();
    let sealed = read_relay_request(&frame).unwrap();
    assert_eq!(sealed.content, vec![0xFF, 0x0E]);
    let opened = decoder.open(&sessions, &XorAes, sealed.clone()).unwrap();
    assert_eq!(opened.content, vec![0xF0, 0x01]);
    assert_eq!(opened.session_token, "t");
    let unknown = decoder.open(&plain_session("other"), &XorAes, sealed);
    assert_eq!(unknown.unwrap_err(), CodecError::EncryptionNotExist("t".to_string()));
}

#[test]
fn relay_responses_are_sealed_and_opened_per_session() {
    let sessions = Sessions(vec![("s".to_string(), Encryption::Aes(vec![0x55]))]);
    let mut encoder = RelayResponseEncoder::new();
    let mut dst = Vec::new();
    encoder.encode(&sessions, &XorAes, "s", RelayResponseStatus::Success, RelayType::Udp, &[1, 2], &mut dst).unwrap();
    let mut decoder = RelayResponseDecoder::new();
    let frame = decoder.decode_frame(&mut dst).unwrap().unwrap();
    let sealed = read_relay_response(&frame).unwrap();
    assert_eq!(sealed.content, vec![1 ^ 0x55, 2 ^ 0x55]);
    let opened = decoder.open(&sessions, &XorAes, sealed).unwrap();
    assert_eq!(opened.content, vec![1, 2]);
    assert_eq!(opened.status, RelayResponseStatus::Success);
}

#[test]
fn tunnel_keys_are_sealed_with_the_users_key_pair() {
    let keys = Keys(vec!["alice".to_string()]);
    let request = TunnelInitRequest {
        agent_encryption: Encryption::Aes(vec![1, 2, 3]),
        auth_token: "alice".to_string(),
        dst_address: UnifiedAddress::Domain { host: "example.com".to_string(), port: 443 },
        tunnel_type: TunnelType::Tcp { keepalive: true },
    };
    let encoder = TunnelInitRequestEncoder::new();
    let sealed = encoder.seal(&keys, request.clone()).unwrap();
    assert!(matches!(&sealed.agent_encryption, Encryption::Aes(k) if k == &vec![0xAB, 3, 2, 1]));
    let decoder = TunnelInitRequestDecoder::new();
    let opened = decoder.open(&keys, sealed).unwrap();
    assert!(matches!(&opened.agent_encryption, Encryption::Aes(k) if k == &vec![1, 2, 3]));
    assert_eq!(opened.auth_token, "alice");
    let mut bob = request.clone();
    bob.auth_token = "bob".to_string();
    bob.agent_encryption = Encryption::Plain;
    let refused = encoder.seal(&keys, bob).unwrap_err();
    assert_eq!(refused, CodecError::Crypto(CryptoError::Rsa("Rsa crypto not found: bob".to_string())));
    let response_encoder = TunnelInitResponseEncoder::new();
    let sealed = response_encoder.seal(&keys, "alice", TunnelInitResponse { proxy_encryption: Encryption::Aes(vec![7, 8]) }).unwrap();
    let response_decoder = TunnelInitResponseDecoder::new("alice".to_string());
    let opened = response_decoder.open(&keys, sealed).unwrap();
    assert!(matches!(&opened.proxy_encryption, Encryption::Aes(k) if k == &vec![7, 8]));
    let stranger = TunnelInitResponseDecoder::new("carol".to_string());
    let refused = stranger.open(&keys, TunnelInitResponse { proxy_encryption: Encryption::Plain }).unwrap_err();
    assert_eq!(refused, CodecError::Crypto(CryptoError::Rsa("Rsa crypto not found: carol".to_string())));
}

#[test]
fn session_and_control_keys_are_sealed_with_the_users_key_pair() {
    let keys = Keys(vec!["u".to_string()]);
    let sealed = SessionInitRequestEncoder::new().seal_agent_encryption(&keys, "u", Encryption::Aes(vec![4, 5])).unwrap();
    assert!(matches!(&sealed, Encryption::Aes(k) if k == &vec![0xAB, 5, 4]));
    let opened = SessionInitRequestDecoder::new().open_agent_encryption(&keys, "u", sealed).unwrap();
    assert!(matches!(&opened, Encryption::Aes(k) if k == &vec![4, 5]));
    let sealed = SessionInitResponseEncoder::new().seal_proxy_encryption(&keys, "u", Encryption::Plain).unwrap();
    assert!(matches!(sealed, Encryption::Plain));
    let opened = SessionInitResponseDecoder::new("u".to_string()).open_proxy_encryption(&keys, Encryption::Aes(vec![0xAB, 9])).unwrap();
    assert!(matches!(&opened, Encryption::Aes(k) if k == &vec![9]));
    let broken = SessionInitResponseDecoder::new("u".to_string()).open_proxy_encryption(&keys, Encryption::Aes(vec![1]));
    assert_eq!(broken.unwrap_err(), CodecError::Crypto(CryptoError::Rsa("not sealed".to_string())));
    let control = ProxyControlPacketDecoder::new("u".to_string());
    let (token, response) = control
        .open_tunnel_init(&keys, TunnelInitResponse { proxy_encryption: Encryption::Aes(vec![0xAB, 1]) })
        .unwrap();
    assert_eq!(token, "u");
    assert!(matches!(&response.proxy_encryption, Encryption::Aes(k) if k == &vec![1]));
    let sealed = ProxyControlPacketEncoder::new()
        .seal_tunnel_init(&keys, "u", TunnelInitResponse { proxy_encryption: Encryption::Aes(vec![2]) })
        .unwrap();
    assert!(matches!(&sealed.proxy_encryption, Encryption::Aes(k) if k == &vec![0xAB, 2]));
    let request = TunnelInitRequest {
        agent_encryption: Encryption::Plain,
        auth_token: "nobody".to_string(),
        dst_address: UnifiedAddress::Domain { host: "h".to_string(), port: 1 },
        tunnel_type: TunnelType::Tcp { keepalive: false },
    };
    let refused = AgentControlPacketEncoder::new().seal_tunnel_init(&keys, request.clone()).unwrap_err();
    assert_eq!(refused, CodecError::Crypto(CryptoError::Rsa("Rsa crypto not found: nobody".to_string())));
    let refused = AgentControlPacketDecoder::new().open_tunnel_init(&keys, request).unwrap_err();
    assert_eq!(refused, CodecError::Crypto(CryptoError::Rsa("Rsa crypto not found: nobody".to_string())));
}

#[test]
fn oversized_frames_fail_with_an_io_error() {
    let mut codec = FrameCodec::new();
    let mut dst = Vec::new();
    let big = vec![0u8; MAX_FRAME_LENGTH + 1];
    assert!(matches!(codec.encode(&big, &mut dst), Err(CodecError::Io(_))));
    assert!(dst.is_empty());
}

#[test]
fn relay_decoders_read_and_open_in_one_step() {
    let sessions = Sessions(vec![("t".to_string(), Encryption::Aes(vec![0x0F]))]);
    let mut encoder = RelayRequestEncoder::new();
    let mut wire = Vec::new();
    encoder.encode(&sessions, &XorAes, "t", RelayType::Tcp, &[1, 2, 3], &mut wire).unwrap();
    wire.push(0xEE);
    let mut decoder = RelayRequestDecoder::new();
    let request = decoder.decode(&sessions, &XorAes, &mut wire).unwrap().unwrap();
    assert_eq!(request.content, vec![1, 2, 3]);
    assert_eq!(request.session_token, "t");
    assert_eq!(wire, vec![0xEE]);
    let mut response_encoder = RelayResponseEncoder::new();
    let mut wire = Vec::new();
    response_encoder
        .encode(&sessions, &XorAes, "t", RelayResponseStatus::SessionNotFound, RelayType::Udp, &[4], &mut wire)
        .unwrap();
    let mut response_decoder = RelayResponseDecoder::new();
    assert_eq!(response_decoder.decode(&sessions, &XorAes, &mut wire[..3].to_vec()).unwrap().is_none(), true);
    let response = response_decoder.decode(&plain_session("t"), &XorAes, &mut wire);
    assert_eq!(response.unwrap().unwrap().content, vec![4 ^ 0x0F]);
}
