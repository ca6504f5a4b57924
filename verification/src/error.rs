//! Error types of the codec, the crypto layer, the common helpers and the agent.
//!
//! Errors that come from I/O, from serialisation or from other services are
//! carried as their rendered message: nothing in the library's logic reads
//! them, it only hands them on.
use vstd::prelude::*;

verus! {

/// Errors raised while encoding or decoding a packet.
#[derive(Debug, Clone, PartialEq, Eq)]
pub enum CodecError {
    /// An I/O or framing error, with its message.
    Io(String),
    /// An encryption or decryption error.
    Crypto(CryptoError),
    /// A (de)serialisation error, with its message.
    Bincode(String),
    /// The status byte of a relay response is none of the known ones.
    InvalidRelayResponseStatusByte(u8),
    /// The relay type byte is none of the known ones.
    InvalidRelayTypeByte(u8),
    /// The packet type byte of a control packet is none of the known ones.
    InvalidAgentPacketByte(u8),
    /// The content length field of a relay frame exceeds the bytes that follow it.
    NotEnoughRemainingBytes(u64),
    /// No encryption is registered under this key.
    EncryptionNotExist(String),
    /// The encryption holder could not be locked.
    EncryptionHolderLock,
}

/// Errors raised by the crypto layer.
#[derive(Debug, Clone, PartialEq, Eq)]
pub enum CryptoError {
    /// An I/O error, with its message.
    Io(String),
    /// An AES error, with its message.
    Aes(String),
    /// An RSA error, with its message.
    Rsa(String),
}

/// Errors raised while setting up logging.
#[derive(Debug, Clone, PartialEq, Eq)]
pub enum CommonError {
    /// An I/O error, with its message.
    Io(String),
    /// The configured log level could not be parsed, with its message.
    ParseLogLevel(String),
}

/// Errors raised by the agent.
#[derive(Debug, Clone, PartialEq, Eq)]
pub enum AgentError {
    /// An I/O error, with its message.
    Io(String),
    /// The client connection gave no byte to choose a protocol by.
    ClientTcpConnectionExhausted,
    /// The client speaks SOCKS4, which the agent does not serve.
    UnsupportedSocksV4Protocol,
    /// The client asked for a SOCKS5 command that the agent does not serve.
    UnsupportedSocksV5Command(String),
    /// An HTTP client error, with its message.
    HttpClient(String),
    /// A websocket error, with its message.
    HttpClientWebSocket(String),
    /// A crypto error.
    Crypto(CryptoError),
    /// A codec error.
    Codec(CodecError),
    /// No RSA key pair is registered for this user token.
    RsaCryptoNotExist(String),
    /// A relay description could not be built, with its message.
    RelayInfoBuilder(String),
    /// A domain error, with its message.
    Domain(String),
    /// An HTTP message could not be encoded or decoded, with its message.
    ByteCodec(String),
    /// A URL could not be parsed, with its message.
    ParseUrl(String),
    /// The target URL has no host; the URL is carried.
    UnknownHostFromTargetUrl(String),
    /// The relay websocket could not be upgraded, with the reason.
    RelayWebSocketUpgrade(String),
    /// The agent session could not be locked.
    AgentSessionLock,
    /// The server state could not be built, with its message.
    ServerStateBuilder(String),
    /// A connection pool error, with its message.
    ProxyConnectionPool(String),
    /// The proxy connection was closed.
    ProxyConnectionExhausted,
    /// The proxy sent a packet of a kind that is not expected here.
    InvalidProxyDataType,
    /// A socket address could not be parsed, with its message.
    AddrParse(String),
    /// Any other error, with its message.
    Unknown(String),
    /// Connecting to the proxy timed out, with its message.
    ConnectProxyTimeout(String),
    /// The proxy connection did not answer a heartbeat in time.
    UnhealthyProxyConnection,
}

} // verus!
