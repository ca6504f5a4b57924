//! The agent server's choice of handler for a client connection.
use crate::error::AgentError;
use vstd::prelude::*;

verus! {

/// The first byte of a SOCKS5 greeting.
pub const SOCKS5_VERSION: u8 = 5;

/// The first byte of a SOCKS4 request.
pub const SOCKS4_VERSION: u8 = 4;

/// The protocol a client speaks.
#[derive(Debug, Clone, Copy, PartialEq, Eq, Structural)]
pub enum ClientProtocol {
    Socks5,
    Http,
}

/// The protocol of a client connection, by its first byte: SOCKS5, refused
/// SOCKS4, or else HTTP.
pub fn select_client_protocol(first_byte: u8) -> (r: Result<ClientProtocol, AgentError>)
    ensures
        first_byte == SOCKS5_VERSION ==> r == Ok::<ClientProtocol, AgentError>(ClientProtocol::Socks5),
        first_byte == SOCKS4_VERSION ==> r == Err::<ClientProtocol, AgentError>(
            AgentError::UnsupportedSocksV4Protocol,
        ),
        first_byte != SOCKS5_VERSION && first_byte != SOCKS4_VERSION ==> r == Ok::<
            ClientProtocol,
            AgentError,
        >(ClientProtocol::Http),
{
    if first_byte == SOCKS5_VERSION {
        Ok(ClientProtocol::Socks5)
    } else if first_byte == SOCKS4_VERSION {
        Err(AgentError::UnsupportedSocksV4Protocol)
    } else {
        Ok(ClientProtocol::Http)
    }
}

} // verus!
