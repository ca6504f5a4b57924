//! The decisions of the agent's client handlers: where an HTTP proxy request
//! goes, which SOCKS5 commands are served, how a tunnel is set up from the
//! proxy's control packets, and how relayed data crosses between the client
//! and the proxy.
use crate::domain::{
    AgentDataPacket, Encryption, ProxyControlPacket, ProxyDataPacket, TunnelInitRequest, TunnelInitResponse, TunnelType,
    UnifiedAddress,
};
use crate::error::AgentError;
use bytecodec::bytes::{BytesEncoder, RemainingBytesDecoder};
use bytecodec::io::IoDecodeExt;
use bytecodec::{EncodeExt, ErrorKind};
use httpcodec::{
    BodyDecoder, BodyEncoder, HttpVersion, ReasonPhrase, RequestDecoder, RequestEncoder, Response, ResponseEncoder,
    StatusCode,
};
use vstd::prelude::*;
use vstd::string::StringExecFns;
use vstd::utf8::encode_utf8;

verus! {

/// The port of an HTTPS destination that names none.
pub const HTTPS_PORT: u16 = 443;

/// The port of an HTTP destination that names none.
pub const HTTP_PORT: u16 = 80;

/// `c` in lower case, for ASCII letters; other characters as they are.
pub open spec fn ascii_lower(c: char) -> char {
    if 'A' <= c && c <= 'Z' {
        ((c as u32) + 32) as char
    } else {
        c
    }
}

/// Whether `method` is `connect` in any mix of cases.
pub open spec fn spec_is_connect_method(method: Seq<char>) -> bool {
    &&& method.len() == 7
    &&& ascii_lower(method[0]) == 'c'
    &&& ascii_lower(method[1]) == 'o'
    &&& ascii_lower(method[2]) == 'n'
    &&& ascii_lower(method[3]) == 'n'
    &&& ascii_lower(method[4]) == 'e'
    &&& ascii_lower(method[5]) == 'c'
    &&& ascii_lower(method[6]) == 't'
}

fn lower_char(c: char) -> (l: char)
    ensures
        l == ascii_lower(c),
{
    if 'A' <= c && c <= 'Z' {
        assert(('a' as u32) <= (c as u32) + 32 <= ('z' as u32));
        ((c as u8) + 32) as char
    } else {
        c
    }
}

/// Whether `method` is `connect` in any mix of cases (no other characters
/// lower-case to the letters of `connect`).
pub fn is_connect_method(method: &str) -> (b: bool)
    ensures
        b == spec_is_connect_method(method@),
{
    if method.unicode_len() != 7 {
        return false;
    }
    lower_char(method.get_char(0)) == 'c' && lower_char(method.get_char(1)) == 'o' && lower_char(
        method.get_char(2),
    ) == 'n' && lower_char(method.get_char(3)) == 'n' && lower_char(method.get_char(4)) == 'e'
        && lower_char(method.get_char(5)) == 'c' && lower_char(method.get_char(6)) == 't'
}

/// What `url::Url::parse` makes of `input`, if it parses: the URL as it
/// serialises, its host, and its port when that is not the scheme's default.
pub uninterp spec fn url_parts(input: Seq<char>) -> Option<(Seq<char>, Option<Seq<char>>, Option<u16>)>;

/// An optional string, by view.
pub open spec fn opt_view(s: Option<String>) -> Option<Seq<char>> {
    match s {
        Some(s) => Some(s@),
        None => None,
    }
}

/// `url::Url::parse`, read out by `to_string`, `host_str` and `port`; a parse
/// error is carried as its message.
#[verifier::external_body]
fn parse_url_parts(input: &str) -> (r: Result<(String, Option<String>, Option<u16>), String>)
    ensures
        r matches Ok((s, h, p)) ==> url_parts(input@) == Some((s@, opt_view(h), p)),
        r is Err ==> url_parts(input@) is None,
{
    match url::Url::parse(input) {
        Ok(url) => Ok((url.to_string(), url.host_str().map(|h| h.to_string()), url.port())),
        Err(e) => Err(e.to_string()),
    }
}

/// The URL that names the destination of an HTTP proxy request: a CONNECT
/// request names it as `host:port`, read as an `https://` URL; any other
/// request names it as an absolute URL.
pub open spec fn http_target_url(method: Seq<char>, request_target: Seq<char>) -> Seq<char> {
    if spec_is_connect_method(method) {
        "https://"@ + request_target
    } else {
        request_target
    }
}

/// The port of a destination that names none: 443 for CONNECT, else 80.
pub open spec fn http_default_port(method: Seq<char>) -> u16 {
    if spec_is_connect_method(method) {
        HTTPS_PORT
    } else {
        HTTP_PORT
    }
}

/// Where an HTTP proxy request goes: the host of its target URL, with the
/// URL's port or else the default port; and whether the request itself is to
/// be forwarded (everything but CONNECT). A target that does not parse as a
/// URL, or parses to one without a host (the URL is carried), is refused.
pub fn http_proxy_destination(method: &str, request_target: &str) -> (r: Result<
    (UnifiedAddress, bool),
    AgentError,
>)
    ensures
        ({
            let parts = url_parts(http_target_url(method@, request_target@));
            &&& parts is None <==> (r matches Err(AgentError::ParseUrl(_)))
            &&& parts matches Some((serialized, None, _)) ==> (r matches Err(
                AgentError::UnknownHostFromTargetUrl(u),
            ) && u@ == serialized)
            &&& parts matches Some((_, Some(h), p)) ==> (r matches Ok(
                (UnifiedAddress::Domain { host, port }, forward),
            ) && host@ == h && port == (match p {
                Some(p) => p,
                None => http_default_port(method@),
            }) && forward == !spec_is_connect_method(method@))
        }),
{
    let connect = is_connect_method(method);
    let parsed = if connect {
        let mut input = String::from_str("https://");
        input.append(request_target);
        parse_url_parts(input.as_str())
    } else {
        parse_url_parts(request_target)
    };
    let (serialized, host, port) = match parsed {
        Ok(parts) => parts,
        Err(message) => {
            return Err(AgentError::ParseUrl(message));
        },
    };
    let host = match host {
        Some(host) => host,
        None => {
            return Err(AgentError::UnknownHostFromTargetUrl(serialized));
        },
    };
    let port = match port {
        Some(port) => port,
        None => if connect {
            HTTPS_PORT
        } else {
            HTTP_PORT
        },
    };
    Ok((UnifiedAddress::Domain { host, port }, !connect))
}

/// What decoding the buffered bytes `buf` as an HTTP request with `bytecodec`'s
/// `decode_exact` (and a fresh `httpcodec` request decoder whose body takes
/// the remaining bytes) gives: nothing while the request is incomplete, a
/// failure when the bytes are no request, or the request's method and target.
pub uninterp spec fn http_request_decoded(buf: Seq<u8>) -> Option<Result<(Seq<char>, Seq<char>), ()>>;

/// What `httpcodec`'s `RequestEncoder::encode_into_bytes` writes for the
/// request decoded from `buf`, or a failure.
pub uninterp spec fn http_request_reencoded(buf: Seq<u8>) -> Result<Seq<u8>, ()>;

/// A decoded HTTP request's method and target, by views.
pub open spec fn http_decode_view(r: Result<Option<(String, String, Result<Vec<u8>, String>)>, String>) -> Option<
    Result<(Seq<char>, Seq<char>), ()>,
> {
    match r {
        Ok(None) => None,
        Err(_) => Some(Err(())),
        Ok(Some((m, t, _))) => Some(Ok((m@, t@))),
    }
}

/// An encoding's bytes, by view.
pub open spec fn encoding_view(e: Result<Vec<u8>, String>) -> Result<Seq<u8>, ()> {
    match e {
        Ok(b) => Ok(b@),
        Err(_) => Err(()),
    }
}

/// `bytecodec`'s `decode_exact` with a fresh `httpcodec::RequestDecoder` over
/// `buf`, and, for a decoded request, its method and target as text and the
/// request encoded again with `RequestEncoder::encode_into_bytes`; an
/// incomplete request gives `Ok(None)`, and errors are carried as messages.
#[verifier::external_body]
fn decode_http_request(buf: &[u8]) -> (r: Result<Option<(String, String, Result<Vec<u8>, String>)>, String>)
    ensures
        http_request_decoded(buf@) == http_decode_view(r),
        r matches Ok(Some((_, _, e))) ==> http_request_reencoded(buf@) == encoding_view(e),
{
    let mut decoder: RequestDecoder<BodyDecoder<RemainingBytesDecoder>> = Default::default();
    match decoder.decode_exact(buf) {
        Ok(request) => {
            let method = request.method().as_str().to_string();
            let target = request.request_target().as_str().to_string();
            let mut encoder = RequestEncoder::<BodyEncoder<BytesEncoder>>::default();
            Ok(Some((method, target, encoder.encode_into_bytes(request).map_err(|e| e.to_string()))))
        },
        Err(e) => match e.kind() {
            ErrorKind::IncompleteDecoding => Ok(None),
            _ => Err(e.to_string()),
        },
    }
}

/// What routing a decoded request with `method`, `target` and re-encoding
/// `encoded` gives. A target that is no URL is refused first. A request that
/// is forwarded (anything but CONNECT) is then encoded again, and a failed
/// encoding fails; only then is a URL without a host refused. Otherwise the
/// destination is the URL's host with its port (or the default port), and a
/// forwarded request carries its encoding as the data to send first.
pub open spec fn route_outcome(
    method: Seq<char>,
    target: Seq<char>,
    encoded: Result<Seq<u8>, ()>,
    r: Result<Option<(UnifiedAddress, Option<Vec<u8>>)>, AgentError>,
) -> bool {
    let parts = url_parts(http_target_url(method, target));
    let forward = !spec_is_connect_method(method);
    match parts {
        None => r matches Err(AgentError::ParseUrl(_)),
        Some((serialized, host, p)) => if forward && encoded is Err {
            r matches Err(AgentError::ByteCodec(_))
        } else {
            match host {
                None => r matches Err(AgentError::UnknownHostFromTargetUrl(u)) && u@ == serialized,
                Some(h) => {
                    let port = match p {
                        Some(p) => p,
                        None => http_default_port(method),
                    };
                    if forward {
                        r matches Ok(Some((UnifiedAddress::Domain { host, port: q }, Some(d)))) && host@ == h
                            && q == port && encoded == Ok::<Seq<u8>, ()>(d@)
                    } else {
                        r matches Ok(Some((UnifiedAddress::Domain { host, port: q }, None))) && host@ == h && q
                            == port
                    }
                },
            }
        },
    }
}

/// Where a routed request goes: to the host of the URL its target names,
/// on the port that URL names, or else on the default port of its kind (443
/// for CONNECT, 80 otherwise); a CONNECT request sends nothing first, any
/// other request its own encoding. This is where [`http_proxy_destination`]
/// sends the same method and target.
pub proof fn lemma_route_destination(
    method: Seq<char>,
    target: Seq<char>,
    encoded: Result<Seq<u8>, ()>,
    r: Result<Option<(UnifiedAddress, Option<Vec<u8>>)>, AgentError>,
)
    requires
        route_outcome(method, target, encoded, r),
    ensures
        r matches Ok(Some((UnifiedAddress::Domain { host, port }, first))) ==> {
            let url = if spec_is_connect_method(method) {
                "https://"@ + target
            } else {
                target
            };
            &&& match url_parts(url) {
                Some((_, named_host, named_port)) => {
                    &&& named_host == Some(host@)
                    &&& port == match named_port {
                        Some(p) => p,
                        None => if spec_is_connect_method(method) {
                            443u16
                        } else {
                            80u16
                        },
                    }
                },
                None => false,
            }
            &&& first is None <==> spec_is_connect_method(method)
            &&& first matches Some(d) ==> encoded == Ok::<Seq<u8>, ()>(d@)
        },
        r matches Ok(Some((a, _))) ==> a is Domain,
{
}

/// Routes an HTTP proxy request from the bytes buffered so far: `Ok(None)`
/// while the request is incomplete; otherwise where it goes and, for a
/// request that is forwarded (anything but CONNECT), the request encoded
/// again, to be sent to the destination first.
pub fn http_request_route(buf: &[u8]) -> (r: Result<Option<(UnifiedAddress, Option<Vec<u8>>)>, AgentError>)
    ensures
        match http_request_decoded(buf@) {
            None => r == Ok::<Option<(UnifiedAddress, Option<Vec<u8>>)>, AgentError>(None),
            Some(Err(_)) => r matches Err(AgentError::ByteCodec(_)),
            Some(Ok((method, target))) => route_outcome(method, target, http_request_reencoded(buf@), r),
        },
{
    let decoded = decode_http_request(buf);
    let (method, target, encoded) = match decoded {
        Ok(None) => {
            return Ok(None);
        },
        Err(message) => {
            return Err(AgentError::ByteCodec(message));
        },
        Ok(Some(request)) => request,
    };
    let forward = !is_connect_method(method.as_str());
    match http_proxy_destination(method.as_str(), target.as_str()) {
        Err(AgentError::ParseUrl(message)) => Err(AgentError::ParseUrl(message)),
        Err(e) => {
            if forward {
                if let Err(message) = encoded {
                    return Err(AgentError::ByteCodec(message));
                }
            }
            Err(e)
        },
        Ok((destination, _)) => {
            if forward {
                match encoded {
                    Ok(bytes) => Ok(Some((destination, Some(bytes)))),
                    Err(message) => Err(AgentError::ByteCodec(message)),
                }
            } else {
                Ok(Some((destination, None)))
            }
        },
    }
}

/// Whether a status code and a reason phrase are accepted by `httpcodec`:
/// a code from 100 to 999, and a phrase of spaces, tabs and visible ASCII
/// characters.
pub open spec fn http_reply_valid(code: u16, reason: Seq<char>) -> bool {
    &&& 100 <= code < 1000
    &&& forall|i: int| 0 <= i < reason.len() ==> is_phrase_char(#[trigger] reason[i])
}

/// A character allowed in a reason phrase: a space, a tab, or a visible
/// ASCII character.
pub open spec fn is_phrase_char(c: char) -> bool {
    c == ' ' || c == '\t' || ('!' <= c && c <= '~')
}

/// The decimal digit `d` (below ten) as a character.
pub open spec fn digit_char(d: int) -> char {
    (d + 48) as char
}

/// The text of an HTTP/1.1 response with status `code`, reason `reason` and
/// an empty body, as `httpcodec` writes it: the status line, then a
/// `Content-Length: 0` header, then the empty line.
pub open spec fn http_reply_text(code: u16, reason: Seq<char>) -> Seq<char> {
    "HTTP/1.1 "@ + seq![
        digit_char((code as int / 100) % 10),
        digit_char((code as int / 10) % 10),
        digit_char(code as int % 10),
        ' ',
    ] + reason + "\r\nContent-Length: 0\r\n\r\n"@
}

/// What encoding a reply with `code` and `reason` gives: the reply's bytes
/// for an accepted code and phrase, an error otherwise.
pub open spec fn reply_outcome(code: u16, reason: Seq<char>, r: Result<Vec<u8>, String>) -> bool {
    if http_reply_valid(code, reason) {
        r matches Ok(b) && b@ == encode_utf8(http_reply_text(code, reason))
    } else {
        r is Err
    }
}

/// `StatusCode::new`, `ReasonPhrase::new` and `Response::new` for HTTP/1.1
/// with an empty body, encoded with `ResponseEncoder::encode_into_bytes`: as
/// `httpcodec`'s source shows, an accepted code and phrase give the status
/// line, a `Content-Length: 0` header and the empty line, and others are
/// refused (errors carried as messages).
#[verifier::external_body]
fn encode_http_reply(code: u16, reason: &str) -> (r: Result<Vec<u8>, String>)
    ensures
        reply_outcome(code, reason@, r),
{
    let status = StatusCode::new(code).map_err(|e| e.to_string())?;
    let reason = ReasonPhrase::new(reason).map_err(|e| e.to_string())?;
    let response = Response::new(HttpVersion::V1_1, status, reason, Vec::<u8>::new());
    let mut encoder = ResponseEncoder::<BodyEncoder<BytesEncoder>>::default();
    encoder.encode_into_bytes(response).map_err(|e| e.to_string())
}

/// The status code of the reply to an accepted CONNECT request.
pub const CONNECT_OK_CODE: u16 = 200;

/// The bytes of the reply to an accepted CONNECT request:
/// `HTTP/1.1 200 Connection Established`, a `Content-Length: 0` header and the
/// empty line.
pub fn connect_established_reply() -> (r: Result<Vec<u8>, AgentError>)
    ensures
        r matches Ok(v) && v@ == encode_utf8(http_reply_text(CONNECT_OK_CODE, "Connection Established"@)),
{
    let reason = "Connection Established";
    proof {
        reveal_strlit("Connection Established");
        assert(http_reply_valid(CONNECT_OK_CODE, reason@));
    }
    match encode_http_reply(CONNECT_OK_CODE, reason) {
        Ok(bytes) => Ok(bytes),
        Err(message) => Err(AgentError::ByteCodec(message)),
    }
}

/// A SOCKS5 command.
#[derive(Debug, Clone, Copy, PartialEq, Eq, Structural)]
pub enum Socks5Command {
    Connect,
    Bind,
    UdpAssociate,
}

/// Whether the agent serves a SOCKS5 command: it serves CONNECT only, and
/// names the command it refuses.
pub fn socks5_command_check(command: Socks5Command) -> (r: Result<(), AgentError>)
    ensures
        command == Socks5Command::Connect ==> r is Ok,
        command == Socks5Command::Bind ==> (r matches Err(AgentError::UnsupportedSocksV5Command(c))
            && c@ == "BIND"@),
        command == Socks5Command::UdpAssociate ==> (r matches Err(
            AgentError::UnsupportedSocksV5Command(c),
        ) && c@ == "UDP_ASSOCIATE"@),
{
    match command {
        Socks5Command::Connect => Ok(()),
        Socks5Command::Bind => Err(AgentError::UnsupportedSocksV5Command("BIND".to_string())),
        Socks5Command::UdpAssociate => Err(
            AgentError::UnsupportedSocksV5Command("UDP_ASSOCIATE".to_string()),
        ),
    }
}

/// The tunnel request that the agent sends to reach `destination_address`:
/// a TCP tunnel (kept alive or not) under AES with the fresh 32-byte
/// `agent_key`, for the user with `auth_token`.
pub fn tunnel_init_request(
    agent_key: [u8; 32],
    auth_token: &str,
    destination_address: UnifiedAddress,
    keepalive: bool,
) -> (r: TunnelInitRequest)
    ensures
        r.agent_encryption matches Encryption::Aes(k) && k@ == agent_key@ && k@.len() == 32,
        r.auth_token@ == auth_token@,
        r.dst_address == destination_address,
        r.tunnel_type == (TunnelType::Tcp { keepalive }),
{
    let mut key: Vec<u8> = Vec::new();
    let mut i: usize = 0;
    while i < 32
        invariant
            i <= 32,
            key@ == agent_key@.take(i as int),
        decreases 32 - i,
    {
        key.push(agent_key[i]);
        assert(agent_key@.take(i + 1) =~= agent_key@.take(i as int).push(agent_key@[i as int]));
        i = i + 1;
    }
    assert(agent_key@.take(32) =~= agent_key@);
    TunnelInitRequest {
        agent_encryption: Encryption::Aes(key),
        auth_token: auth_token.to_string(),
        dst_address: destination_address,
        tunnel_type: TunnelType::Tcp { keepalive },
    }
}

/// What waiting for the proxy's tunnel answer makes of the next thing read
/// from the proxy: the answer ends the wait, a heartbeat is skipped
/// (`Ok(None)`), a read error is passed on, and a closed connection fails.
pub fn on_tunnel_init_reply(next: Option<Result<ProxyControlPacket, AgentError>>) -> (r: Result<
    Option<TunnelInitResponse>,
    AgentError,
>)
    ensures
        next is None ==> r == Err::<Option<TunnelInitResponse>, AgentError>(
            AgentError::ProxyConnectionExhausted,
        ),
        next matches Some(Err(e)) ==> r == Err::<Option<TunnelInitResponse>, AgentError>(e),
        next matches Some(Ok(ProxyControlPacket::TunnelInit((_, response)))) ==> r == Ok::<
            Option<TunnelInitResponse>,
            AgentError,
        >(Some(response)),
        next matches Some(Ok(ProxyControlPacket::Heartbeat(_))) ==> r == Ok::<
            Option<TunnelInitResponse>,
            AgentError,
        >(None),
{
    match next {
        None => Err(AgentError::ProxyConnectionExhausted),
        Some(Err(e)) => Err(e),
        Some(Ok(ProxyControlPacket::TunnelInit((_, response)))) => Ok(Some(response)),
        Some(Ok(ProxyControlPacket::Heartbeat(_))) => Ok(None),
    }
}

/// What a connection check makes of the proxy's answer to a heartbeat: a
/// heartbeat answer means the connection is healthy, a tunnel answer is the
/// wrong kind, a read error is passed on, and a closed connection fails.
pub fn on_heartbeat_reply(next: Option<Result<ProxyControlPacket, AgentError>>) -> (r: Result<(), AgentError>)
    ensures
        next is None ==> r == Err::<(), AgentError>(AgentError::ProxyConnectionExhausted),
        next matches Some(Err(e)) ==> r == Err::<(), AgentError>(e),
        next matches Some(Ok(ProxyControlPacket::TunnelInit(_))) ==> r == Err::<(), AgentError>(
            AgentError::InvalidProxyDataType,
        ),
        next matches Some(Ok(ProxyControlPacket::Heartbeat(_))) ==> r is Ok,
{
    match next {
        None => Err(AgentError::ProxyConnectionExhausted),
        Some(Err(e)) => Err(e),
        Some(Ok(ProxyControlPacket::TunnelInit(_))) => Err(AgentError::InvalidProxyDataType),
        Some(Ok(ProxyControlPacket::Heartbeat(_))) => Ok(()),
    }
}

/// The data packet that carries bytes read from the client to the proxy.
pub fn client_data_to_proxy(data: Vec<u8>) -> (p: AgentDataPacket)
    ensures
        p matches AgentDataPacket::Tcp(d) && d@ == data@,
{
    AgentDataPacket::Tcp(data)
}

/// The bytes that a data packet from the proxy carries to the client: only
/// TCP data is relayed; a UDP packet is the wrong kind.
pub fn proxy_data_to_client(packet: ProxyDataPacket) -> (r: Result<Vec<u8>, AgentError>)
    ensures
        packet matches ProxyDataPacket::Tcp(d) ==> (r matches Ok(v) && v@ == d@),
        packet is Udp ==> r == Err::<Vec<u8>, AgentError>(AgentError::InvalidProxyDataType),
{
    match packet {
        ProxyDataPacket::Tcp(data) => Ok(data),
        ProxyDataPacket::Udp { .. } => Err(AgentError::InvalidProxyDataType),
    }
}

} // verus!
