//! Control packet codecs: a packet type byte (0 for a tunnel init packet, 1
//! for a heartbeat) followed by the frame of the serialised packet body.
use crate::domain::{AgentControlPacket, ProxyControlPacket, TunnelInitRequest, TunnelInitResponse};
use crate::holder::RsaCryptoHolder;
use crate::seal::seal_or_open;
use crate::error::CodecError;
use crate::frame::{decode_step, frame_written, framed, lemma_frame_roundtrip, DecodeStep, MAX_FRAME_LENGTH};
use crate::heartbeat::{HeartbeatPingDecoder, HeartbeatPingEncoder, HeartbeatPongDecoder, HeartbeatPongEncoder};
use crate::seal::{keys_match, same_encryption};
use crate::tunnel::{
    lemma_request_seal_roundtrip, lemma_response_seal_roundtrip, request_sealed, response_sealed, TunnelInitRequestDecoder, TunnelInitRequestEncoder, TunnelInitResponseDecoder,
    TunnelInitResponseEncoder,
};
use vstd::prelude::*;

verus! {

/// The kind of a control packet.
#[derive(Debug, Clone, Copy, PartialEq, Eq, Structural)]
pub enum ControlPacketKind {
    TunnelInit,
    Heartbeat,
}

/// The packet type byte of a control packet kind.
pub open spec fn control_tag(kind: ControlPacketKind) -> u8 {
    match kind {
        ControlPacketKind::TunnelInit => 0,
        ControlPacketKind::Heartbeat => 1,
    }
}

/// The kind of an agent control packet.
pub fn agent_control_packet_kind(packet: &AgentControlPacket) -> (k: ControlPacketKind)
    ensures
        (packet is TunnelInit) <==> (k == ControlPacketKind::TunnelInit),
{
    match packet {
        AgentControlPacket::TunnelInit(_) => ControlPacketKind::TunnelInit,
        AgentControlPacket::Heartbeat(_) => ControlPacketKind::Heartbeat,
    }
}

/// The kind of a proxy control packet.
pub fn proxy_control_packet_kind(packet: &ProxyControlPacket) -> (k: ControlPacketKind)
    ensures
        (packet is TunnelInit) <==> (k == ControlPacketKind::TunnelInit),
{
    match packet {
        ProxyControlPacket::TunnelInit(_) => ControlPacketKind::TunnelInit,
        ProxyControlPacket::Heartbeat(_) => ControlPacketKind::Heartbeat,
    }
}

/// A decoded control packet, by views: its kind and its serialised body.
pub open spec fn control_view(r: Result<Option<(ControlPacketKind, Vec<u8>)>, CodecError>) -> Result<
    Option<(ControlPacketKind, Seq<u8>)>,
    (),
> {
    match r {
        Ok(Some((k, v))) => Ok(Some((k, v@))),
        Ok(None) => Ok(None),
        Err(_) => Err(()),
    }
}

/// A frame decode step's outcome, with the packet kind attached to the body.
pub open spec fn tagged(kind: ControlPacketKind, o: Result<Option<Seq<u8>>, ()>) -> Result<
    Option<(ControlPacketKind, Seq<u8>)>,
    (),
> {
    match o {
        Ok(Some(v)) => Ok(Some((kind, v))),
        Ok(None) => Ok(None),
        Err(()) => Err(()),
    }
}

/// What decoding a control packet did: with an empty buffer nothing; else it
/// took the type byte off the front, and for a known kind took one decode
/// step of that kind's frame decoder on the rest (`tunnel` and `heartbeat` are
/// the two steps, `outcome` and `left` what came of them), and for an unknown
/// byte failed.
pub open spec fn control_decoded(
    src: Seq<u8>,
    tunnel: DecodeStep,
    heartbeat: DecodeStep,
    r: Result<Option<(ControlPacketKind, Vec<u8>)>, CodecError>,
    left: Seq<u8>,
) -> bool {
    if src.len() == 0 {
        r == Ok::<Option<(ControlPacketKind, Vec<u8>)>, CodecError>(None) && left == src
    } else if src[0] == 0 {
        control_view(r) == tagged(ControlPacketKind::TunnelInit, tunnel.0) && left == tunnel.2
    } else if src[0] == 1 {
        control_view(r) == tagged(ControlPacketKind::Heartbeat, heartbeat.0) && left == heartbeat.2
    } else {
        r == Err::<Option<(ControlPacketKind, Vec<u8>)>, CodecError>(
            CodecError::InvalidAgentPacketByte(src[0]),
        ) && left == src.skip(1)
    }
}

/// What a control packet encoder writes, a control packet decoder whose
/// frame decoders wait for headers reads back: the same kind and body, ahead
/// of any further bytes.
pub proof fn lemma_control_roundtrip(
    kind: ControlPacketKind,
    body: Seq<u8>,
    rest: Seq<u8>,
    r: Result<Option<(ControlPacketKind, Vec<u8>)>, CodecError>,
    left: Seq<u8>,
)
    requires
        body.len() <= MAX_FRAME_LENGTH,
        ({
            let s = seq![control_tag(kind)] + framed(body) + rest;
            control_decoded(s, decode_step(None, s.skip(1)), decode_step(None, s.skip(1)), r, left)
        }),
    ensures
        control_view(r) == Ok::<Option<(ControlPacketKind, Seq<u8>)>, ()>(Some((kind, body))),
        left == rest,
{
    let s = seq![control_tag(kind)] + framed(body) + rest;
    assert(s.skip(1) =~= framed(body) + rest);
    lemma_frame_roundtrip(body, rest);
}

/// Encodes the agent's control packets.
pub struct AgentControlPacketEncoder {
    tunnel_init_request_encoder: TunnelInitRequestEncoder,
    heartbeat_ping_encoder: HeartbeatPingEncoder,
}

impl AgentControlPacketEncoder {
    /// The payload length the tunnel encoder's frame codec waits for.
    pub closed spec fn tunnel_pending(&self) -> Option<usize> {
        self.tunnel_init_request_encoder.pending()
    }

    /// The payload length the heartbeat encoder's frame codec waits for.
    pub closed spec fn heartbeat_pending(&self) -> Option<usize> {
        self.heartbeat_ping_encoder.pending()
    }

    /// An encoder over fresh tunnel and heartbeat encoders.
    pub fn new() -> (e: Self)
        ensures
            e.tunnel_pending() == None::<usize>,
            e.heartbeat_pending() == None::<usize>,
    {
        AgentControlPacketEncoder {
            tunnel_init_request_encoder: TunnelInitRequestEncoder::new(),
            heartbeat_ping_encoder: HeartbeatPingEncoder::new(),
        }
    }

    /// A tunnel request as the packet carries it: the agent's AES key sealed
    /// with the key pair of the request's user, by the tunnel encoder.
    pub fn seal_tunnel_init<H: RsaCryptoHolder>(&self, holder: &H, request: TunnelInitRequest) -> (r: Result<TunnelInitRequest, CodecError>)
        ensures
            request_sealed(holder, true, request, r),
    {
        self.tunnel_init_request_encoder.seal(holder, request)
    }

    /// Appends the packet type byte of `kind` to `dst`, then the frame of the
    /// serialised packet body (which, if over the frame limit, is refused
    /// after the type byte was written).
    pub fn encode(&mut self, kind: ControlPacketKind, body: &[u8], dst: &mut Vec<u8>) -> (r: Result<
        (),
        CodecError,
    >)
        ensures
            frame_written(body@, old(dst)@.push(control_tag(kind)), r, final(dst)@),
    {
        match kind {
            ControlPacketKind::TunnelInit => {
                dst.push(0);
                self.tunnel_init_request_encoder.encode(body, dst)
            },
            ControlPacketKind::Heartbeat => {
                dst.push(1);
                self.heartbeat_ping_encoder.encode(body, dst)
            },
        }
    }
}

/// Encodes the proxy's control packets.
pub struct ProxyControlPacketEncoder {
    tunnel_init_response_encoder: TunnelInitResponseEncoder,
    heartbeat_pong_encoder: HeartbeatPongEncoder,
}

impl ProxyControlPacketEncoder {
    /// The payload length the tunnel encoder's frame codec waits for.
    pub closed spec fn tunnel_pending(&self) -> Option<usize> {
        self.tunnel_init_response_encoder.pending()
    }

    /// The payload length the heartbeat encoder's frame codec waits for.
    pub closed spec fn heartbeat_pending(&self) -> Option<usize> {
        self.heartbeat_pong_encoder.pending()
    }

    /// An encoder over fresh tunnel and heartbeat encoders.
    pub fn new() -> (e: Self)
        ensures
            e.tunnel_pending() == None::<usize>,
            e.heartbeat_pending() == None::<usize>,
    {
        ProxyControlPacketEncoder {
            tunnel_init_response_encoder: TunnelInitResponseEncoder::new(),
            heartbeat_pong_encoder: HeartbeatPongEncoder::new(),
        }
    }

    /// A tunnel answer to the user with `auth_token` as the packet carries
    /// it: the proxy's AES key sealed with that user's key pair.
    pub fn seal_tunnel_init<H: RsaCryptoHolder>(&self, holder: &H, auth_token: &str, response: TunnelInitResponse) -> (r: Result<TunnelInitResponse, CodecError>)
        ensures
            response_sealed(holder, auth_token@, true, response, r),
    {
        self.tunnel_init_response_encoder.seal(holder, auth_token, response)
    }

    /// Appends the packet type byte of `kind` to `dst`, then the frame of the
    /// serialised packet body (which, if over the frame limit, is refused
    /// after the type byte was written).
    pub fn encode(&mut self, kind: ControlPacketKind, body: &[u8], dst: &mut Vec<u8>) -> (r: Result<
        (),
        CodecError,
    >)
        ensures
            frame_written(body@, old(dst)@.push(control_tag(kind)), r, final(dst)@),
    {
        match kind {
            ControlPacketKind::TunnelInit => {
                dst.push(0);
                self.tunnel_init_response_encoder.encode(body, dst)
            },
            ControlPacketKind::Heartbeat => {
                dst.push(1);
                self.heartbeat_pong_encoder.encode(body, dst)
            },
        }
    }
}

/// Decodes the agent's control packets; used by the proxy.
pub struct AgentControlPacketDecoder {
    tunnel_init_request_decoder: TunnelInitRequestDecoder,
    heartbeat_ping_decoder: HeartbeatPingDecoder,
}

impl AgentControlPacketDecoder {
    /// The payload length the tunnel request decoder still waits for.
    pub closed spec fn tunnel_pending(&self) -> Option<usize> {
        self.tunnel_init_request_decoder.pending()
    }

    /// The payload length the heartbeat decoder still waits for.
    pub closed spec fn heartbeat_pending(&self) -> Option<usize> {
        self.heartbeat_ping_decoder.pending()
    }

    pub fn new() -> (d: Self)
        ensures
            d.tunnel_pending() == None::<usize>,
            d.heartbeat_pending() == None::<usize>,
    {
        AgentControlPacketDecoder {
            tunnel_init_request_decoder: TunnelInitRequestDecoder::new(),
            heartbeat_ping_decoder: HeartbeatPingDecoder::new(),
        }
    }

    /// A tunnel request as read from a packet, with the agent's AES key
    /// opened with the key pair of the request's user.
    pub fn open_tunnel_init<H: RsaCryptoHolder>(&self, holder: &H, request: TunnelInitRequest) -> (r: Result<TunnelInitRequest, CodecError>)
        ensures
            request_sealed(holder, false, request, r),
    {
        self.tunnel_init_request_decoder.open(holder, request)
    }

    /// Takes the next control packet's type byte off `src` and then the
    /// frame of its body, once it is all buffered; the type byte is taken
    /// even when the frame is not complete yet.
    pub fn decode(&mut self, src: &mut Vec<u8>) -> (r: Result<Option<(ControlPacketKind, Vec<u8>)>, CodecError>)
        ensures
            old(src)@.len() > 0 && old(src)@[0] <= 1 ==> (r matches Err(e) ==> e is Io),
            ({
                let s = old(src)@;
                let tunnel = decode_step(old(self).tunnel_pending(), s.skip(1));
                let heartbeat = decode_step(old(self).heartbeat_pending(), s.skip(1));
                &&& control_decoded(s, tunnel, heartbeat, r, final(src)@)
                &&& final(self).tunnel_pending() == if s.len() > 0 && s[0] == 0 {
                    tunnel.1
                } else {
                    old(self).tunnel_pending()
                }
                &&& final(self).heartbeat_pending() == if s.len() > 0 && s[0] == 1 {
                    heartbeat.1
                } else {
                    old(self).heartbeat_pending()
                }
            }),
    {
        if src.len() < 1 {
            return Ok(None);
        }
        let ghost s = src@;
        let packet_type = src.remove(0);
        assert(src@ =~= s.skip(1));
        if packet_type == 0 {
            match self.tunnel_init_request_decoder.decode(src) {
                Ok(Some(body)) => Ok(Some((ControlPacketKind::TunnelInit, body))),
                Ok(None) => Ok(None),
                Err(e) => Err(e),
            }
        } else if packet_type == 1 {
            match self.heartbeat_ping_decoder.decode(src) {
                Ok(Some(body)) => Ok(Some((ControlPacketKind::Heartbeat, body))),
                Ok(None) => Ok(None),
                Err(e) => Err(e),
            }
        } else {
            Err(CodecError::InvalidAgentPacketByte(packet_type))
        }
    }
}

/// Decodes the proxy's control packets for one user; used by the agent. A
/// tunnel answer belongs to the decoder's auth token.
pub struct ProxyControlPacketDecoder {
    tunnel_init_response_decoder: TunnelInitResponseDecoder,
    heartbeat_pong_decoder: HeartbeatPongDecoder,
    auth_token: String,
}

impl ProxyControlPacketDecoder {
    /// The payload length the tunnel response decoder still waits for.
    pub closed spec fn tunnel_pending(&self) -> Option<usize> {
        self.tunnel_init_response_decoder.pending()
    }

    /// The payload length the heartbeat decoder still waits for.
    pub closed spec fn heartbeat_pending(&self) -> Option<usize> {
        self.heartbeat_pong_decoder.pending()
    }

    /// The auth token of the user whose answers this decoder reads.
    pub closed spec fn spec_auth_token(&self) -> Seq<char> {
        self.auth_token@
    }

    /// The auth token of the user whose answers this decoder reads.
    pub fn auth_token(&self) -> (t: &str)
        ensures
            t@ == self.spec_auth_token(),
    {
        self.auth_token.as_str()
    }

    pub fn new(auth_token: String) -> (d: Self)
        ensures
            d.tunnel_pending() == None::<usize>,
            d.heartbeat_pending() == None::<usize>,
            d.spec_auth_token() == auth_token@,
    {
        ProxyControlPacketDecoder {
            tunnel_init_response_decoder: TunnelInitResponseDecoder::new(auth_token.clone()),
            heartbeat_pong_decoder: HeartbeatPongDecoder::new(),
            auth_token,
        }
    }

    /// A tunnel answer as read from a packet, with the proxy's AES key
    /// opened with the key pair of this decoder's own user; the packet pairs
    /// it with that user's token.
    pub fn open_tunnel_init<H: RsaCryptoHolder>(&self, holder: &H, response: TunnelInitResponse) -> (r: Result<(String, TunnelInitResponse), CodecError>)
        ensures
            r matches Ok((t, p)) ==> t@ == self.spec_auth_token() && response_sealed(
                holder,
                self.spec_auth_token(),
                false,
                response,
                Ok(p),
            ),
            r matches Err(e) ==> response_sealed(holder, self.spec_auth_token(), false, response, Err(e)),
    {
        match seal_or_open(holder, self.auth_token.as_str(), false, response.proxy_encryption) {
            Ok(proxy_encryption) => Ok((self.auth_token.clone(), TunnelInitResponse { proxy_encryption })),
            Err(e) => Err(e),
        }
    }

    /// Takes the next control packet's type byte off `src` and then the
    /// frame of its body, once it is all buffered; the type byte is taken
    /// even when the frame is not complete yet.
    pub fn decode(&mut self, src: &mut Vec<u8>) -> (r: Result<Option<(ControlPacketKind, Vec<u8>)>, CodecError>)
        ensures
            old(src)@.len() > 0 && old(src)@[0] <= 1 ==> (r matches Err(e) ==> e is Io),
            ({
                let s = old(src)@;
                let tunnel = decode_step(old(self).tunnel_pending(), s.skip(1));
                let heartbeat = decode_step(old(self).heartbeat_pending(), s.skip(1));
                &&& control_decoded(s, tunnel, heartbeat, r, final(src)@)
                &&& final(self).tunnel_pending() == if s.len() > 0 && s[0] == 0 {
                    tunnel.1
                } else {
                    old(self).tunnel_pending()
                }
                &&& final(self).heartbeat_pending() == if s.len() > 0 && s[0] == 1 {
                    heartbeat.1
                } else {
                    old(self).heartbeat_pending()
                }
                &&& final(self).spec_auth_token() == old(self).spec_auth_token()
            }),
    {
        if src.len() < 1 {
            return Ok(None);
        }
        let ghost s = src@;
        let packet_type = src.remove(0);
        assert(src@ =~= s.skip(1));
        if packet_type == 0 {
            match self.tunnel_init_response_decoder.decode(src) {
                Ok(Some(body)) => Ok(Some((ControlPacketKind::TunnelInit, body))),
                Ok(None) => Ok(None),
                Err(e) => Err(e),
            }
        } else if packet_type == 1 {
            match self.heartbeat_pong_decoder.decode(src) {
                Ok(Some(body)) => Ok(Some((ControlPacketKind::Heartbeat, body))),
                Ok(None) => Ok(None),
                Err(e) => Err(e),
            }
        } else {
            Err(CodecError::InvalidAgentPacketByte(packet_type))
        }
    }
}

/// What the agent's control encoder writes for a tunnel request, the proxy's
/// control decoder reads back: the tunnel type byte and the frame's payload
/// (the serialised sealed request) come out ahead of any further bytes, and
/// the request read from it opens to the request that went in, when the two
/// sides hold the two halves of the user's key pair.
pub proof fn lemma_agent_tunnel_packet_roundtrip<H1: RsaCryptoHolder, H2: RsaCryptoHolder>(
    sealer: &H1,
    opener: &H2,
    request: TunnelInitRequest,
    sealed: TunnelInitRequest,
    body: Seq<u8>,
    rest: Seq<u8>,
    r: Result<Option<(ControlPacketKind, Vec<u8>)>, CodecError>,
    left: Seq<u8>,
    opened: Result<TunnelInitRequest, CodecError>,
)
    requires
        keys_match(sealer, opener, request.auth_token@),
        request_sealed(sealer, true, request, Ok(sealed)),
        body.len() <= MAX_FRAME_LENGTH,
        ({
            let s = seq![control_tag(ControlPacketKind::TunnelInit)] + framed(body) + rest;
            control_decoded(s, decode_step(None, s.skip(1)), decode_step(None, s.skip(1)), r, left)
        }),
        request_sealed(opener, false, sealed, opened),
    ensures
        control_view(r) == Ok::<Option<(ControlPacketKind, Seq<u8>)>, ()>(Some((ControlPacketKind::TunnelInit, body))),
        left == rest,
        opened matches Ok(q) && same_encryption(q.agent_encryption, request.agent_encryption)
            && q.auth_token == request.auth_token && q.dst_address == request.dst_address
            && q.tunnel_type == request.tunnel_type,
{
    lemma_control_roundtrip(ControlPacketKind::TunnelInit, body, rest, r, left);
    lemma_request_seal_roundtrip(sealer, opener, request, sealed, opened);
}

/// What the proxy's control encoder writes for a tunnel answer to a user,
/// that user's control decoder reads back: the tunnel type byte and the
/// frame's payload come out ahead of any further bytes, and the answer read
/// from it opens to the answer that went in, when the two sides hold the two
/// halves of the user's key pair.
pub proof fn lemma_proxy_tunnel_packet_roundtrip<H1: RsaCryptoHolder, H2: RsaCryptoHolder>(
    sealer: &H1,
    opener: &H2,
    auth_token: Seq<char>,
    response: TunnelInitResponse,
    sealed: TunnelInitResponse,
    body: Seq<u8>,
    rest: Seq<u8>,
    r: Result<Option<(ControlPacketKind, Vec<u8>)>, CodecError>,
    left: Seq<u8>,
    opened: Result<TunnelInitResponse, CodecError>,
)
    requires
        keys_match(sealer, opener, auth_token),
        response_sealed(sealer, auth_token, true, response, Ok(sealed)),
        body.len() <= MAX_FRAME_LENGTH,
        ({
            let s = seq![control_tag(ControlPacketKind::TunnelInit)] + framed(body) + rest;
            control_decoded(s, decode_step(None, s.skip(1)), decode_step(None, s.skip(1)), r, left)
        }),
        response_sealed(opener, auth_token, false, sealed, opened),
    ensures
        control_view(r) == Ok::<Option<(ControlPacketKind, Seq<u8>)>, ()>(Some((ControlPacketKind::TunnelInit, body))),
        left == rest,
        opened matches Ok(p) && same_encryption(p.proxy_encryption, response.proxy_encryption),
{
    lemma_control_roundtrip(ControlPacketKind::TunnelInit, body, rest, r, left);
    lemma_response_seal_roundtrip(sealer, opener, auth_token, response, sealed, opened);
}

} // verus!
