//! Tunnel init codecs: a tunnel request or answer has its AES key sealed
//! with the user's RSA key pair (`seal`) and, once serialised, goes in a
//! length-delimited frame; on the other side it is unframed and, once
//! deserialised, has its key opened (`open`).
use crate::domain::{TunnelInitRequest, TunnelInitResponse};
use crate::error::CodecError;
use crate::frame::{decode_step, decoded_view, frame_written, framed, lemma_frame_roundtrip, FrameCodec, MAX_FRAME_LENGTH};
use crate::holder::RsaCryptoHolder;
use crate::seal::{keys_match, lemma_key_roundtrip, same_encryption, seal_or_open, sealing_outcome};
use vstd::prelude::*;

verus! {

/// What sealing (`seal`) or opening the agent's AES key in `request` may
/// give: the request with its encryption as sealed or opened for its own
/// user, and every other field unchanged; or the error of the sealing.
pub open spec fn request_sealed<H: RsaCryptoHolder>(
    holder: &H,
    seal: bool,
    request: TunnelInitRequest,
    r: Result<TunnelInitRequest, CodecError>,
) -> bool {
    match r {
        Ok(q) => {
            &&& sealing_outcome(holder, request.auth_token@, seal, request.agent_encryption, Ok(q.agent_encryption))
            &&& q.auth_token == request.auth_token
            &&& q.dst_address == request.dst_address
            &&& q.tunnel_type == request.tunnel_type
        },
        Err(e) => sealing_outcome(holder, request.auth_token@, seal, request.agent_encryption, Err(e)),
    }
}

/// What sealing or opening the proxy's AES key in `response` for the user
/// with `auth_token` may give.
pub open spec fn response_sealed<H: RsaCryptoHolder>(
    holder: &H,
    auth_token: Seq<char>,
    seal: bool,
    response: TunnelInitResponse,
    r: Result<TunnelInitResponse, CodecError>,
) -> bool {
    match r {
        Ok(p) => sealing_outcome(holder, auth_token, seal, response.proxy_encryption, Ok(p.proxy_encryption)),
        Err(e) => sealing_outcome(holder, auth_token, seal, response.proxy_encryption, Err(e)),
    }
}

fn seal_request<H: RsaCryptoHolder>(holder: &H, seal: bool, request: TunnelInitRequest) -> (r: Result<TunnelInitRequest, CodecError>)
    ensures
        request_sealed(holder, seal, request, r),
{
    let TunnelInitRequest { agent_encryption, auth_token, dst_address, tunnel_type } = request;
    let sealed = seal_or_open(holder, auth_token.as_str(), seal, agent_encryption);
    match sealed {
        Ok(agent_encryption) => Ok(TunnelInitRequest { agent_encryption, auth_token, dst_address, tunnel_type }),
        Err(e) => Err(e),
    }
}

/// Frames tunnel init requests; used by the agent.
pub struct TunnelInitRequestEncoder {
    length_delimited_codec: FrameCodec,
}

impl TunnelInitRequestEncoder {
    /// The payload length its frame codec has read and still waits for
    /// (an encoder never reads, so it stays as the codec was made).
    pub closed spec fn pending(&self) -> Option<usize> {
        self.length_delimited_codec.pending()
    }

    /// An encoder over a fresh frame codec, waiting for a header.
    pub fn new() -> (e: Self)
        ensures
            e.pending() == None::<usize>,
    {
        TunnelInitRequestEncoder { length_delimited_codec: FrameCodec::new() }
    }

    /// The request as it goes on the wire: the agent's AES key sealed with
    /// the key pair of the request's user (a user without one is refused,
    /// whatever the encryption); the other fields as they are.
    pub fn seal<H: RsaCryptoHolder>(&self, holder: &H, request: TunnelInitRequest) -> (r: Result<TunnelInitRequest, CodecError>)
        ensures
            request_sealed(holder, true, request, r),
    {
        seal_request(holder, true, request)
    }

    /// Appends to `dst` the frame carrying the serialised tunnel init request.
    pub fn encode(&mut self, item_bytes: &[u8], dst: &mut Vec<u8>) -> (r: Result<(), CodecError>)
        ensures
            frame_written(item_bytes@, old(dst)@, r, final(dst)@),
    {
        self.length_delimited_codec.encode(item_bytes, dst)
    }
}

/// Unframes tunnel init requests; used by the proxy.
pub struct TunnelInitRequestDecoder {
    length_delimited_codec: FrameCodec,
}

impl TunnelInitRequestDecoder {
    /// The payload length the decoder has read and still waits for.
    pub closed spec fn pending(&self) -> Option<usize> {
        self.length_delimited_codec.pending()
    }

    pub fn new() -> (d: Self)
        ensures
            d.pending() == None::<usize>,
    {
        TunnelInitRequestDecoder { length_delimited_codec: FrameCodec::new() }
    }

    /// The request as read off the wire, with the agent's AES key opened with
    /// the key pair of the request's user (a user without one is refused).
    pub fn open<H: RsaCryptoHolder>(&self, holder: &H, request: TunnelInitRequest) -> (r: Result<TunnelInitRequest, CodecError>)
        ensures
            request_sealed(holder, false, request, r),
    {
        seal_request(holder, false, request)
    }

    /// Takes the frame of the next serialised tunnel init request off `src`, once it
    /// is all buffered.
    pub fn decode(&mut self, src: &mut Vec<u8>) -> (r: Result<Option<Vec<u8>>, CodecError>)
        ensures
            r matches Err(e) ==> e is Io,
            decode_step(old(self).pending(), old(src)@) == (decoded_view(r), final(self).pending(), final(src)@),
    {
        self.length_delimited_codec.decode(src)
    }
}

/// Frames tunnel init responses; used by the proxy.
pub struct TunnelInitResponseEncoder {
    length_delimited_codec: FrameCodec,
}

impl TunnelInitResponseEncoder {
    /// The payload length its frame codec has read and still waits for
    /// (an encoder never reads, so it stays as the codec was made).
    pub closed spec fn pending(&self) -> Option<usize> {
        self.length_delimited_codec.pending()
    }

    /// An encoder over a fresh frame codec, waiting for a header.
    pub fn new() -> (e: Self)
        ensures
            e.pending() == None::<usize>,
    {
        TunnelInitResponseEncoder { length_delimited_codec: FrameCodec::new() }
    }

    /// The answer to the user with `auth_token` as it goes on the wire: the
    /// proxy's AES key sealed with that user's key pair (a user without one
    /// is refused, whatever the encryption).
    pub fn seal<H: RsaCryptoHolder>(&self, holder: &H, auth_token: &str, response: TunnelInitResponse) -> (r: Result<TunnelInitResponse, CodecError>)
        ensures
            response_sealed(holder, auth_token@, true, response, r),
    {
        match seal_or_open(holder, auth_token, true, response.proxy_encryption) {
            Ok(proxy_encryption) => Ok(TunnelInitResponse { proxy_encryption }),
            Err(e) => Err(e),
        }
    }

    /// Appends to `dst` the frame carrying the serialised tunnel init response.
    pub fn encode(&mut self, item_bytes: &[u8], dst: &mut Vec<u8>) -> (r: Result<(), CodecError>)
        ensures
            frame_written(item_bytes@, old(dst)@, r, final(dst)@),
    {
        self.length_delimited_codec.encode(item_bytes, dst)
    }
}

/// Unframes tunnel init responses for one user; used by the agent.
pub struct TunnelInitResponseDecoder {
    length_delimited_codec: FrameCodec,
    auth_token: String,
}

impl TunnelInitResponseDecoder {
    /// The payload length the decoder has read and still waits for.
    pub closed spec fn pending(&self) -> Option<usize> {
        self.length_delimited_codec.pending()
    }

    /// The auth token of the user whose answers this decoder reads.
    pub closed spec fn spec_auth_token(&self) -> Seq<char> {
        self.auth_token@
    }

    /// The auth token of the user whose answers this decoder reads.
    pub fn auth_token(&self) -> (t: &str)
        ensures
            t@ == self.spec_auth_token(),
    {
        self.auth_token.as_str()
    }

    pub fn new(auth_token: String) -> (d: Self)
        ensures
            d.pending() == None::<usize>,
            d.spec_auth_token() == auth_token@,
    {
        TunnelInitResponseDecoder { length_delimited_codec: FrameCodec::new(), auth_token }
    }

    /// The answer as read off the wire, with the proxy's AES key opened with
    /// the key pair of this decoder's own user (a user without one is
    /// refused, whatever the encryption).
    pub fn open<H: RsaCryptoHolder>(&self, holder: &H, response: TunnelInitResponse) -> (r: Result<TunnelInitResponse, CodecError>)
        ensures
            response_sealed(holder, self.spec_auth_token(), false, response, r),
    {
        match seal_or_open(holder, self.auth_token.as_str(), false, response.proxy_encryption) {
            Ok(proxy_encryption) => Ok(TunnelInitResponse { proxy_encryption }),
            Err(e) => Err(e),
        }
    }

    /// Takes the frame of the next serialised tunnel init response off `src`, once it
    /// is all buffered.
    pub fn decode(&mut self, src: &mut Vec<u8>) -> (r: Result<Option<Vec<u8>>, CodecError>)
        ensures
            r matches Err(e) ==> e is Io,
            decode_step(old(self).pending(), old(src)@) == (decoded_view(r), final(self).pending(), final(src)@), final(self).spec_auth_token() == old(self).spec_auth_token(),
    {
        self.length_delimited_codec.decode(src)
    }
}

/// A tunnel request sealed by the agent and opened by the proxy comes back
/// as it was (its AES key by its bytes), when the two sides hold the two
/// halves of the user's key pair.
pub proof fn lemma_request_seal_roundtrip<H1: RsaCryptoHolder, H2: RsaCryptoHolder>(
    sealer: &H1,
    opener: &H2,
    request: TunnelInitRequest,
    sealed: TunnelInitRequest,
    opened: Result<TunnelInitRequest, CodecError>,
)
    requires
        keys_match(sealer, opener, request.auth_token@),
        request_sealed(sealer, true, request, Ok(sealed)),
        request_sealed(opener, false, sealed, opened),
    ensures
        opened matches Ok(q) && same_encryption(q.agent_encryption, request.agent_encryption)
            && q.auth_token == request.auth_token && q.dst_address == request.dst_address
            && q.tunnel_type == request.tunnel_type,
{
    lemma_key_roundtrip(
        sealer,
        opener,
        request.auth_token@,
        request.agent_encryption,
        sealed.agent_encryption,
        match opened {
            Ok(q) => Ok(q.agent_encryption),
            Err(e) => Err(e),
        },
    );
}

/// A tunnel answer sealed by the proxy for a user and opened by that user's
/// agent comes back as it was, when the two sides hold the two halves of the
/// user's key pair.
pub proof fn lemma_response_seal_roundtrip<H1: RsaCryptoHolder, H2: RsaCryptoHolder>(
    sealer: &H1,
    opener: &H2,
    auth_token: Seq<char>,
    response: TunnelInitResponse,
    sealed: TunnelInitResponse,
    opened: Result<TunnelInitResponse, CodecError>,
)
    requires
        keys_match(sealer, opener, auth_token),
        response_sealed(sealer, auth_token, true, response, Ok(sealed)),
        response_sealed(opener, auth_token, false, sealed, opened),
    ensures
        opened matches Ok(p) && same_encryption(p.proxy_encryption, response.proxy_encryption),
{
    lemma_key_roundtrip(
        sealer,
        opener,
        auth_token,
        response.proxy_encryption,
        sealed.proxy_encryption,
        match opened {
            Ok(p) => Ok(p.proxy_encryption),
            Err(e) => Err(e),
        },
    );
}

/// What the agent's tunnel encoder seals and frames, the proxy's tunnel
/// decoder unframes and opens back: the frame's payload (the serialised
/// sealed request) comes out whole ahead of any further bytes, and the request
/// read from it opens to the request that went in, when the two sides hold
/// the two halves of the user's key pair.
pub proof fn lemma_request_codec_roundtrip<H1: RsaCryptoHolder, H2: RsaCryptoHolder>(
    sealer: &H1,
    opener: &H2,
    request: TunnelInitRequest,
    sealed: TunnelInitRequest,
    body: Seq<u8>,
    rest: Seq<u8>,
    opened: Result<TunnelInitRequest, CodecError>,
)
    requires
        keys_match(sealer, opener, request.auth_token@),
        request_sealed(sealer, true, request, Ok(sealed)),
        body.len() <= MAX_FRAME_LENGTH,
        request_sealed(opener, false, sealed, opened),
    ensures
        decode_step(None, framed(body) + rest) == (Ok::<Option<Seq<u8>>, ()>(Some(body)), None::<usize>, rest),
        opened matches Ok(q) && same_encryption(q.agent_encryption, request.agent_encryption)
            && q.auth_token == request.auth_token && q.dst_address == request.dst_address
            && q.tunnel_type == request.tunnel_type,
{
    lemma_frame_roundtrip(body, rest);
    lemma_request_seal_roundtrip(sealer, opener, request, sealed, opened);
}

/// What the proxy's tunnel encoder seals and frames for a user, that user's
/// tunnel decoder unframes and opens back: the frame's payload comes out
/// whole ahead of any further bytes, and the answer read from it opens to
/// the answer that went in, when the two sides hold the two halves of the
/// user's key pair.
pub proof fn lemma_response_codec_roundtrip<H1: RsaCryptoHolder, H2: RsaCryptoHolder>(
    sealer: &H1,
    opener: &H2,
    auth_token: Seq<char>,
    response: TunnelInitResponse,
    sealed: TunnelInitResponse,
    body: Seq<u8>,
    rest: Seq<u8>,
    opened: Result<TunnelInitResponse, CodecError>,
)
    requires
        keys_match(sealer, opener, auth_token),
        response_sealed(sealer, auth_token, true, response, Ok(sealed)),
        body.len() <= MAX_FRAME_LENGTH,
        response_sealed(opener, auth_token, false, sealed, opened),
    ensures
        decode_step(None, framed(body) + rest) == (Ok::<Option<Seq<u8>>, ()>(Some(body)), None::<usize>, rest),
        opened matches Ok(p) && same_encryption(p.proxy_encryption, response.proxy_encryption),
{
    lemma_frame_roundtrip(body, rest);
    lemma_response_seal_roundtrip(sealer, opener, auth_token, response, sealed, opened);
}

} // verus!
