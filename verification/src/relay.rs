//! Relay frames: the session token, the relay type (and, in responses, the
//! status) and the relay content, laid out as
//! `u64 token length | token | [status byte |] type byte | u64 content length | content`
//! with both lengths in network byte order, and carried in a length-delimited
//! frame. The content is the serialised relay content put under the
//! session's encryption, which the codecs look up by the session token.
use crate::big_endian::{
    be_u64_bytes, be_u64_value, lemma_be_u64_roundtrip, push_be_u64, read_be_u64,
};
use crate::error::CodecError;
use crate::holder::{AesCrypto, EncryptionHolder};
use crate::seal::{
    aes_inverts, bytes_view, holders_agree, lemma_relay_content_roundtrip, seal_content, session_content_outcome,
};
use crate::frame::{
    decode_step, decoded_view, frame_written, framed, lemma_frame_roundtrip, FrameCodec, MAX_FRAME_LENGTH,
};
use vstd::prelude::*;
use vstd::utf8::*;

verus! {

/// The transport that a relay carries.
#[derive(Debug, Clone, Copy, PartialEq, Eq, Structural)]
pub enum RelayType {
    Tcp,
    Udp,
}

/// The proxy's verdict on a relay request.
#[derive(Debug, Clone, Copy, PartialEq, Eq, Structural)]
pub enum RelayResponseStatus {
    Success,
    SessionNotFound,
    DestinationUnreachable,
}

/// The byte that stands for a relay type.
pub open spec fn relay_type_byte(t: RelayType) -> u8 {
    match t {
        RelayType::Tcp => 0,
        RelayType::Udp => 1,
    }
}

/// The relay type that a byte stands for, if any.
pub open spec fn relay_type_of(b: u8) -> Option<RelayType> {
    if b == 0 {
        Some(RelayType::Tcp)
    } else if b == 1 {
        Some(RelayType::Udp)
    } else {
        None
    }
}

/// The byte that stands for a relay response status.
pub open spec fn relay_status_byte(s: RelayResponseStatus) -> u8 {
    match s {
        RelayResponseStatus::Success => 0,
        RelayResponseStatus::SessionNotFound => 1,
        RelayResponseStatus::DestinationUnreachable => 2,
    }
}

/// The relay response status that a byte stands for, if any.
pub open spec fn relay_status_of(b: u8) -> Option<RelayResponseStatus> {
    if b == 0 {
        Some(RelayResponseStatus::Success)
    } else if b == 1 {
        Some(RelayResponseStatus::SessionNotFound)
    } else if b == 2 {
        Some(RelayResponseStatus::DestinationUnreachable)
    } else {
        None
    }
}

fn relay_type_to_byte(t: RelayType) -> (b: u8)
    ensures
        b == relay_type_byte(t),
{
    match t {
        RelayType::Tcp => 0,
        RelayType::Udp => 1,
    }
}

fn relay_status_to_byte(s: RelayResponseStatus) -> (b: u8)
    ensures
        b == relay_status_byte(s),
{
    match s {
        RelayResponseStatus::Success => 0,
        RelayResponseStatus::SessionNotFound => 1,
        RelayResponseStatus::DestinationUnreachable => 2,
    }
}

/// The wire values of relay types and response statuses: TCP is 0 and UDP
/// 1; success is 0, a session that was not found 1, and an unreachable
/// destination 2; every byte reads back as the value written for it, and no
/// other byte names a type or a status.
pub proof fn lemma_relay_wire_values()
    ensures
        relay_type_byte(RelayType::Tcp) == 0,
        relay_type_byte(RelayType::Udp) == 1,
        relay_status_byte(RelayResponseStatus::Success) == 0,
        relay_status_byte(RelayResponseStatus::SessionNotFound) == 1,
        relay_status_byte(RelayResponseStatus::DestinationUnreachable) == 2,
        relay_type_of(0) == Some(RelayType::Tcp),
        relay_type_of(1) == Some(RelayType::Udp),
        forall|b: u8| b > 1 ==> #[trigger] relay_type_of(b) is None,
        relay_status_of(0) == Some(RelayResponseStatus::Success),
        relay_status_of(1) == Some(RelayResponseStatus::SessionNotFound),
        relay_status_of(2) == Some(RelayResponseStatus::DestinationUnreachable),
        forall|b: u8| b > 2 ==> #[trigger] relay_status_of(b) is None,
{
}

/// In a relay response, the byte right after the session token is the
/// status's wire value (0 for success, 1 for a session not found, 2 for an
/// unreachable destination), and the byte after it the type's (0 for TCP, 1
/// for UDP).
pub proof fn lemma_relay_response_layout(
    token: Seq<char>,
    status: RelayResponseStatus,
    relay_type: RelayType,
    content: Seq<u8>,
)
    ensures
        ({
            let b = relay_response_bytes(token, status, relay_type, content);
            let t = encode_utf8(token).len() as int;
            &&& b[8 + t] == match status {
                RelayResponseStatus::Success => 0u8,
                RelayResponseStatus::SessionNotFound => 1u8,
                RelayResponseStatus::DestinationUnreachable => 2u8,
            }
            &&& b[8 + t + 1] == match relay_type {
                RelayType::Tcp => 0u8,
                RelayType::Udp => 1u8,
            }
        }),
{
    let b = relay_response_bytes(token, status, relay_type, content);
    let t = encode_utf8(token).len() as int;
    assert(b[8 + t] == relay_status_byte(status));
    assert(b[8 + t + 1] == relay_type_byte(relay_type));
}

/// The string that `String::from_utf8_lossy` makes of `bytes`.
pub uninterp spec fn utf8_lossy(bytes: Seq<u8>) -> Seq<char>;

/// The text that `String::from_utf8_lossy` makes of `bytes`: on valid UTF-8
/// the decoded text itself.
pub open spec fn lossy_text(bytes: Seq<u8>) -> Seq<char> {
    if valid_utf8(bytes) {
        decode_utf8(bytes)
    } else {
        utf8_lossy(bytes)
    }
}

/// `String::from_utf8_lossy`, made owned. Its result is named; on valid UTF-8
/// it is, as documented, the decoded text itself.
#[verifier::external_body]
fn string_from_utf8_lossy(bytes: &[u8]) -> (s: String)
    ensures
        s@ == utf8_lossy(bytes@),
        valid_utf8(bytes@) ==> s@ == decode_utf8(bytes@),
{
    String::from_utf8_lossy(bytes).into_owned()
}

/// A relay request: the session it belongs to, its type, and its content.
#[derive(Debug, Clone)]
pub struct RelayRequestFrame {
    pub session_token: String,
    pub relay_type: RelayType,
    pub content: Vec<u8>,
}

/// A relay response: the session, its type, the proxy's status, and its
/// content.
#[derive(Debug, Clone)]
pub struct RelayResponseFrame {
    pub session_token: String,
    pub relay_type: RelayType,
    pub status: RelayResponseStatus,
    pub content: Vec<u8>,
}

/// The bytes of a relay request whose token is `token`.
pub open spec fn relay_request_bytes(token: Seq<char>, relay_type: RelayType, content: Seq<u8>) -> Seq<u8> {
    be_u64_bytes(encode_utf8(token).len() as u64) + encode_utf8(token) + seq![relay_type_byte(relay_type)]
        + be_u64_bytes(content.len() as u64) + content
}

/// The bytes of a relay response whose token is `token`.
pub open spec fn relay_response_bytes(
    token: Seq<char>,
    status: RelayResponseStatus,
    relay_type: RelayType,
    content: Seq<u8>,
) -> Seq<u8> {
    be_u64_bytes(encode_utf8(token).len() as u64) + encode_utf8(token) + seq![
        relay_status_byte(status),
        relay_type_byte(relay_type),
    ] + be_u64_bytes(content.len() as u64) + content
}

/// The token length announced at the front of a relay frame.
pub open spec fn announced_token_len(f: Seq<u8>) -> int {
    be_u64_value(f.take(8)) as int
}

/// Whether reading a relay request out of `f` reaches a result: the token
/// length field, the token, the type byte and, for a known type, the content
/// length field are all there.
pub open spec fn relay_request_readable(f: Seq<u8>) -> bool {
    let t = announced_token_len(f);
    &&& f.len() >= 8
    &&& t <= f.len() - 8
    &&& f.len() > 8 + t
    &&& relay_type_of(f[8 + t]) is Some ==> f.len() >= 8 + t + 9
}

/// Whether reading a relay response out of `f` reaches a result: the token
/// length field, the token, the status byte and, for a known status, the type
/// byte and, for a known type, the content length field are all there.
pub open spec fn relay_response_readable(f: Seq<u8>) -> bool {
    let t = announced_token_len(f);
    &&& f.len() >= 8
    &&& t <= f.len() - 8
    &&& f.len() > 8 + t
    &&& relay_status_of(f[8 + t]) is Some ==> {
        &&& f.len() > 8 + t + 1
        &&& relay_type_of(f[8 + t + 1]) is Some ==> f.len() >= 8 + t + 10
    }
}

/// What reading a relay request out of a readable frame `f` gives: the token
/// (its bytes read as by `String::from_utf8_lossy`), the type, and all bytes
/// after the content length field as content, provided they are at least as
/// many as announced.
pub open spec fn spec_read_relay_request(f: Seq<u8>) -> Result<(Seq<char>, RelayType, Seq<u8>), CodecError> {
    let t = announced_token_len(f);
    let token = lossy_text(f.subrange(8, 8 + t));
    let type_byte = f[8 + t];
    match relay_type_of(type_byte) {
        None => Err(CodecError::InvalidRelayTypeByte(type_byte)),
        Some(relay_type) => {
            let content_len = be_u64_value(f.subrange(8 + t + 1, 8 + t + 9));
            let content = f.skip(8 + t + 9);
            if content.len() < content_len {
                Err(CodecError::NotEnoughRemainingBytes(content_len))
            } else {
                Ok((token, relay_type, content))
            }
        },
    }
}

/// What reading a relay response out of a readable frame `f` gives (see
/// [`spec_read_relay_request`]); the status byte is checked before the type
/// byte.
pub open spec fn spec_read_relay_response(f: Seq<u8>) -> Result<
    (Seq<char>, RelayResponseStatus, RelayType, Seq<u8>),
    CodecError,
> {
    let t = announced_token_len(f);
    let token = lossy_text(f.subrange(8, 8 + t));
    let status_byte = f[8 + t];
    match relay_status_of(status_byte) {
        None => Err(CodecError::InvalidRelayResponseStatusByte(status_byte)),
        Some(status) => {
            let type_byte = f[8 + t + 1];
            match relay_type_of(type_byte) {
                None => Err(CodecError::InvalidRelayTypeByte(type_byte)),
                Some(relay_type) => {
                    let content_len = be_u64_value(f.subrange(8 + t + 2, 8 + t + 10));
                    let content = f.skip(8 + t + 10);
                    if content.len() < content_len {
                        Err(CodecError::NotEnoughRemainingBytes(content_len))
                    } else {
                        Ok((token, status, relay_type, content))
                    }
                },
            }
        },
    }
}

/// The fields of a read relay request, by views.
pub open spec fn request_read_view(r: Result<RelayRequestFrame, CodecError>) -> Result<
    (Seq<char>, RelayType, Seq<u8>),
    CodecError,
> {
    match r {
        Ok(f) => Ok((f.session_token@, f.relay_type, f.content@)),
        Err(e) => Err(e),
    }
}

/// The fields of a read relay response, by views.
pub open spec fn response_read_view(r: Result<RelayResponseFrame, CodecError>) -> Result<
    (Seq<char>, RelayResponseStatus, RelayType, Seq<u8>),
    CodecError,
> {
    match r {
        Ok(f) => Ok((f.session_token@, f.status, f.relay_type, f.content@)),
        Err(e) => Err(e),
    }
}

fn read_token_len(f: &[u8]) -> (t: u64)
    requires
        f@.len() >= 8,
    ensures
        t == announced_token_len(f@),
{
    let t = read_be_u64(f, 0);
    assert(f@.subrange(0, 8) =~= f@.take(8));
    t
}

/// Whether reading a relay request out of `f` reaches a result (it panics in
/// the reader that the protocol's other side runs otherwise).
pub fn relay_request_frame_readable(f: &[u8]) -> (b: bool)
    ensures
        b == relay_request_readable(f@),
{
    if f.len() < 8 {
        return false;
    }
    let t = read_token_len(f);
    if t > (f.len() - 8) as u64 {
        return false;
    }
    let tu = t as usize;
    if f.len() <= 8 + tu {
        return false;
    }
    let type_byte = f[8 + tu];
    if type_byte == 0 || type_byte == 1 {
        f.len() - 8 - tu >= 9
    } else {
        true
    }
}

/// Whether reading a relay response out of `f` reaches a result.
pub fn relay_response_frame_readable(f: &[u8]) -> (b: bool)
    ensures
        b == relay_response_readable(f@),
{
    if f.len() < 8 {
        return false;
    }
    let t = read_token_len(f);
    if t > (f.len() - 8) as u64 {
        return false;
    }
    let tu = t as usize;
    if f.len() <= 8 + tu {
        return false;
    }
    let status_byte = f[8 + tu];
    if status_byte <= 2 {
        if f.len() <= 8 + tu + 1 {
            return false;
        }
        let type_byte = f[8 + tu + 1];
        if type_byte == 0 || type_byte == 1 {
            f.len() - 8 - tu >= 10
        } else {
            true
        }
    } else {
        true
    }
}

/// Reads a relay request out of the payload `f` of one frame.
pub fn read_relay_request(f: &[u8]) -> (r: Result<RelayRequestFrame, CodecError>)
    requires
        relay_request_readable(f@),
    ensures
        request_read_view(r) == spec_read_relay_request(f@),
{
    let n = f.len();
    let t64 = read_token_len(f);
    assert(t64 <= n - 8);
    let t = t64 as usize;
    let token_bytes = vstd::slice::slice_subrange(f, 8, 8 + t);
    let session_token = string_from_utf8_lossy(token_bytes);
    let type_byte = f[8 + t];
    let relay_type = if type_byte == 0 {
        RelayType::Tcp
    } else if type_byte == 1 {
        RelayType::Udp
    } else {
        return Err(CodecError::InvalidRelayTypeByte(type_byte));
    };
    let content_len = read_be_u64(f, 8 + t + 1);
    let content_start = 8 + t + 9;
    if ((f.len() - content_start) as u64) < content_len {
        return Err(CodecError::NotEnoughRemainingBytes(content_len));
    }
    let content = vstd::slice::slice_to_vec(vstd::slice::slice_subrange(f, content_start, f.len()));
    assert(content@ =~= f@.skip(content_start as int));
    Ok(RelayRequestFrame { session_token, relay_type, content })
}

/// Reads a relay response out of the payload `f` of one frame.
pub fn read_relay_response(f: &[u8]) -> (r: Result<RelayResponseFrame, CodecError>)
    requires
        relay_response_readable(f@),
    ensures
        response_read_view(r) == spec_read_relay_response(f@),
{
    let n = f.len();
    let t64 = read_token_len(f);
    assert(t64 <= n - 8);
    let t = t64 as usize;
    let token_bytes = vstd::slice::slice_subrange(f, 8, 8 + t);
    let session_token = string_from_utf8_lossy(token_bytes);
    let status_byte = f[8 + t];
    let status = if status_byte == 0 {
        RelayResponseStatus::Success
    } else if status_byte == 1 {
        RelayResponseStatus::SessionNotFound
    } else if status_byte == 2 {
        RelayResponseStatus::DestinationUnreachable
    } else {
        return Err(CodecError::InvalidRelayResponseStatusByte(status_byte));
    };
    let type_byte = f[8 + t + 1];
    let relay_type = if type_byte == 0 {
        RelayType::Tcp
    } else if type_byte == 1 {
        RelayType::Udp
    } else {
        return Err(CodecError::InvalidRelayTypeByte(type_byte));
    };
    let content_len = read_be_u64(f, 8 + t + 2);
    let content_start = 8 + t + 10;
    if ((f.len() - content_start) as u64) < content_len {
        return Err(CodecError::NotEnoughRemainingBytes(content_len));
    }
    let content = vstd::slice::slice_to_vec(vstd::slice::slice_subrange(f, content_start, f.len()));
    assert(content@ =~= f@.skip(content_start as int));
    Ok(RelayResponseFrame { session_token, relay_type, status, content })
}

/// What a relay request encoder writes, a relay request decoder that waits
/// for a header reads back: the frame's payload comes out whole, ahead of any
/// further bytes, and reading it gives the token, the type and the content
/// that went in.
#[verifier::spinoff_prover]
#[verifier::rlimit(40)]
pub proof fn lemma_relay_request_roundtrip(
    token: Seq<char>,
    relay_type: RelayType,
    content: Seq<u8>,
    rest: Seq<u8>,
)
    requires
        relay_request_bytes(token, relay_type, content).len() <= MAX_FRAME_LENGTH,
    ensures
        ({
            let b = relay_request_bytes(token, relay_type, content);
            &&& decode_step(None, framed(b) + rest) == (Ok::<Option<Seq<u8>>, ()>(Some(b)), None::<usize>, rest)
            &&& relay_request_readable(b)
            &&& spec_read_relay_request(b) == Ok::<_, CodecError>((token, relay_type, content))
        }),
{
    let tb = encode_utf8(token);
    let b = relay_request_bytes(token, relay_type, content);
    lemma_frame_roundtrip(b, rest);
    lemma_be_u64_roundtrip(tb.len() as u64);
    lemma_be_u64_roundtrip(content.len() as u64);
    let t = tb.len() as int;
    assert(b.take(8) =~= be_u64_bytes(tb.len() as u64));
    assert(announced_token_len(b) == t);
    assert(b.subrange(8, 8 + t) =~= tb);
    assert(lossy_text(tb) == token) by {
        broadcast use encode_utf8_valid_utf8, encode_utf8_decode_utf8;
    }
    assert(b[8 + t] == relay_type_byte(relay_type));
    assert(b.subrange(8 + t + 1, 8 + t + 9) =~= be_u64_bytes(content.len() as u64));
    assert(b.skip(8 + t + 9) =~= content);
}

/// A relay request that the agent seals under its session's encryption and
/// frames, the proxy unframes, reads and opens back into the token, type and
/// content that went in: for holders that give the same encryption for the
/// session, and a cipher whose decryption undoes its encryption.
pub proof fn lemma_relay_request_sealed_roundtrip<H1: EncryptionHolder, H2: EncryptionHolder, A: AesCrypto>(
    sealer: &H1,
    opener: &H2,
    aes: &A,
    token: Seq<char>,
    relay_type: RelayType,
    content: Seq<u8>,
    sealed: Seq<u8>,
    rest: Seq<u8>,
    opened: Result<Seq<u8>, CodecError>,
)
    requires
        aes_inverts(aes),
        holders_agree(sealer, opener, token),
        session_content_outcome(sealer, aes, true, token, content, Ok(sealed)),
        relay_request_bytes(token, relay_type, sealed).len() <= MAX_FRAME_LENGTH,
        session_content_outcome(opener, aes, false, token, sealed, opened),
    ensures
        ({
            let b = relay_request_bytes(token, relay_type, sealed);
            &&& decode_step(None, framed(b) + rest) == (Ok::<Option<Seq<u8>>, ()>(Some(b)), None::<usize>, rest)
            &&& relay_request_readable(b)
            &&& spec_read_relay_request(b) == Ok::<_, CodecError>((token, relay_type, sealed))
            &&& opened == Ok::<Seq<u8>, CodecError>(content)
        }),
{
    lemma_relay_request_roundtrip(token, relay_type, sealed, rest);
    lemma_relay_content_roundtrip(sealer, opener, aes, token, content, sealed, opened);
}

/// What a relay response encoder writes, a relay response decoder that waits
/// for a header reads back: the frame's payload comes out whole, ahead of any
/// further bytes, and reading it gives the token, the status, the type and
/// the content that went in.
#[verifier::spinoff_prover]
#[verifier::rlimit(40)]
pub proof fn lemma_relay_response_roundtrip(
    token: Seq<char>,
    status: RelayResponseStatus,
    relay_type: RelayType,
    content: Seq<u8>,
    rest: Seq<u8>,
)
    requires
        relay_response_bytes(token, status, relay_type, content).len() <= MAX_FRAME_LENGTH,
    ensures
        ({
            let b = relay_response_bytes(token, status, relay_type, content);
            &&& decode_step(None, framed(b) + rest) == (Ok::<Option<Seq<u8>>, ()>(Some(b)), None::<usize>, rest)
            &&& relay_response_readable(b)
            &&& spec_read_relay_response(b) == Ok::<_, CodecError>((token, status, relay_type, content))
        }),
{
    let tb = encode_utf8(token);
    let b = relay_response_bytes(token, status, relay_type, content);
    lemma_frame_roundtrip(b, rest);
    lemma_be_u64_roundtrip(tb.len() as u64);
    lemma_be_u64_roundtrip(content.len() as u64);
    let t = tb.len() as int;
    assert(b.take(8) =~= be_u64_bytes(tb.len() as u64));
    assert(announced_token_len(b) == t);
    assert(b.subrange(8, 8 + t) =~= tb);
    assert(lossy_text(tb) == token) by {
        broadcast use encode_utf8_valid_utf8, encode_utf8_decode_utf8;
    }
    assert(b[8 + t] == relay_status_byte(status));
    assert(b[8 + t + 1] == relay_type_byte(relay_type));
    assert(b.subrange(8 + t + 2, 8 + t + 10) =~= be_u64_bytes(content.len() as u64));
    assert(b.skip(8 + t + 10) =~= content);
}

/// Encodes relay requests; used by the agent once its session is set up.
pub struct RelayRequestEncoder {
    length_delimited_codec: FrameCodec,
}

impl RelayRequestEncoder {
    /// The payload length its frame codec has read and still waits for
    /// (an encoder never reads, so it stays as the codec was made).
    pub closed spec fn pending(&self) -> Option<usize> {
        self.length_delimited_codec.pending()
    }

    /// An encoder over a fresh frame codec, waiting for a header.
    pub fn new() -> (e: Self)
        ensures
            e.pending() == None::<usize>,
    {
        RelayRequestEncoder { length_delimited_codec: FrameCodec::new() }
    }

    /// Appends to `dst` the frame of the relay request with this token and
    /// type, its (serialised) content put under the session's encryption: a
    /// session without an encryption is refused, and when the lookup or the
    /// encryption fails, or the request's bytes exceed a frame's limit, `dst`
    /// is left as it was.
    pub fn encode<H: EncryptionHolder, A: AesCrypto>(
        &mut self,
        holder: &H,
        aes: &A,
        session_token: &str,
        relay_type: RelayType,
        content: &[u8],
        dst: &mut Vec<u8>,
    ) -> (r: Result<(), CodecError>)
        ensures
            final(self).pending() == old(self).pending(),
            exists|sealed: Result<Seq<u8>, CodecError>|
                #[trigger] session_content_outcome(holder, aes, true, session_token@, content@, sealed)
                    && match sealed {
                    Err(e) => r == Err::<(), CodecError>(e) && final(dst)@ == old(dst)@,
                    Ok(c) => frame_written(relay_request_bytes(session_token@, relay_type, c), old(dst)@, r, final(dst)@),
                },
    {
        let sealed = seal_content(holder, aes, true, session_token, content);
        assert(session_content_outcome(holder, aes, true, session_token@, content@, bytes_view(sealed)));
        match sealed {
            Err(e) => Err(e),
            Ok(c) => {
                let token_len = session_token.as_bytes().len();
                if token_len > MAX_FRAME_LENGTH || c.len() > MAX_FRAME_LENGTH {
                    Err(CodecError::Io("frame size too big".to_string()))
                } else {
                    self.encode_sealed(session_token, relay_type, c.as_slice(), dst)
                }
            },
        }
    }

    /// Appends to `dst` the frame of the relay request with this token, type
    /// and content as it goes on the wire (already put under the session's
    /// encryption); a request whose bytes exceed a frame's limit is refused
    /// and `dst` left as it was.
    pub fn encode_sealed(
        &mut self,
        session_token: &str,
        relay_type: RelayType,
        content: &[u8],
        dst: &mut Vec<u8>,
    ) -> (r: Result<(), CodecError>)
        requires
            encode_utf8(session_token@).len() + content@.len() + 17 <= usize::MAX,
        ensures
            final(self).pending() == old(self).pending(),
            frame_written(relay_request_bytes(session_token@, relay_type, content@), old(dst)@, r, final(dst)@),
    {
        let token_bytes = session_token.as_bytes();
        let mut bytes: Vec<u8> = Vec::new();
        push_be_u64(&mut bytes, token_bytes.len() as u64);
        bytes.extend_from_slice(token_bytes);
        bytes.push(relay_type_to_byte(relay_type));
        push_be_u64(&mut bytes, content.len() as u64);
        bytes.extend_from_slice(content);
        assert(bytes@ =~= relay_request_bytes(session_token@, relay_type, content@));
        self.length_delimited_codec.encode(bytes.as_slice(), dst)
    }
}

/// Encodes relay responses; used by the proxy once a session is set up.
pub struct RelayResponseEncoder {
    length_delimited_codec: FrameCodec,
}

impl RelayResponseEncoder {
    /// The payload length its frame codec has read and still waits for
    /// (an encoder never reads, so it stays as the codec was made).
    pub closed spec fn pending(&self) -> Option<usize> {
        self.length_delimited_codec.pending()
    }

    /// An encoder over a fresh frame codec, waiting for a header.
    pub fn new() -> (e: Self)
        ensures
            e.pending() == None::<usize>,
    {
        RelayResponseEncoder { length_delimited_codec: FrameCodec::new() }
    }

    /// Appends to `dst` the frame of the relay response with this token,
    /// status and type, its (serialised) content put under the session's
    /// encryption: a session without an encryption is refused, and when the
    /// lookup or the encryption fails, or the response's bytes exceed a
    /// frame's limit, `dst` is left as it was.
    pub fn encode<H: EncryptionHolder, A: AesCrypto>(
        &mut self,
        holder: &H,
        aes: &A,
        session_token: &str,
        status: RelayResponseStatus,
        relay_type: RelayType,
        content: &[u8],
        dst: &mut Vec<u8>,
    ) -> (r: Result<(), CodecError>)
        ensures
            final(self).pending() == old(self).pending(),
            exists|sealed: Result<Seq<u8>, CodecError>|
                #[trigger] session_content_outcome(holder, aes, true, session_token@, content@, sealed)
                    && match sealed {
                    Err(e) => r == Err::<(), CodecError>(e) && final(dst)@ == old(dst)@,
                    Ok(c) => frame_written(relay_response_bytes(session_token@, status, relay_type, c), old(dst)@, r, final(dst)@),
                },
    {
        let sealed = seal_content(holder, aes, true, session_token, content);
        assert(session_content_outcome(holder, aes, true, session_token@, content@, bytes_view(sealed)));
        match sealed {
            Err(e) => Err(e),
            Ok(c) => {
                let token_len = session_token.as_bytes().len();
                if token_len > MAX_FRAME_LENGTH || c.len() > MAX_FRAME_LENGTH {
                    Err(CodecError::Io("frame size too big".to_string()))
                } else {
                    self.encode_sealed(session_token, status, relay_type, c.as_slice(), dst)
                }
            },
        }
    }

    /// Appends to `dst` the frame of the relay response with this token,
    /// status, type and content as it goes on the wire (already put under
    /// the session's encryption); a response whose bytes exceed a frame's
    /// limit is refused and `dst` left as it was.
    pub fn encode_sealed(
        &mut self,
        session_token: &str,
        status: RelayResponseStatus,
        relay_type: RelayType,
        content: &[u8],
        dst: &mut Vec<u8>,
    ) -> (r: Result<(), CodecError>)
        requires
            encode_utf8(session_token@).len() + content@.len() + 18 <= usize::MAX,
        ensures
            final(self).pending() == old(self).pending(),
            frame_written(relay_response_bytes(session_token@, status, relay_type, content@), old(dst)@, r, final(dst)@),
    {
        let token_bytes = session_token.as_bytes();
        let mut bytes: Vec<u8> = Vec::new();
        push_be_u64(&mut bytes, token_bytes.len() as u64);
        bytes.extend_from_slice(token_bytes);
        bytes.push(relay_status_to_byte(status));
        bytes.push(relay_type_to_byte(relay_type));
        push_be_u64(&mut bytes, content.len() as u64);
        bytes.extend_from_slice(content);
        assert(bytes@ =~= relay_response_bytes(session_token@, status, relay_type, content@));
        self.length_delimited_codec.encode(bytes.as_slice(), dst)
    }
}

/// Decodes relay requests; used by the proxy.
pub struct RelayRequestDecoder {
    length_delimited_codec: FrameCodec,
}

impl RelayRequestDecoder {
    /// The payload length the decoder has read and still waits for.
    pub closed spec fn pending(&self) -> Option<usize> {
        self.length_delimited_codec.pending()
    }

    pub fn new() -> (d: Self)
        ensures
            d.pending() == None::<usize>,
    {
        RelayRequestDecoder { length_delimited_codec: FrameCodec::new() }
    }

    /// A relay request as read off the wire, its content taken out from
    /// under its session's encryption: a session without an encryption is
    /// refused, and a failing lookup or decryption is passed on.
    pub fn open<H: EncryptionHolder, A: AesCrypto>(&self, holder: &H, aes: &A, request: RelayRequestFrame) -> (r: Result<RelayRequestFrame, CodecError>)
        ensures
            session_content_outcome(
                holder,
                aes,
                false,
                request.session_token@,
                request.content@,
                match r {
                    Ok(q) => Ok(q.content@),
                    Err(e) => Err(e),
                },
            ),
            r matches Ok(q) ==> q.session_token == request.session_token && q.relay_type == request.relay_type,
    {
        let RelayRequestFrame { session_token, relay_type, content } = request;
        match seal_content(holder, aes, false, session_token.as_str(), content.as_slice()) {
            Ok(content) => Ok(RelayRequestFrame { session_token, relay_type, content }),
            Err(e) => Err(e),
        }
    }

    /// Takes the next relay request frame off `src`, once it is all buffered
    /// (see [`decode_step`]); [`read_relay_request`] reads the request out of
    /// it.
    pub fn decode_frame(&mut self, src: &mut Vec<u8>) -> (r: Result<Option<Vec<u8>>, CodecError>)
        ensures
            r matches Err(e) ==> e is Io,
            decode_step(old(self).pending(), old(src)@) == (decoded_view(r), final(self).pending(), final(src)@),
    {
        self.length_delimited_codec.decode(src)
    }

    /// Takes the next relay request off `src`, once its frame is all
    /// buffered, reads it, and takes its content out from under its
    /// session's encryption (a session without an encryption is refused).
    /// The frame must be readable (the protocol's other side panics on one
    /// that is not).
    pub fn decode<H: EncryptionHolder, A: AesCrypto>(
        &mut self,
        holder: &H,
        aes: &A,
        src: &mut Vec<u8>,
    ) -> (r: Result<Option<RelayRequestFrame>, CodecError>)
        requires
            decode_step(old(self).pending(), old(src)@).0 matches Ok(Some(f)) ==> relay_request_readable(f),
        ensures
            ({
                let (step, pending, left) = decode_step(old(self).pending(), old(src)@);
                &&& final(self).pending() == pending
                &&& final(src)@ == left
                &&& match step {
                    Err(_) => r matches Err(CodecError::Io(_)),
                    Ok(None) => r matches Ok(None),
                    Ok(Some(f)) => match spec_read_relay_request(f) {
                        Err(e) => r == Err::<Option<RelayRequestFrame>, CodecError>(e),
                        Ok((token, relay_type, content)) => match r {
                            Ok(None) => false,
                            Ok(Some(q)) => session_content_outcome(holder, aes, false, token, content, Ok(q.content@))
                                && q.session_token@ == token && q.relay_type == relay_type,
                            Err(e) => session_content_outcome(holder, aes, false, token, content, Err(e)),
                        },
                    },
                }
            }),
    {
        match self.length_delimited_codec.decode(src) {
            Ok(Some(f)) => {
                let request = read_relay_request(f.as_slice());
                match request {
                    Ok(request) => match self.open(holder, aes, request) {
                        Ok(opened) => Ok(Some(opened)),
                        Err(e) => Err(e),
                    },
                    Err(e) => Err(e),
                }
            },
            Ok(None) => Ok(None),
            Err(e) => Err(e),
        }
    }
}

/// Decodes relay responses; used by the agent.
pub struct RelayResponseDecoder {
    length_delimited_codec: FrameCodec,
}

impl RelayResponseDecoder {
    /// The payload length the decoder has read and still waits for.
    pub closed spec fn pending(&self) -> Option<usize> {
        self.length_delimited_codec.pending()
    }

    pub fn new() -> (d: Self)
        ensures
            d.pending() == None::<usize>,
    {
        RelayResponseDecoder { length_delimited_codec: FrameCodec::new() }
    }

    /// A relay response as read off the wire, its content taken out from
    /// under its session's encryption: a session without an encryption is
    /// refused, and a failing lookup or decryption is passed on.
    pub fn open<H: EncryptionHolder, A: AesCrypto>(&self, holder: &H, aes: &A, response: RelayResponseFrame) -> (r: Result<RelayResponseFrame, CodecError>)
        ensures
            session_content_outcome(
                holder,
                aes,
                false,
                response.session_token@,
                response.content@,
                match r {
                    Ok(q) => Ok(q.content@),
                    Err(e) => Err(e),
                },
            ),
            r matches Ok(q) ==> q.session_token == response.session_token && q.relay_type == response.relay_type
                && q.status == response.status,
    {
        let RelayResponseFrame { session_token, relay_type, status, content } = response;
        match seal_content(holder, aes, false, session_token.as_str(), content.as_slice()) {
            Ok(content) => Ok(RelayResponseFrame { session_token, relay_type, status, content }),
            Err(e) => Err(e),
        }
    }

    /// Takes the next relay response frame off `src`, once it is all
    /// buffered (see [`decode_step`]); [`read_relay_response`] reads the
    /// response out of it.
    pub fn decode_frame(&mut self, src: &mut Vec<u8>) -> (r: Result<Option<Vec<u8>>, CodecError>)
        ensures
            r matches Err(e) ==> e is Io,
            decode_step(old(self).pending(), old(src)@) == (decoded_view(r), final(self).pending(), final(src)@),
    {
        self.length_delimited_codec.decode(src)
    }

    /// Takes the next relay response off `src`, once its frame is all
    /// buffered, reads it, and takes its content out from under its
    /// session's encryption (a session without an encryption is refused).
    /// The frame must be readable (the protocol's other side panics on one
    /// that is not).
    pub fn decode<H: EncryptionHolder, A: AesCrypto>(
        &mut self,
        holder: &H,
        aes: &A,
        src: &mut Vec<u8>,
    ) -> (r: Result<Option<RelayResponseFrame>, CodecError>)
        requires
            decode_step(old(self).pending(), old(src)@).0 matches Ok(Some(f)) ==> relay_response_readable(f),
        ensures
            ({
                let (step, pending, left) = decode_step(old(self).pending(), old(src)@);
                &&& final(self).pending() == pending
                &&& final(src)@ == left
                &&& match step {
                    Err(_) => r matches Err(CodecError::Io(_)),
                    Ok(None) => r matches Ok(None),
                    Ok(Some(f)) => match spec_read_relay_response(f) {
                        Err(e) => r == Err::<Option<RelayResponseFrame>, CodecError>(e),
                        Ok((token, status, relay_type, content)) => match r {
                            Ok(None) => false,
                            Ok(Some(q)) => session_content_outcome(holder, aes, false, token, content, Ok(q.content@))
                                && q.session_token@ == token && q.status == status && q.relay_type == relay_type,
                            Err(e) => session_content_outcome(holder, aes, false, token, content, Err(e)),
                        },
                    },
                }
            }),
    {
        match self.length_delimited_codec.decode(src) {
            Ok(Some(f)) => {
                let response = read_relay_response(f.as_slice());
                match response {
                    Ok(response) => match self.open(holder, aes, response) {
                        Ok(opened) => Ok(Some(opened)),
                        Err(e) => Err(e),
                    },
                    Err(e) => Err(e),
                }
            },
            Ok(None) => Ok(None),
            Err(e) => Err(e),
        }
    }
}

} // verus!
