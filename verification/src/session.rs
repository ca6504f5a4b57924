//! Session init codecs: the encryption of a session request or answer has
//! its AES key sealed with the user's RSA key pair and, once serialised, goes
//! in a length-delimited frame; on the other side it is unframed and, once
//! deserialised, has its key opened.
use crate::domain::Encryption;
use crate::error::CodecError;
use crate::frame::{decode_step, decoded_view, frame_written, framed, lemma_frame_roundtrip, FrameCodec, MAX_FRAME_LENGTH};
use crate::holder::RsaCryptoHolder;
use crate::seal::{keys_match, lemma_key_roundtrip, same_encryption, seal_or_open, sealing_outcome};
use vstd::prelude::*;

verus! {

/// Frames session init requests; used by the agent.
pub struct SessionInitRequestEncoder {
    length_delimited_codec: FrameCodec,
}

impl SessionInitRequestEncoder {
    /// The payload length its frame codec has read and still waits for
    /// (an encoder never reads, so it stays as the codec was made).
    pub closed spec fn pending(&self) -> Option<usize> {
        self.length_delimited_codec.pending()
    }

    /// An encoder over a fresh frame codec, waiting for a header.
    pub fn new() -> (e: Self)
        ensures
            e.pending() == None::<usize>,
    {
        SessionInitRequestEncoder { length_delimited_codec: FrameCodec::new() }
    }

    /// The agent's encryption as a request of the user with `auth_token`
    /// carries it: its AES key sealed with that user's key pair (a user
    /// without one is refused, whatever the encryption).
    pub fn seal_agent_encryption<H: RsaCryptoHolder>(&self, holder: &H, auth_token: &str, agent_encryption: Encryption) -> (r: Result<Encryption, CodecError>)
        ensures
            sealing_outcome(holder, auth_token@, true, agent_encryption, r),
    {
        seal_or_open(holder, auth_token, true, agent_encryption)
    }

    /// Appends to `dst` the frame carrying the serialised session init request.
    pub fn encode(&mut self, item_bytes: &[u8], dst: &mut Vec<u8>) -> (r: Result<(), CodecError>)
        ensures
            frame_written(item_bytes@, old(dst)@, r, final(dst)@),
    {
        self.length_delimited_codec.encode(item_bytes, dst)
    }
}

/// Unframes session init requests; used by the proxy.
pub struct SessionInitRequestDecoder {
    length_delimited_codec: FrameCodec,
}

impl SessionInitRequestDecoder {
    /// The payload length the decoder has read and still waits for.
    pub closed spec fn pending(&self) -> Option<usize> {
        self.length_delimited_codec.pending()
    }

    pub fn new() -> (d: Self)
        ensures
            d.pending() == None::<usize>,
    {
        SessionInitRequestDecoder { length_delimited_codec: FrameCodec::new() }
    }

    /// The agent's encryption as read from a request of the user with
    /// `auth_token`: its AES key opened with that user's key pair (a user
    /// without one is refused, whatever the encryption).
    pub fn open_agent_encryption<H: RsaCryptoHolder>(&self, holder: &H, auth_token: &str, agent_encryption: Encryption) -> (r: Result<Encryption, CodecError>)
        ensures
            sealing_outcome(holder, auth_token@, false, agent_encryption, r),
    {
        seal_or_open(holder, auth_token, false, agent_encryption)
    }

    /// Takes the frame of the next serialised session init request off `src`, once it
    /// is all buffered.
    pub fn decode(&mut self, src: &mut Vec<u8>) -> (r: Result<Option<Vec<u8>>, CodecError>)
        ensures
            r matches Err(e) ==> e is Io,
            decode_step(old(self).pending(), old(src)@) == (decoded_view(r), final(self).pending(), final(src)@),
    {
        self.length_delimited_codec.decode(src)
    }
}

/// Frames session init responses; used by the proxy.
pub struct SessionInitResponseEncoder {
    length_delimited_codec: FrameCodec,
}

impl SessionInitResponseEncoder {
    /// The payload length its frame codec has read and still waits for
    /// (an encoder never reads, so it stays as the codec was made).
    pub closed spec fn pending(&self) -> Option<usize> {
        self.length_delimited_codec.pending()
    }

    /// An encoder over a fresh frame codec, waiting for a header.
    pub fn new() -> (e: Self)
        ensures
            e.pending() == None::<usize>,
    {
        SessionInitResponseEncoder { length_delimited_codec: FrameCodec::new() }
    }

    /// The proxy's encryption as the answer to the user with `auth_token`
    /// carries it: its AES key sealed with that user's key pair (a user
    /// without one is refused, whatever the encryption).
    pub fn seal_proxy_encryption<H: RsaCryptoHolder>(&self, holder: &H, auth_token: &str, proxy_encryption: Encryption) -> (r: Result<Encryption, CodecError>)
        ensures
            sealing_outcome(holder, auth_token@, true, proxy_encryption, r),
    {
        seal_or_open(holder, auth_token, true, proxy_encryption)
    }

    /// Appends to `dst` the frame carrying the serialised session init response.
    pub fn encode(&mut self, item_bytes: &[u8], dst: &mut Vec<u8>) -> (r: Result<(), CodecError>)
        ensures
            frame_written(item_bytes@, old(dst)@, r, final(dst)@),
    {
        self.length_delimited_codec.encode(item_bytes, dst)
    }
}

/// Unframes session init responses for one user; used by the agent.
pub struct SessionInitResponseDecoder {
    length_delimited_codec: FrameCodec,
    auth_token: String,
}

impl SessionInitResponseDecoder {
    /// The payload length the decoder has read and still waits for.
    pub closed spec fn pending(&self) -> Option<usize> {
        self.length_delimited_codec.pending()
    }

    /// The auth token of the user whose answers this decoder reads.
    pub closed spec fn spec_auth_token(&self) -> Seq<char> {
        self.auth_token@
    }

    /// The auth token of the user whose answers this decoder reads.
    pub fn auth_token(&self) -> (t: &str)
        ensures
            t@ == self.spec_auth_token(),
    {
        self.auth_token.as_str()
    }

    pub fn new(auth_token: String) -> (d: Self)
        ensures
            d.pending() == None::<usize>,
            d.spec_auth_token() == auth_token@,
    {
        SessionInitResponseDecoder { length_delimited_codec: FrameCodec::new(), auth_token }
    }

    /// The proxy's encryption as read from an answer: its AES key opened with
    /// the key pair of this decoder's own user (a user without one is
    /// refused, whatever the encryption).
    pub fn open_proxy_encryption<H: RsaCryptoHolder>(&self, holder: &H, proxy_encryption: Encryption) -> (r: Result<Encryption, CodecError>)
        ensures
            sealing_outcome(holder, self.spec_auth_token(), false, proxy_encryption, r),
    {
        seal_or_open(holder, self.auth_token.as_str(), false, proxy_encryption)
    }

    /// Takes the frame of the next serialised session init response off `src`, once it
    /// is all buffered.
    pub fn decode(&mut self, src: &mut Vec<u8>) -> (r: Result<Option<Vec<u8>>, CodecError>)
        ensures
            r matches Err(e) ==> e is Io,
            decode_step(old(self).pending(), old(src)@) == (decoded_view(r), final(self).pending(), final(src)@), final(self).spec_auth_token() == old(self).spec_auth_token(),
    {
        self.length_delimited_codec.decode(src)
    }
}

/// What one side of a session init seals and frames, the other side unframes
/// and opens back: the frame's payload (the serialised request or answer
/// that carries the sealed encryption) comes out whole ahead of any further
/// bytes, and the encryption read from it opens to the encryption that went
/// in, when the two sides hold the two halves of the user's key pair. For a
/// request the user is the one named in it; for an answer, the decoder's own.
pub proof fn lemma_session_roundtrip<H1: RsaCryptoHolder, H2: RsaCryptoHolder>(
    sealer: &H1,
    opener: &H2,
    auth_token: Seq<char>,
    encryption: Encryption,
    sealed: Encryption,
    body: Seq<u8>,
    rest: Seq<u8>,
    opened: Result<Encryption, CodecError>,
)
    requires
        keys_match(sealer, opener, auth_token),
        sealing_outcome(sealer, auth_token, true, encryption, Ok(sealed)),
        body.len() <= MAX_FRAME_LENGTH,
        sealing_outcome(opener, auth_token, false, sealed, opened),
    ensures
        decode_step(None, framed(body) + rest) == (Ok::<Option<Seq<u8>>, ()>(Some(body)), None::<usize>, rest),
        opened matches Ok(e) && same_encryption(e, encryption),
{
    lemma_frame_roundtrip(body, rest);
    lemma_key_roundtrip(sealer, opener, auth_token, encryption, sealed, opened);
}

} // verus!
