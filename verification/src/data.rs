//! Data packet codecs: a serialised data packet, encrypted under the
//! codec's encryption when that is AES, in a length-delimited frame.
use crate::domain::Encryption;
use crate::error::CodecError;
use crate::frame::{decode_step, frame_written, framed, lemma_frame_roundtrip, FrameCodec};
use crate::holder::AesCrypto;
use crate::seal::{aes_inverts, apply_encryption, bytes_view, content_outcome, lemma_content_roundtrip};
use vstd::prelude::*;

verus! {

/// What encoding a packet body under `encryption` may have done: the body
/// put under the encryption and framed onto `before`; a failed encryption
/// passed on with nothing written.
pub open spec fn sealed_frame_written<A: AesCrypto>(
    aes: &A,
    encryption: Encryption,
    body: Seq<u8>,
    before: Seq<u8>,
    r: Result<(), CodecError>,
    after: Seq<u8>,
) -> bool {
    exists|sealed: Result<Seq<u8>, CodecError>|
        #[trigger] content_outcome(aes, true, encryption, body, sealed) && match sealed {
            Err(e) => r == Err::<(), CodecError>(e) && after == before,
            Ok(c) => frame_written(c, before, r, after),
        }
}

/// What decoding under `encryption` may give for the frame step `step`: a
/// framing error, no frame yet, or the frame's payload taken out from under
/// the encryption (a failed decryption passed on).
pub open spec fn opened_frame<A: AesCrypto>(
    aes: &A,
    encryption: Encryption,
    step: Result<Option<Seq<u8>>, ()>,
    r: Result<Option<Vec<u8>>, CodecError>,
) -> bool {
    match step {
        Err(_) => r matches Err(CodecError::Io(_)),
        Ok(None) => r == Ok::<Option<Vec<u8>>, CodecError>(None),
        Ok(Some(payload)) => exists|o: Result<Seq<u8>, CodecError>|
            content_outcome(aes, false, encryption, payload, o) && #[trigger] opened_result(o, r),
    }
}

proof fn lemma_opened<A: AesCrypto>(
    aes: &A,
    encryption: Encryption,
    payload: Seq<u8>,
    o: Result<Seq<u8>, CodecError>,
    r: Result<Option<Vec<u8>>, CodecError>,
)
    requires
        content_outcome(aes, false, encryption, payload, o),
        opened_result(o, r),
    ensures
        opened_frame(aes, encryption, Ok(Some(payload)), r),
{
}

/// What a data encoder writes, a data decoder under the same encryption reads
/// back: a decoder that waits for a header, given the bytes written for a
/// packet body and any further bytes, hands out that body and leaves the
/// further bytes (for a cipher whose decryption undoes its encryption).
pub proof fn lemma_data_roundtrip<A: AesCrypto>(
    aes: &A,
    encryption: Encryption,
    body: Seq<u8>,
    written: Seq<u8>,
    rest: Seq<u8>,
    r: Result<Option<Vec<u8>>, CodecError>,
)
    requires
        aes_inverts(aes),
        sealed_frame_written(aes, encryption, body, Seq::<u8>::empty(), Ok::<(), CodecError>(()), written),
        opened_frame(aes, encryption, decode_step(None, written + rest).0, r),
    ensures
        decode_step(None, written + rest).1 == None::<usize>,
        decode_step(None, written + rest).2 == rest,
        r matches Ok(Some(v)) && v@ == body,
{
    let sealed = choose|sealed: Result<Seq<u8>, CodecError>|
        #[trigger] content_outcome(aes, true, encryption, body, sealed) && match sealed {
            Err(e) => Ok::<(), CodecError>(()) == Err::<(), CodecError>(e) && written == Seq::<u8>::empty(),
            Ok(c) => frame_written(c, Seq::<u8>::empty(), Ok::<(), CodecError>(()), written),
        };
    let c = sealed->Ok_0;
    assert(written == framed(c)) by {
        assert(Seq::<u8>::empty() + framed(c) =~= framed(c));
    }
    lemma_frame_roundtrip(c, rest);
    let o = choose|o: Result<Seq<u8>, CodecError>|
        content_outcome(aes, false, encryption, c, o) && #[trigger] opened_result(o, r);
    lemma_content_roundtrip(aes, encryption, body, c, o);
}

/// Whether `r` hands out the opened payload `o` (or its error).
pub open spec fn opened_result(o: Result<Seq<u8>, CodecError>, r: Result<Option<Vec<u8>>, CodecError>) -> bool {
    match o {
        Ok(d) => r matches Ok(Some(v)) && v@ == d,
        Err(e) => r == Err::<Option<Vec<u8>>, CodecError>(e),
    }
}

/// Frames the agent's data packets.
pub struct AgentDataPacketEncoder {
    length_delimited_codec: FrameCodec,
    encryption: Encryption,
}

impl AgentDataPacketEncoder {
    /// The encryption that packet bodies are put under before framing.
    pub closed spec fn spec_encryption(&self) -> Encryption {
        self.encryption
    }

    pub fn new(encryption: Encryption) -> (e: Self)
        ensures
            e.spec_encryption() == encryption,
    {
        AgentDataPacketEncoder { length_delimited_codec: FrameCodec::new(), encryption }
    }

    /// The encryption that packet bodies are put under before framing.
    pub fn encryption(&self) -> (e: &Encryption)
        ensures
            *e == self.spec_encryption(),
    {
        &self.encryption
    }

    /// Puts a serialised packet body under the codec's encryption (as it is
    /// when plain, encrypted under the key when AES) and appends its frame to
    /// `dst`; a failed encryption is passed on and nothing written.
    pub fn encode<A: AesCrypto>(&mut self, aes: &A, body: &[u8], dst: &mut Vec<u8>) -> (r: Result<(), CodecError>)
        ensures
            sealed_frame_written(aes, old(self).spec_encryption(), body@, old(dst)@, r, final(dst)@),
            final(self).spec_encryption() == old(self).spec_encryption(),
    {
        let sealed = apply_encryption(aes, true, &self.encryption, body);
        assert(content_outcome(aes, true, self.encryption, body@, bytes_view(sealed)));
        match sealed {
            Ok(c) => self.length_delimited_codec.encode(c.as_slice(), dst),
            Err(e) => Err(e),
        }
    }
}

/// Unframes the agent's data packets; used by the proxy.
pub struct AgentDataPacketDecoder {
    length_delimited_codec: FrameCodec,
    encryption: Encryption,
}

impl AgentDataPacketDecoder {
    /// The payload length the decoder has read and still waits for.
    pub closed spec fn pending(&self) -> Option<usize> {
        self.length_delimited_codec.pending()
    }

    /// The encryption that packet bodies are under.
    pub closed spec fn spec_encryption(&self) -> Encryption {
        self.encryption
    }

    pub fn new(encryption: Encryption) -> (d: Self)
        ensures
            d.pending() == None::<usize>,
            d.spec_encryption() == encryption,
    {
        AgentDataPacketDecoder { length_delimited_codec: FrameCodec::new(), encryption }
    }

    /// The encryption that packet bodies are under.
    pub fn encryption(&self) -> (e: &Encryption)
        ensures
            *e == self.spec_encryption(),
    {
        &self.encryption
    }

    /// Takes the frame of the next packet body off `src`, once it is all
    /// buffered, and takes the body out from under the codec's encryption
    /// (as it is when plain, decrypted under the key when AES).
    pub fn decode<A: AesCrypto>(&mut self, aes: &A, src: &mut Vec<u8>) -> (r: Result<Option<Vec<u8>>, CodecError>)
        ensures
            ({
                let (step, pending, left) = decode_step(old(self).pending(), old(src)@);
                &&& final(self).pending() == pending
                &&& final(src)@ == left
                &&& opened_frame(aes, old(self).spec_encryption(), step, r)
            }),
            final(self).spec_encryption() == old(self).spec_encryption(),
    {
        let framed = self.length_delimited_codec.decode(src);
        match framed {
            Ok(Some(f)) => {
                let opened = apply_encryption(aes, false, &self.encryption, f.as_slice());
                let ghost o = bytes_view(opened);
                let r = match opened {
                    Ok(d) => Ok(Some(d)),
                    Err(e) => Err(e),
                };
                proof {
                    lemma_opened(aes, self.encryption, f@, o, r);
                }
                r
            },
            Ok(None) => Ok(None),
            Err(e) => Err(e),
        }
    }
}

/// Frames the proxy's data packets.
pub struct ProxyDataPacketEncoder {
    length_delimited_codec: FrameCodec,
    encryption: Encryption,
}

impl ProxyDataPacketEncoder {
    /// The encryption that packet bodies are put under before framing.
    pub closed spec fn spec_encryption(&self) -> Encryption {
        self.encryption
    }

    pub fn new(encryption: Encryption) -> (e: Self)
        ensures
            e.spec_encryption() == encryption,
    {
        ProxyDataPacketEncoder { length_delimited_codec: FrameCodec::new(), encryption }
    }

    /// The encryption that packet bodies are put under before framing.
    pub fn encryption(&self) -> (e: &Encryption)
        ensures
            *e == self.spec_encryption(),
    {
        &self.encryption
    }

    /// Puts a serialised packet body under the codec's encryption (as it is
    /// when plain, encrypted under the key when AES) and appends its frame to
    /// `dst`; a failed encryption is passed on and nothing written.
    pub fn encode<A: AesCrypto>(&mut self, aes: &A, body: &[u8], dst: &mut Vec<u8>) -> (r: Result<(), CodecError>)
        ensures
            sealed_frame_written(aes, old(self).spec_encryption(), body@, old(dst)@, r, final(dst)@),
            final(self).spec_encryption() == old(self).spec_encryption(),
    {
        let sealed = apply_encryption(aes, true, &self.encryption, body);
        assert(content_outcome(aes, true, self.encryption, body@, bytes_view(sealed)));
        match sealed {
            Ok(c) => self.length_delimited_codec.encode(c.as_slice(), dst),
            Err(e) => Err(e),
        }
    }
}

/// Unframes the proxy's data packets; used by the agent.
pub struct ProxyDataPacketDecoder {
    length_delimited_codec: FrameCodec,
    encryption: Encryption,
}

impl ProxyDataPacketDecoder {
    /// The payload length the decoder has read and still waits for.
    pub closed spec fn pending(&self) -> Option<usize> {
        self.length_delimited_codec.pending()
    }

    /// The encryption that packet bodies are under.
    pub closed spec fn spec_encryption(&self) -> Encryption {
        self.encryption
    }

    pub fn new(encryption: Encryption) -> (d: Self)
        ensures
            d.pending() == None::<usize>,
            d.spec_encryption() == encryption,
    {
        ProxyDataPacketDecoder { length_delimited_codec: FrameCodec::new(), encryption }
    }

    /// The encryption that packet bodies are under.
    pub fn encryption(&self) -> (e: &Encryption)
        ensures
            *e == self.spec_encryption(),
    {
        &self.encryption
    }

    /// Takes the frame of the next packet body off `src`, once it is all
    /// buffered, and takes the body out from under the codec's encryption
    /// (as it is when plain, decrypted under the key when AES).
    pub fn decode<A: AesCrypto>(&mut self, aes: &A, src: &mut Vec<u8>) -> (r: Result<Option<Vec<u8>>, CodecError>)
        ensures
            ({
                let (step, pending, left) = decode_step(old(self).pending(), old(src)@);
                &&& final(self).pending() == pending
                &&& final(src)@ == left
                &&& opened_frame(aes, old(self).spec_encryption(), step, r)
            }),
            final(self).spec_encryption() == old(self).spec_encryption(),
    {
        let framed = self.length_delimited_codec.decode(src);
        match framed {
            Ok(Some(f)) => {
                let opened = apply_encryption(aes, false, &self.encryption, f.as_slice());
                let ghost o = bytes_view(opened);
                let r = match opened {
                    Ok(d) => Ok(Some(d)),
                    Err(e) => Err(e),
                };
                proof {
                    lemma_opened(aes, self.encryption, f@, o, r);
                }
                r
            },
            Ok(None) => Ok(None),
            Err(e) => Err(e),
        }
    }
}

} // verus!
