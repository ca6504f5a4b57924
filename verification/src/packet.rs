//! The gzip packet codec: a packet's bytes, gzip-compressed at the fastest
//! level, in a length-delimited frame.
use crate::error::CodecError;
use crate::frame::{decode_step, frame_written, framed, lemma_frame_roundtrip, FrameCodec, MAX_FRAME_LENGTH};
use flate2::read::GzDecoder;
use flate2::write::GzEncoder;
use flate2::Compression;
use std::io::{Read, Write};
use vstd::prelude::*;

verus! {

/// What reading the gzip stream `data` to its end with `flate2::read::GzDecoder`
/// gives: the decompressed bytes, or nothing when the stream is broken.
pub uninterp spec fn gunzip(data: Seq<u8>) -> Option<Seq<u8>>;

/// The gzip stream that `flate2::write::GzEncoder` at `Compression::fast()`
/// writes for `data`, or nothing when compressing fails. The stream depends on
/// `data` alone: the header carries no time stamp and a fixed system byte.
pub uninterp spec fn gzip_fast_bytes(data: Seq<u8>) -> Option<Seq<u8>>;

/// `flate2::write::GzEncoder` at `Compression::fast()`, fed `data` and
/// finished: the named stream, which decompresses to `data`.
#[verifier::external_body]
fn gzip_fast(data: &[u8]) -> (r: Result<Vec<u8>, CodecError>)
    ensures
        r matches Ok(c) ==> gzip_fast_bytes(data@) == Some(c@) && gunzip(c@) == Some(data@),
        r is Err ==> gzip_fast_bytes(data@) is None && r matches Err(CodecError::Io(_)),
{
    let mut encoder = GzEncoder::new(Vec::new(), Compression::fast());
    match encoder.write_all(data) {
        Ok(()) => encoder.finish().map_err(|e| CodecError::Io(e.to_string())),
        Err(e) => Err(CodecError::Io(e.to_string())),
    }
}

/// `flate2::read::GzDecoder` over `data`, read to its end.
#[verifier::external_body]
fn gunzip_all(data: &[u8]) -> (r: Result<Vec<u8>, CodecError>)
    ensures
        r matches Err(e) ==> e is Io,
        r is Ok <==> gunzip(data@) is Some,
        r matches Ok(v) ==> gunzip(data@) == Some(v@),
{
    let mut decoder = GzDecoder::new(data);
    let mut out = Vec::new();
    match decoder.read_to_end(&mut out) {
        Ok(_) => Ok(out),
        Err(e) => Err(CodecError::Io(e.to_string())),
    }
}

/// One decode step of the packet codec: the frame decode step, with the
/// frame's payload decompressed (a broken stream fails the step).
pub open spec fn packet_decode_step(pending: Option<usize>, src: Seq<u8>) -> (Result<Option<Seq<u8>>, ()>, Option<usize>, Seq<u8>) {
    let (o, p, left) = decode_step(pending, src);
    match o {
        Ok(Some(c)) => match gunzip(c) {
            Some(d) => (Ok(Some(d)), p, left),
            None => (Err(()), p, left),
        },
        _ => (o, p, left),
    }
}

/// What a packet decode call returned, by views.
pub open spec fn packet_view(r: Result<Option<Vec<u8>>, CodecError>) -> Result<Option<Seq<u8>>, ()> {
    match r {
        Ok(Some(v)) => Ok(Some(v@)),
        Ok(None) => Ok(None),
        Err(_) => Err(()),
    }
}

/// Compresses packets with gzip and frames them, and back.
pub struct PpaassPacketCodec {
    length_delimited_codec: FrameCodec,
}

impl Default for PpaassPacketCodec {
    fn default() -> (c: Self)
        ensures
            c.pending() == None::<usize>,
    {
        PpaassPacketCodec { length_delimited_codec: FrameCodec::new() }
    }
}

impl PpaassPacketCodec {
    /// The payload length the codec has read and still waits for.
    pub closed spec fn pending(&self) -> Option<usize> {
        self.length_delimited_codec.pending()
    }

    /// Appends to `dst` the frame of the gzip-compressed `packet_bytes`: the
    /// frame carries the stream that gzip writes for them, which decompresses
    /// to `packet_bytes`. When compressing fails, or the stream is over the
    /// frame limit, it fails and `dst` is left as it was.
    pub fn encode(&mut self, packet_bytes: &[u8], dst: &mut Vec<u8>) -> (r: Result<(), CodecError>)
        ensures
            final(self).pending() == old(self).pending(),
            gzip_fast_bytes(packet_bytes@) is None ==> (r matches Err(CodecError::Io(_))) && final(dst)@ == old(dst)@,
            gzip_fast_bytes(packet_bytes@) matches Some(c) ==> gunzip(c) == Some(packet_bytes@)
                && frame_written(c, old(dst)@, r, final(dst)@),
    {
        let compressed = gzip_fast(packet_bytes);
        self.encode_compressed(compressed, dst)
    }

    /// Frames the outcome of compressing a packet: a compressed stream is
    /// appended to `dst` in a frame (or refused over the frame limit, leaving
    /// `dst` as it was); a failed compression is passed on, and `dst` left as
    /// it was.
    pub fn encode_compressed(&mut self, compressed: Result<Vec<u8>, CodecError>, dst: &mut Vec<u8>) -> (r: Result<(), CodecError>)
        ensures
            final(self).pending() == old(self).pending(),
            compressed matches Err(e) ==> r == Err::<(), CodecError>(e) && final(dst)@ == old(dst)@,
            compressed matches Ok(c) ==> frame_written(c@, old(dst)@, r, final(dst)@),
    {
        match compressed {
            Ok(c) => self.length_delimited_codec.encode(c.as_slice(), dst),
            Err(e) => Err(e),
        }
    }

    /// Takes the next frame off `src`, once it is all buffered, and
    /// decompresses its payload.
    pub fn decode(&mut self, src: &mut Vec<u8>) -> (r: Result<Option<Vec<u8>>, CodecError>)
        ensures
            r matches Err(e) ==> e is Io,
            packet_decode_step(old(self).pending(), old(src)@) == (packet_view(r), final(self).pending(), final(src)@),
    {
        match self.length_delimited_codec.decode(src) {
            Ok(Some(received)) => {
                let packet = gunzip_all(received.as_slice())?;
                Ok(Some(packet))
            },
            Ok(None) => Ok(None),
            Err(e) => Err(e),
        }
    }
}

/// What the packet codec writes, it reads back: a codec that waits for a
/// header, given the frame of a compressed stream of `packet` and any further
/// bytes, gives `packet` and leaves the further bytes.
pub proof fn lemma_packet_roundtrip(compressed: Seq<u8>, packet: Seq<u8>, rest: Seq<u8>)
    requires
        compressed.len() <= MAX_FRAME_LENGTH,
        gunzip(compressed) == Some(packet),
    ensures
        packet_decode_step(None, framed(compressed) + rest) == (Ok::<Option<Seq<u8>>, ()>(Some(packet)), None::<usize>, rest),
{
    lemma_frame_roundtrip(compressed, rest);
}

} // verus!
