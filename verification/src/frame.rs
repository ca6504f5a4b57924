//! Length-delimited framing, as done by `tokio_util`'s `LengthDelimitedCodec` in
//! its default configuration: a frame is its payload preceded by the payload's
//! length as a 4-byte big-endian integer, and payloads longer than 8 MiB are
//! refused.
use crate::error::CodecError;
use bytes::BytesMut;
use tokio_util::codec::{Decoder, Encoder, LengthDelimitedCodec};
use vstd::prelude::*;

verus! {

#[verifier::external_type_specification]
#[verifier::external_body]
pub struct ExLengthDelimitedCodec(LengthDelimitedCodec);

/// The largest payload that a frame may carry (8 MiB).
pub const MAX_FRAME_LENGTH: usize = 8388608;

/// The 4-byte big-endian header announcing a payload of `n` bytes.
pub open spec fn frame_header(n: u32) -> Seq<u8> {
    seq![(n >> 24u32) as u8, (n >> 16u32) as u8, (n >> 8u32) as u8, n as u8]
}

/// The length announced by a 4-byte big-endian header.
pub open spec fn header_value(b: Seq<u8>) -> u32
    recommends
        b.len() >= 4,
{
    ((b[0] as u32) << 24u32) | ((b[1] as u32) << 16u32) | ((b[2] as u32) << 8u32) | (b[3] as u32)
}

/// The bytes of a whole frame carrying `payload`.
pub open spec fn framed(payload: Seq<u8>) -> Seq<u8> {
    frame_header(payload.len() as u32) + payload
}

/// The payload length that a codec has read from a header and is still
/// waiting for; `None` while it waits for a header.
pub uninterp spec fn pending_frame_length(codec: LengthDelimitedCodec) -> Option<usize>;

/// The outcome of one decode step: the frame or its absence (or a refused
/// header), the length still awaited afterwards, and the bytes left unread.
pub type DecodeStep = (Result<Option<Seq<u8>>, ()>, Option<usize>, Seq<u8>);

/// Takes a payload of `n` bytes off the front of `src` once it is all there.
pub open spec fn take_payload(n: usize, src: Seq<u8>) -> DecodeStep {
    if src.len() < n {
        (Ok(None), Some(n), src)
    } else {
        (Ok(Some(src.take(n as int))), None, src.skip(n as int))
    }
}

/// One decode step of a length-delimited codec that awaits `pending`, on the
/// buffered bytes `src`.
pub open spec fn decode_step(pending: Option<usize>, src: Seq<u8>) -> DecodeStep {
    match pending {
        None => {
            if src.len() < 4 {
                (Ok(None), None, src)
            } else if header_value(src) > MAX_FRAME_LENGTH {
                (Err(()), None, src)
            } else {
                take_payload(header_value(src) as usize, src.skip(4))
            }
        },
        Some(n) => take_payload(n, src),
    }
}

/// What an encode call must have done: appended the frame of `payload` to
/// `before`, or, for a payload over the limit, failed and left it as it was.
pub open spec fn frame_written(
    payload: Seq<u8>,
    before: Seq<u8>,
    r: Result<(), CodecError>,
    after: Seq<u8>,
) -> bool {
    if payload.len() > MAX_FRAME_LENGTH {
        (r matches Err(CodecError::Io(_))) && after == before
    } else {
        r is Ok && after == before + framed(payload)
    }
}

/// What a decode call returned, by views.
pub open spec fn decoded_view(r: Result<Option<Vec<u8>>, CodecError>) -> Result<Option<Seq<u8>>, ()> {
    match r {
        Ok(Some(v)) => Ok(Some(v@)),
        Ok(None) => Ok(None),
        Err(_) => Err(()),
    }
}

/// Reading back a frame header gives the length it announces.
pub proof fn lemma_header_roundtrip(n: u32)
    ensures
        frame_header(n).len() == 4,
        header_value(frame_header(n)) == n,
{
    let h = frame_header(n);
    let (b0, b1, b2, b3) = (h[0], h[1], h[2], h[3]);
    assert(((b0 as u32) << 24u32) | ((b1 as u32) << 16u32) | ((b2 as u32) << 8u32) | (b3 as u32)
        == n) by (bit_vector)
        requires
            b0 == (n >> 24u32) as u8,
            b1 == (n >> 16u32) as u8,
            b2 == (n >> 8u32) as u8,
            b3 == n as u8,
    ;
}

/// A codec that waits for a header, given a whole frame followed by any
/// further bytes, hands out the frame's payload, leaves the further bytes,
/// and waits for a header again.
pub proof fn lemma_frame_roundtrip(payload: Seq<u8>, rest: Seq<u8>)
    requires
        payload.len() <= MAX_FRAME_LENGTH,
    ensures
        decode_step(None, framed(payload) + rest) == (Ok::<Option<Seq<u8>>, ()>(Some(payload)), None::<usize>, rest),
{
    let n = payload.len() as u32;
    lemma_header_roundtrip(n);
    let s = framed(payload) + rest;
    assert(s.take(4) =~= frame_header(n));
    assert(header_value(s) == header_value(s.take(4)));
    assert(s.skip(4) =~= payload + rest);
    assert((payload + rest).take(payload.len() as int) =~= payload);
    assert((payload + rest).skip(payload.len() as int) =~= rest);
}

/// However the bytes of a frame are split into two deliveries, a codec that
/// waits for a header gives nothing for the first part, and for what it left
/// of the first part followed by the second part and any further bytes, it
/// hands out the frame's payload and leaves the further bytes.
pub proof fn lemma_frame_split_delivery(payload: Seq<u8>, rest: Seq<u8>, k: int)
    requires
        payload.len() <= MAX_FRAME_LENGTH,
        0 <= k < framed(payload).len(),
    ensures
        ({
            let whole = framed(payload);
            let (first, pending, left) = decode_step(None, whole.take(k));
            &&& first == Ok::<Option<Seq<u8>>, ()>(None)
            &&& decode_step(pending, left + whole.skip(k) + rest) == (Ok::<Option<Seq<u8>>, ()>(
                Some(payload),
            ), None::<usize>, rest)
        }),
{
    let whole = framed(payload);
    let n = payload.len() as u32;
    lemma_header_roundtrip(n);
    lemma_frame_roundtrip(payload, rest);
    if k < 4 {
        assert(whole.take(k) + whole.skip(k) + rest =~= whole + rest);
    } else {
        let part = whole.take(k);
        assert(part.take(4) =~= frame_header(n));
        assert(header_value(part) == header_value(part.take(4)));
        assert(part.skip(4) =~= payload.take(k - 4));
        assert(part.skip(4) + whole.skip(k) + rest =~= payload + rest);
        assert((payload + rest).take(payload.len() as int) =~= payload);
        assert((payload + rest).skip(payload.len() as int) =~= rest);
    }
}

/// `LengthDelimitedCodec::new`: a codec in its default configuration that
/// waits for a header.
#[verifier::external_body]
fn length_delimited_codec_new() -> (codec: LengthDelimitedCodec)
    ensures
        pending_frame_length(codec) == None::<usize>,
{
    LengthDelimitedCodec::new()
}

/// `<LengthDelimitedCodec as Decoder>::decode`, on a buffer held as a `Vec`.
/// With no length pending it needs 4 header bytes, refuses a length above
/// 8 MiB with an I/O error (consuming nothing), and otherwise consumes the header and records
/// the length; with a length `n` pending it hands out the next `n` bytes as
/// the frame once they are buffered and then waits for a header again.
#[verifier::external_body]
fn length_delimited_decode(codec: &mut LengthDelimitedCodec, src: &mut Vec<u8>) -> (r: Result<
    Option<Vec<u8>>,
    CodecError,
>)
    ensures
        r matches Err(e) ==> e is Io,
        decode_step(pending_frame_length(*old(codec)), old(src)@) == (
            decoded_view(r),
            pending_frame_length(*final(codec)),
            final(src)@,
        ),
{
    let mut buf = BytesMut::from(&src[..]);
    let r = codec.decode(&mut buf);
    *src = buf.to_vec();
    match r {
        Ok(Some(frame)) => Ok(Some(frame.to_vec())),
        Ok(None) => Ok(None),
        Err(e) => Err(CodecError::Io(e.to_string())),
    }
}

/// `<LengthDelimitedCodec as Encoder<&[u8]>>::encode`: appends the 4-byte
/// big-endian length of `data` and then `data` to `dst`, or refuses `data`
/// longer than 8 MiB with an I/O error (carried as its message) and leaves
/// `dst` as it was. The codec's decode state is
/// not touched.
#[verifier::external_body]
fn length_delimited_encode(codec: &mut LengthDelimitedCodec, data: &[u8], dst: &mut Vec<u8>) -> (r:
    Result<(), CodecError>)
    ensures
        pending_frame_length(*final(codec)) == pending_frame_length(*old(codec)),
        data@.len() > MAX_FRAME_LENGTH ==> (r matches Err(CodecError::Io(_))) && final(dst)@ == old(dst)@,
        data@.len() <= MAX_FRAME_LENGTH ==> r is Ok && final(dst)@ == old(dst)@ + framed(data@),
{
    let mut buf = BytesMut::new();
    let r = codec.encode(data, &mut buf);
    dst.extend_from_slice(&buf);
    r.map_err(|e| CodecError::Io(e.to_string()))
}

/// A length-delimited frame codec: the framing that every packet codec of the
/// library sits on.
pub struct FrameCodec {
    length_delimited_codec: LengthDelimitedCodec,
}

impl FrameCodec {
    /// The payload length this codec has read and still waits for.
    pub closed spec fn pending(&self) -> Option<usize> {
        pending_frame_length(self.length_delimited_codec)
    }

    /// A codec that waits for a header.
    pub fn new() -> (codec: Self)
        ensures
            codec.pending() == None::<usize>,
    {
        FrameCodec { length_delimited_codec: length_delimited_codec_new() }
    }

    /// Appends the frame carrying `payload` to `dst`; a payload over 8 MiB is
    /// refused and `dst` is left as it was.
    pub fn encode(&mut self, payload: &[u8], dst: &mut Vec<u8>) -> (r: Result<(), CodecError>)
        ensures
            final(self).pending() == old(self).pending(),
            payload@.len() > MAX_FRAME_LENGTH ==> (r matches Err(CodecError::Io(_))) && final(dst)@ == old(dst)@,
            payload@.len() <= MAX_FRAME_LENGTH ==> r is Ok && final(dst)@ == old(dst)@ + framed(payload@),
    {
        length_delimited_encode(&mut self.length_delimited_codec, payload, dst)
    }

    /// Takes the next frame's payload off the front of `src`, if it is all
    /// buffered (see [`decode_step`]).
    pub fn decode(&mut self, src: &mut Vec<u8>) -> (r: Result<Option<Vec<u8>>, CodecError>)
        ensures
            r matches Err(e) ==> e is Io,
            decode_step(old(self).pending(), old(src)@) == (decoded_view(r), final(self).pending(), final(src)@),
    {
        length_delimited_decode(&mut self.length_delimited_codec, src)
    }
}

} // verus!
