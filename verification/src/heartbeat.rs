//! Heartbeat codecs: a serialised heartbeat in a length-delimited frame.
use crate::error::CodecError;
use crate::frame::{decode_step, decoded_view, frame_written, FrameCodec};
use vstd::prelude::*;

verus! {

/// Frames heartbeat pings; used by the agent.
pub struct HeartbeatPingEncoder {
    length_delimited_codec: FrameCodec,
}

impl HeartbeatPingEncoder {
    /// The payload length its frame codec has read and still waits for
    /// (an encoder never reads, so it stays as the codec was made).
    pub closed spec fn pending(&self) -> Option<usize> {
        self.length_delimited_codec.pending()
    }

    /// An encoder over a fresh frame codec, waiting for a header.
    pub fn new() -> (e: Self)
        ensures
            e.pending() == None::<usize>,
    {
        HeartbeatPingEncoder { length_delimited_codec: FrameCodec::new() }
    }

    /// Appends to `dst` the frame carrying the serialised heartbeat ping.
    pub fn encode(&mut self, item_bytes: &[u8], dst: &mut Vec<u8>) -> (r: Result<(), CodecError>)
        ensures
            frame_written(item_bytes@, old(dst)@, r, final(dst)@),
    {
        self.length_delimited_codec.encode(item_bytes, dst)
    }
}

/// Unframes heartbeat pings; used by the proxy.
pub struct HeartbeatPingDecoder {
    length_delimited_codec: FrameCodec,
}

impl HeartbeatPingDecoder {
    /// The payload length the decoder has read and still waits for.
    pub closed spec fn pending(&self) -> Option<usize> {
        self.length_delimited_codec.pending()
    }

    pub fn new() -> (d: Self)
        ensures
            d.pending() == None::<usize>,
    {
        HeartbeatPingDecoder { length_delimited_codec: FrameCodec::new() }
    }

    /// Takes the frame of the next serialised heartbeat ping off `src`, once it
    /// is all buffered.
    pub fn decode(&mut self, src: &mut Vec<u8>) -> (r: Result<Option<Vec<u8>>, CodecError>)
        ensures
            r matches Err(e) ==> e is Io,
            decode_step(old(self).pending(), old(src)@) == (decoded_view(r), final(self).pending(), final(src)@),
    {
        self.length_delimited_codec.decode(src)
    }
}

/// Frames heartbeat pongs; used by the proxy.
pub struct HeartbeatPongEncoder {
    length_delimited_codec: FrameCodec,
}

impl HeartbeatPongEncoder {
    /// The payload length its frame codec has read and still waits for
    /// (an encoder never reads, so it stays as the codec was made).
    pub closed spec fn pending(&self) -> Option<usize> {
        self.length_delimited_codec.pending()
    }

    /// An encoder over a fresh frame codec, waiting for a header.
    pub fn new() -> (e: Self)
        ensures
            e.pending() == None::<usize>,
    {
        HeartbeatPongEncoder { length_delimited_codec: FrameCodec::new() }
    }

    /// Appends to `dst` the frame carrying the serialised heartbeat pong.
    pub fn encode(&mut self, item_bytes: &[u8], dst: &mut Vec<u8>) -> (r: Result<(), CodecError>)
        ensures
            frame_written(item_bytes@, old(dst)@, r, final(dst)@),
    {
        self.length_delimited_codec.encode(item_bytes, dst)
    }
}

/// Unframes heartbeat pongs; used by the agent.
pub struct HeartbeatPongDecoder {
    length_delimited_codec: FrameCodec,
}

impl HeartbeatPongDecoder {
    /// The payload length the decoder has read and still waits for.
    pub closed spec fn pending(&self) -> Option<usize> {
        self.length_delimited_codec.pending()
    }

    pub fn new() -> (d: Self)
        ensures
            d.pending() == None::<usize>,
    {
        HeartbeatPongDecoder { length_delimited_codec: FrameCodec::new() }
    }

    /// Takes the frame of the next serialised heartbeat pong off `src`, once it
    /// is all buffered.
    pub fn decode(&mut self, src: &mut Vec<u8>) -> (r: Result<Option<Vec<u8>>, CodecError>)
        ensures
            r matches Err(e) ==> e is Io,
            decode_step(old(self).pending(), old(src)@) == (decoded_view(r), final(self).pending(), final(src)@),
    {
        self.length_delimited_codec.decode(src)
    }
}

} // verus!
