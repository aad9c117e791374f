//! The codec that a framed stream is driven by: frames in, frames out.

use vstd::prelude::*;
use bytes::BytesMut;
use crate::buffer::buffer_contents;
use crate::error::ProtocolError;
use crate::frame::{decode_spec, Frame, FrameView, CRC_LEN, HEADER_SIZE};

verus! {

/// The frame codec. It keeps no state between calls: all that a decoder
/// needs to remember is in the buffer it is handed.
pub struct SentinelCodec;

impl SentinelCodec {
    pub fn new() -> (codec: Self)
        ensures
            codec == SentinelCodec,
    {
        Self
    }

    /// Takes the next frame off `src`, exactly as [`Frame::decode`] does.
    pub fn decode(&mut self, src: &mut BytesMut) -> (r: Result<Option<Frame>, ProtocolError>)
        ensures
            match r {
                Ok(Some(f)) => {
                    &&& decode_spec(buffer_contents(*old(src))) == Ok::<
                        Option<FrameView>,
                        ProtocolError,
                    >(Some(f@))
                    &&& f@.valid()
                    &&& buffer_contents(*old(src)) == f@.encoded() + buffer_contents(*final(src))
                },
                Ok(None) => {
                    &&& decode_spec(buffer_contents(*old(src))) == Ok::<
                        Option<FrameView>,
                        ProtocolError,
                    >(None)
                    &&& buffer_contents(*final(src)) == buffer_contents(*old(src))
                },
                Err(e) => {
                    &&& decode_spec(buffer_contents(*old(src))) == Err::<
                        Option<FrameView>,
                        ProtocolError,
                    >(e)
                    &&& buffer_contents(*final(src)) == buffer_contents(*old(src))
                },
            },
    {
        Frame::decode(src)
    }

    /// Appends `item` to `dst`, exactly as [`Frame::encode`] does.
    pub fn encode(&mut self, item: Frame, dst: &mut BytesMut) -> (r: Result<(), ProtocolError>)
        requires
            buffer_contents(*old(dst)).len() + HEADER_SIZE + item@.payload.len() + CRC_LEN
                <= isize::MAX,
        ensures
            r is Ok,
            buffer_contents(*final(dst)) == buffer_contents(*old(dst)) + item@.encoded(),
    {
        item.encode(dst)
    }
}

} // verus!
