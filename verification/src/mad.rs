use vstd::prelude::*;

use crate::frame::Frame;
use crate::time::TimeSpan;

verus! {

/// A streaming decoder over an in-memory byte stream. The decoder
/// itself is the outside crate's; Verus sees nothing inside it.
#[verifier::external_body]
pub struct ByteDecoder {
    inner: simplemad::Decoder<std::io::Cursor<Vec<u8>>>,
}

/// The frames of a byte stream that decode successfully, in stream
/// order. Decoding in-memory bytes depends on the bytes alone.
pub uninterp spec fn stream_frames(data: Seq<u8>) -> Seq<Frame>;

/// The frames a decoder has yet to yield: those of its stream that
/// decode successfully, in order, not yet pulled.
pub uninterp spec fn decoder_frames(d: ByteDecoder) -> Seq<Frame>;

/// The duration of each frame of a byte stream whose header decodes
/// successfully, in stream order; a function of the bytes alone.
pub uninterp spec fn header_spans(data: Seq<u8>) -> Seq<TimeSpan>;

/// Relies on simplemad::Decoder::decode: its only failure path is a
/// failing read, and reading from an in-memory cursor never fails, so
/// opening always succeeds. A fresh decoder holds the stream's every
/// decodable frame.
#[verifier::external_body]
pub(crate) fn open_decoder(data: Vec<u8>) -> (r: Option<ByteDecoder>)
    ensures
        r is Some,
        r matches Some(d) ==> decoder_frames(d) == stream_frames(data@),
{
    simplemad::Decoder::decode(std::io::Cursor::new(data)).ok().map(|d| ByteDecoder { inner: d })
}

/// Relies on simplemad::Decoder::get_frame (through its iterator): it
/// yields the decoder's next decodable frame, or nothing once none
/// remains; frames whose decode fails are skipped. A decoded frame
/// carries the same number of samples in every channel, and
/// std::time::Duration keeps its sub-second part under one second.
#[verifier::external_body]
pub(crate) fn next_ok_frame(d: &mut ByteDecoder) -> (r: Option<Frame>)
    ensures
        decoder_frames(*old(d)).len() == 0 ==> r is None && decoder_frames(*final(d))
            == decoder_frames(*old(d)),
        decoder_frames(*old(d)).len() > 0 ==> r == Some(decoder_frames(*old(d))[0])
            && decoder_frames(*final(d)) == decoder_frames(*old(d)).drop_first(),
        r matches Some(f) ==> f.wf(),
{
    (&mut d.inner).filter_map(|f| f.ok()).next().map(|f| Frame {
        samples: f.samples.iter().map(|c| c.iter().map(|s| s.to_i32()).collect()).collect(),
        sample_rate: f.sample_rate,
        bit_rate: f.bit_rate,
        duration: TimeSpan { secs: f.duration.as_secs(), nanos: f.duration.subsec_nanos() },
    })
}

/// Relies on simplemad::Decoder::decode_headers: it decodes frame
/// headers only, its only failure path is a failing read, and reading
/// from an in-memory cursor never fails. Frames whose header fails to
/// decode are skipped; the result is the duration of each remaining
/// frame, in stream order. std::time::Duration keeps its sub-second
/// part under one second.
#[verifier::external_body]
pub(crate) fn header_durations(data: Vec<u8>) -> (r: Option<Vec<TimeSpan>>)
    ensures
        r is Some,
        r matches Some(v) ==> v@ == header_spans(data@) && forall|i: int|
            0 <= i < v@.len() ==> (#[trigger] v@[i]).wf(),
{
    let d = simplemad::Decoder::decode_headers(std::io::Cursor::new(data)).ok()?;
    Some(d.filter_map(|f| f.ok())
        .map(|f| TimeSpan { secs: f.duration.as_secs(), nanos: f.duration.subsec_nanos() })
        .collect())
}

} // verus!
