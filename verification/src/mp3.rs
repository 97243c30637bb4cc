use vstd::prelude::*;

use crate::cursor::{sum_millis, DecoderCursor};
use crate::frame::Frame;
use crate::mad::{
    decoder_frames, header_durations, header_spans, next_ok_frame, open_decoder, stream_frames,
    ByteDecoder,
};
use crate::sample::rescale_byte;
use crate::time::{clamp_u64, TimeSpan};

verus! {

/// True of the two leading bytes of an MPEG audio frame: the eleven
/// sync bits are set, and neither the version nor the layer field
/// holds its reserved value.
pub open spec fn spec_frame_sync(b0: u8, b1: u8) -> bool {
    &&& b0 == 0xFF
    &&& b1 & 0xE0 == 0xE0
    &&& (b1 >> 3) & 0x3 != 1
    &&& (b1 >> 1) & 0x3 != 0
}

/// A byte stream identifies itself as the supported compressed audio
/// format when it opens with an ID3 metadata tag or directly with an
/// MPEG audio frame header.
pub open spec fn spec_is_mp3(s: Seq<u8>) -> bool {
    ||| s.len() >= 3 && s[0] == 0x49 && s[1] == 0x44 && s[2] == 0x33
    ||| s.len() >= 2 && spec_frame_sync(s[0], s[1])
}

/// Probes whether the stream's header identifies it as the supported
/// compressed audio format. The stream is only read, never changed.
pub fn is_mp3(data: &Vec<u8>) -> (r: bool)
    ensures
        r == spec_is_mp3(data@),
{
    if data.len() >= 3 && data[0] == 0x49 && data[1] == 0x44 && data[2] == 0x33 {
        return true;
    }
    data.len() >= 2 && data[0] == 0xFF && data[1] & 0xE0 == 0xE0 && (data[1] >> 3) & 0x3 != 1 && (
    data[1] >> 1) & 0x3 != 0
}

/// The flat output of a run of frames: each frame's channel-interleaved
/// samples in turn, stopping at the first frame that carries none.
pub open spec fn frames_flat(frames: Seq<Frame>) -> Seq<u8>
    decreases frames.len(),
{
    if frames.len() == 0 {
        Seq::empty()
    } else if frames[0].is_end() {
        Seq::empty()
    } else {
        frames[0].flat() + frames_flat(frames.drop_first())
    }
}

/// A streaming decoder that flattens the stream's frames into one
/// channel-interleaved sequence of eight-bit output samples, tracking
/// cumulative elapsed playback time across frame boundaries.
pub struct MP3Decoder {
    pub reader: Option<ByteDecoder>,
    pub cursor: DecoderCursor,
}

impl MP3Decoder {
    pub open spec fn wf(self) -> bool {
        self.cursor.wf()
    }

    /// True once the current frame carries no samples: the sequence is
    /// exhausted and every later call of `next` returns nothing.
    pub open spec fn is_end(self) -> bool {
        self.cursor.frame.is_end()
    }

    /// The decodable frames the underlying stream still holds for this
    /// decoder.
    pub open spec fn remaining(self) -> Seq<Frame> {
        match self.reader {
            Some(d) => decoder_frames(d),
            None => Seq::empty(),
        }
    }

    /// Every output sample this decoder has yet to produce: the rest of
    /// the current frame from the cursor on, then the remaining frames,
    /// in channel-interleaved order.
    pub open spec fn output_seq(self) -> Seq<u8> {
        if self.cursor.frame.is_end() {
            Seq::empty()
        } else {
            self.cursor.frame.flat().skip(
                (self.cursor.pos * self.cursor.frame.channels() + self.cursor.channel) as int,
            ) + frames_flat(self.remaining())
        }
    }

    /// Opens a byte stream. A stream whose header does not identify
    /// the supported format is rejected whole, handed back unchanged.
    /// On success the decoder is live and the cursor stands at the
    /// start of the stream's first decodable frame — or of the
    /// end-of-stream sentinel, when no frame decodes — and that
    /// frame's duration already counts as elapsed.
    pub fn new(data: Vec<u8>) -> (r: Result<MP3Decoder, Vec<u8>>)
        ensures
            r is Err <==> !spec_is_mp3(data@),
            r matches Err(d) ==> d == data,
            r matches Ok(dec) ==> dec.wf() && dec.cursor.channel == 0 && dec.cursor.pos == 0
                && dec.cursor.visited@.len() == 1 && dec.cursor.elapsed == clamp_u64(
                dec.cursor.frame.duration.millis(),
            ),
            r matches Ok(dec) ==> dec.reader is Some,
            r matches Ok(dec) ==> (stream_frames(data@).len() > 0
                ==> dec.cursor.frame == stream_frames(data@)[0]
                    && dec.remaining() == stream_frames(data@).drop_first()),
            r matches Ok(dec) ==> (stream_frames(data@).len() == 0
                ==> dec.cursor.frame.is_sentinel() && dec.remaining() == Seq::<Frame>::empty()),
    {
        if !is_mp3(&data) {
            return Err(data);
        }
        let mut reader = open_decoder(data);
        let first: Frame = match &mut reader {
            Some(d) => match next_ok_frame(d) {
                Some(f) => f,
                None => {
                    proof {
                        assert(decoder_frames(*d) =~= Seq::<Frame>::empty());
                    }
                    Frame::end_frame()
                },
            },
            None => Frame::end_frame(),
        };
        Ok(MP3Decoder { reader, cursor: DecoderCursor::new(first) })
    }

    /// Cumulative elapsed playback time, in milliseconds, over every
    /// frame entered so far.
    pub fn current_time(&self) -> (r: u64)
        ensures
            r == self.cursor.elapsed,
    {
        self.cursor.elapsed
    }

    /// The sample rate of the frame most recently entered.
    pub fn sample_rate(&self) -> (r: u32)
        ensures
            r == self.cursor.frame.sample_rate,
    {
        self.cursor.frame.sample_rate
    }

    /// A lower bound on how many samples remain — those of the current
    /// frame's first channel — and no upper bound, since the stream's
    /// later frames are not known yet.
    pub fn size_hint(&self) -> (r: (usize, Option<usize>))
        requires
            self.wf(),
        ensures
            r.0 == self.cursor.frame.samples_per_channel(),
            r.1 is None,
    {
        if self.cursor.frame.samples.len() == 0 {
            (0, None)
        } else {
            (self.cursor.frame.samples[0].len(), None)
        }
    }

    /// Produces the next output sample, or nothing once the stream is
    /// exhausted. The channel index cycles through every channel
    /// before the sample index advances; the sample index runs through
    /// the whole frame before the next frame is pulled; and crossing a
    /// frame boundary installs the stream's next decodable frame (or
    /// the end-of-stream sentinel when none remains) and adds its
    /// duration to the elapsed time. Elapsed time never decreases, and
    /// the samples come out exactly in flat output order.
    pub fn next(&mut self) -> (r: Option<u8>)
        requires
            old(self).wf(),
        ensures
            final(self).wf(),
            r is None <==> old(self).is_end(),
            r is None <==> old(self).output_seq().len() == 0,
            r is None ==> final(self).cursor == old(self).cursor && final(self).remaining() == old(
                self,
            ).remaining(),
            r matches Some(b) ==> b == rescale_byte(old(self).cursor.current_sample()),
            !old(self).is_end() ==> r == Some(old(self).output_seq()[0]) && final(self).output_seq()
                == old(self).output_seq().drop_first(),
            final(self).cursor.elapsed >= old(self).cursor.elapsed,
            !old(self).is_end() && old(self).cursor.channel + 1 < old(self).cursor.frame.channels()
                ==> final(self).cursor.frame == old(self).cursor.frame
                    && final(self).cursor.channel == old(self).cursor.channel + 1
                    && final(self).cursor.pos == old(self).cursor.pos
                    && final(self).cursor.visited == old(self).cursor.visited
                    && final(self).cursor.elapsed == old(self).cursor.elapsed
                    && final(self).remaining() == old(self).remaining(),
            !old(self).is_end() && old(self).cursor.channel + 1 == old(self).cursor.frame.channels()
                && old(self).cursor.pos + 1 < old(self).cursor.frame.samples_per_channel()
                ==> final(self).cursor.frame == old(self).cursor.frame
                    && final(self).cursor.channel == 0
                    && final(self).cursor.pos == old(self).cursor.pos + 1
                    && final(self).cursor.visited == old(self).cursor.visited
                    && final(self).cursor.elapsed == old(self).cursor.elapsed
                    && final(self).remaining() == old(self).remaining(),
            !old(self).is_end() && old(self).cursor.channel + 1 == old(self).cursor.frame.channels()
                && old(self).cursor.pos + 1 == old(self).cursor.frame.samples_per_channel()
                ==> final(self).cursor.channel == 0
                    && final(self).cursor.pos == 0
                    && final(self).cursor.visited@
                        == old(self).cursor.visited@.push(clamp_u64(final(self).cursor.frame.duration.millis()) as u64)
                    && final(self).cursor.elapsed == clamp_u64(sum_millis(final(self).cursor.visited@))
                    && (old(self).remaining().len() > 0 ==> final(self).cursor.frame == old(
                        self,
                    ).remaining()[0] && final(self).remaining() == old(self).remaining().drop_first())
                    && (old(self).remaining().len() == 0 ==> final(self).cursor.frame.is_sentinel()
                        && final(self).remaining() == Seq::<Frame>::empty()),
    {
        if !self.cursor.frame.has_samples() {
            return None;
        }
        let ghost ch = old(self).cursor.frame.channels() as int;
        let ghost spc = old(self).cursor.frame.samples_per_channel() as int;
        let ghost opos = old(self).cursor.pos as int;
        let ghost ochan = old(self).cursor.channel as int;
        let ghost idx = opos * ch + ochan;
        let ghost flat = old(self).cursor.frame.flat();
        let ghost rest = frames_flat(old(self).remaining());
        proof {
            old(self).cursor.frame.lemma_flat_index(
                old(self).cursor.channel as int,
                old(self).cursor.pos as int,
            );
            assert(old(self).output_seq()[0] == flat[idx]);
        }
        let (out, spent) = self.cursor.emit();
        if spent {
            proof {
                assert(idx == spc * ch - 1) by (nonlinear_arith)
                    requires
                        idx == opos * ch + ochan,
                        ochan + 1 == ch,
                        opos + 1 == spc,
                ;
                assert(flat.skip(idx).len() == 1);
                assert(old(self).output_seq().drop_first() =~= rest);
            }
            let f: Frame = match &mut self.reader {
                Some(d) => match next_ok_frame(d) {
                    Some(f) => f,
                    None => {
                        proof {
                            assert(decoder_frames(*d) =~= Seq::<Frame>::empty());
                        }
                        Frame::end_frame()
                    },
                },
                None => Frame::end_frame(),
            };
            self.cursor.refill(f);
            proof {
                let rem = old(self).remaining();
                if rem.len() > 0 {
                    if !rem[0].is_end() {
                        assert(frames_flat(rem) == rem[0].flat() + frames_flat(rem.drop_first()));
                        assert(rem[0].flat().skip(0) =~= rem[0].flat());
                        assert(self.output_seq() =~= frames_flat(rem));
                    } else {
                        assert(frames_flat(rem) =~= Seq::<u8>::empty());
                    }
                } else {
                    assert(frames_flat(rem) =~= Seq::<u8>::empty());
                }
                assert(self.output_seq() =~= old(self).output_seq().drop_first());
            }
        } else {
            proof {
                let idx2 = self.cursor.pos * ch + self.cursor.channel;
                if self.cursor.channel == 0 {
                    assert(idx2 == idx + 1) by (nonlinear_arith)
                        requires
                            idx == opos * ch + ochan,
                            idx2 == (opos + 1) * ch,
                            ochan + 1 == ch,
                    ;
                } else {
                    assert(idx2 == idx + 1);
                }
                assert(flat.skip(idx).drop_first() =~= flat.skip(idx + 1));
                assert(old(self).output_seq().drop_first() =~= flat.skip(idx + 1) + rest);
                assert(self.output_seq() =~= old(self).output_seq().drop_first());
            }
        }
        Some(out)
    }
}

/// A decoder has output samples left exactly while its current frame
/// still carries samples.
pub proof fn lemma_output_empty_iff_end(d: MP3Decoder)
    requires
        d.wf(),
    ensures
        d.is_end() <==> d.output_seq().len() == 0,
{
    if !d.is_end() {
        d.cursor.frame.lemma_flat_index(d.cursor.channel as int, d.cursor.pos as int);
    }
}

/// The exact sum of a sequence of time spans, in nanoseconds.
pub open spec fn spec_sum_nanos(s: Seq<TimeSpan>) -> int
    decreases s.len(),
{
    if s.len() == 0 {
        0
    } else {
        spec_sum_nanos(s.drop_last()) + s.last().total_nanos()
    }
}

/// The largest span a `TimeSpan` carries, in nanoseconds.
pub open spec fn max_span_nanos() -> int {
    u64::MAX * 1_000_000_000 + 999_999_999
}

/// Adds up a list of frame durations. The sum is exact while it fits
/// in a `TimeSpan`, and saturates at the largest span otherwise.
pub fn sum_durations(ds: &Vec<TimeSpan>) -> (t: TimeSpan)
    requires
        forall|i: int| 0 <= i < ds@.len() ==> (#[trigger] ds@[i]).wf(),
    ensures
        t.wf(),
        spec_sum_nanos(ds@) <= max_span_nanos() ==> t.total_nanos() == spec_sum_nanos(ds@),
        spec_sum_nanos(ds@) > max_span_nanos() ==> t == (TimeSpan {
            secs: u64::MAX,
            nanos: 999_999_999,
        }),
{
    let mut acc: TimeSpan = TimeSpan::zero();
    let mut i: usize = 0;
    proof {
        assert(ds@.take(0) =~= Seq::<TimeSpan>::empty());
        lemma_sum_nanos_prefix(ds@, 0);
    }
    while i < ds.len()
        invariant
            0 <= i <= ds@.len(),
            forall|k: int| 0 <= k < ds@.len() ==> (#[trigger] ds@[k]).wf(),
            acc.wf(),
            spec_sum_nanos(ds@.take(i as int)) <= max_span_nanos() ==> acc.total_nanos()
                == spec_sum_nanos(ds@.take(i as int)),
            spec_sum_nanos(ds@.take(i as int)) > max_span_nanos() ==> acc == (TimeSpan {
                secs: u64::MAX,
                nanos: 999_999_999,
            }),
            spec_sum_nanos(ds@.take(i as int)) <= spec_sum_nanos(ds@),
        decreases ds@.len() - i,
    {
        let d: TimeSpan = ds[i];
        proof {
            assert(ds@.take(i + 1).drop_last() =~= ds@.take(i as int));
            assert(ds@.take(i + 1).last() == ds@[i as int]);
            lemma_sum_nanos_prefix(ds@, i + 1);
        }
        let next_acc: TimeSpan = acc.add(d);
        proof {
            if spec_sum_nanos(ds@.take(i as int)) > max_span_nanos() && d.total_nanos() == 0 {
                crate::time::lemma_span_unique(
                    next_acc,
                    TimeSpan { secs: u64::MAX, nanos: 999_999_999 },
                );
            }
        }
        acc = next_acc;
        i = i + 1;
    }
    proof {
        assert(ds@.take(ds@.len() as int) =~= ds@);
    }
    acc
}

/// The sum over a prefix never exceeds the sum over the whole list.
proof fn lemma_sum_nanos_prefix(s: Seq<TimeSpan>, n: int)
    requires
        0 <= n <= s.len(),
    ensures
        spec_sum_nanos(s.take(n)) <= spec_sum_nanos(s),
    decreases s.len() - n,
{
    if n == s.len() {
        assert(s.take(n) =~= s);
    } else {
        lemma_sum_nanos_prefix(s, n + 1);
        assert(s.take(n + 1).drop_last() =~= s.take(n));
        assert(s.take(n + 1).last() == s[n]);
        assert(s[n].total_nanos() >= 0);
    }
}

/// Computes the total playing time of a byte stream by decoding frame
/// headers only: the sum of the durations of every frame whose header
/// decodes, exact while it fits in a time span and the largest span
/// otherwise. Nothing comes back exactly for a stream whose header
/// does not identify the supported format.
pub fn compute_duration(data: Vec<u8>) -> (r: Option<TimeSpan>)
    ensures
        r is Some <==> spec_is_mp3(data@),
        r matches Some(t) ==> t.wf() && (spec_sum_nanos(header_spans(data@)) <= max_span_nanos()
            ==> t.total_nanos() == spec_sum_nanos(header_spans(data@))),
        r matches Some(t) ==> (spec_sum_nanos(header_spans(data@)) > max_span_nanos()
            ==> t == (TimeSpan { secs: u64::MAX, nanos: 999_999_999 })),
{
    if !is_mp3(&data) {
        return None;
    }
    match header_durations(data) {
        Some(ds) => Some(sum_durations(&ds)),
        None => None,
    }
}

} // verus!
