use vstd::prelude::*;

use crate::sample::rescale_byte;
use crate::time::TimeSpan;

verus! {

/// The sample rate of the end-of-stream sentinel frame.
pub const SENTINEL_RATE: u32 = 44100;

/// One decoded unit of audio: per-channel arrays of fixed-point
/// samples, a sample rate, a duration, and an informational bit rate.
///
/// An empty first channel signals "no more frames" rather than a
/// real frame.
pub struct Frame {
    /// One array of fixed-point samples per channel.
    pub samples: Vec<Vec<i32>>,
    /// Samples per second, in Hz.
    pub sample_rate: u32,
    /// Informational stream bit rate.
    pub bit_rate: u32,
    /// How long this frame plays for.
    pub duration: TimeSpan,
}

impl Frame {
    pub open spec fn channels(self) -> nat {
        self.samples@.len()
    }

    pub open spec fn samples_per_channel(self) -> nat {
        if self.channels() == 0 {
            0
        } else {
            self.samples@[0]@.len()
        }
    }

    /// Every channel holds the same number of samples, and the
    /// duration is a well-formed time span.
    pub open spec fn wf(self) -> bool {
        &&& forall|i: int|
            0 <= i < self.samples@.len() ==> (#[trigger] self.samples@[i])@.len()
                == self.samples_per_channel()
        &&& self.duration.wf()
    }

    /// True of a frame that carries no samples: the end-of-stream
    /// condition.
    pub open spec fn is_end(self) -> bool {
        self.samples_per_channel() == 0
    }

    /// The exact shape of the end-of-stream sentinel: one empty
    /// channel, the default rate, zero bit rate, zero duration.
    pub open spec fn is_sentinel(self) -> bool {
        &&& self.channels() == 1
        &&& self.samples@[0]@.len() == 0
        &&& self.sample_rate == SENTINEL_RATE
        &&& self.bit_rate == 0
        &&& self.duration == (TimeSpan { secs: 0, nanos: 0 })
    }

    /// The frame's samples as one flat channel-interleaved sequence of
    /// eight-bit output values: all channels of one time step come out
    /// before the next time step.
    pub open spec fn flat(self) -> Seq<u8> {
        Seq::new(
            self.samples_per_channel() * self.channels(),
            |k: int|
                rescale_byte(
                    self.samples@[k % self.channels() as int]@[k / self.channels() as int] as int,
                ) as u8,
        )
    }

    /// The end-of-stream sentinel: one empty channel, zero duration.
    pub fn end_frame() -> (r: Frame)
        ensures
            r.wf(),
            r.is_end(),
            r.is_sentinel(),
            r.channels() == 1,
            r.sample_rate == SENTINEL_RATE,
            r.bit_rate == 0,
            r.duration == (TimeSpan { secs: 0, nanos: 0 }),
            r.duration.millis() == 0,
    {
        let empty_channel: Vec<i32> = Vec::new();
        let mut samples: Vec<Vec<i32>> = Vec::new();
        samples.push(empty_channel);
        Frame { samples, sample_rate: SENTINEL_RATE, bit_rate: 0, duration: TimeSpan::zero() }
    }

    /// Where the sample at `(channel, pos)` stands in the flat
    /// channel-interleaved sequence, and that the sequence holds its
    /// rescaled byte there.
    pub proof fn lemma_flat_index(self, channel: int, pos: int)
        requires
            self.wf(),
            0 <= channel < self.channels(),
            0 <= pos < self.samples_per_channel(),
        ensures
            0 <= pos * self.channels() + channel < self.flat().len(),
            self.flat()[pos * self.channels() + channel] == rescale_byte(
                self.samples@[channel]@[pos] as int,
            ) as u8,
    {
        let ch = self.channels() as int;
        let spc = self.samples_per_channel() as int;
        let idx = pos * ch + channel;
        assert(0 <= idx && idx < spc * ch) by (nonlinear_arith)
            requires
                0 <= channel < ch,
                0 <= pos < spc,
                idx == pos * ch + channel,
        ;
        vstd::arithmetic::div_mod::lemma_fundamental_div_mod_converse(idx, ch, pos, channel);
    }

    /// Whether this frame still carries samples to play.
    pub fn has_samples(&self) -> (r: bool)
        ensures
            r == !self.is_end(),
    {
        self.samples.len() > 0 && self.samples[0].len() > 0
    }
}

} // verus!
