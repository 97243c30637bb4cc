use vstd::prelude::*;

use crate::frame::Frame;
use crate::sample::{rescale, rescale_byte};
use crate::time::{clamp_u64, to_millis};

verus! {

/// The sum of a sequence of per-frame durations, in milliseconds.
pub open spec fn sum_millis(s: Seq<u64>) -> int
    decreases s.len(),
{
    if s.len() == 0 {
        0
    } else {
        sum_millis(s.drop_last()) + s.last()
    }
}

/// A mutable position within the current frame: which channel and
/// which sample within the frame come next, plus the cumulative
/// elapsed playback time over every frame visited so far.
pub struct DecoderCursor {
    pub frame: Frame,
    pub channel: usize,
    pub pos: usize,
    pub elapsed: u64,
    /// The duration, in clamped milliseconds, of every frame visited.
    pub visited: Ghost<Seq<u64>>,
}

impl DecoderCursor {
    /// Both indices stay inside the current frame, and the elapsed
    /// time carries exactly the sum of the visited frames' durations,
    /// held down to what a `u64` carries.
    pub open spec fn wf(self) -> bool {
        &&& self.frame.wf()
        &&& if self.frame.is_end() {
            self.channel == 0 && self.pos == 0
        } else {
            self.channel < self.frame.channels() && self.pos < self.frame.samples_per_channel()
        }
        &&& self.elapsed == clamp_u64(sum_millis(self.visited@))
    }

    /// The fixed-point sample under the cursor.
    pub open spec fn current_sample(self) -> int {
        self.frame.samples@[self.channel as int]@[self.pos as int] as int
    }

    /// A cursor at the start of its first frame; that frame counts as
    /// visited, so its duration already counts as elapsed.
    pub fn new(frame: Frame) -> (r: DecoderCursor)
        requires
            frame.wf(),
        ensures
            r.wf(),
            r.frame == frame,
            r.channel == 0,
            r.pos == 0,
            r.visited@ =~= seq![clamp_u64(frame.duration.millis()) as u64],
            r.elapsed == clamp_u64(frame.duration.millis()),
    {
        let millis: u64 = to_millis(frame.duration);
        let ghost vis: Seq<u64> = seq![millis];
        proof {
            assert(vis.drop_last() =~= Seq::<u64>::empty());
            assert(sum_millis(Seq::<u64>::empty()) == 0);
            assert(sum_millis(vis) == millis);
        }
        DecoderCursor { frame, channel: 0, pos: 0, elapsed: millis, visited: Ghost(vis) }
    }

    /// Produces the output sample under the cursor and advances it.
    /// The channel index cycles through every channel before the
    /// sample index advances, and the sample index runs through the
    /// whole frame before a new frame is called for: the second
    /// element of the result says that the frame is spent and the
    /// cursor awaits a refill.
    pub fn emit(&mut self) -> (r: (u8, bool))
        requires
            old(self).wf(),
            !old(self).frame.is_end(),
        ensures
            final(self).wf(),
            r.0 == rescale_byte(old(self).current_sample()),
            final(self).frame == old(self).frame,
            final(self).elapsed == old(self).elapsed,
            final(self).visited == old(self).visited,
            old(self).channel + 1 < old(self).frame.channels() ==> final(self).channel == old(
                self,
            ).channel + 1 && final(self).pos == old(self).pos && r.1 == false,
            old(self).channel + 1 == old(self).frame.channels() && old(self).pos + 1 < old(
                self,
            ).frame.samples_per_channel() ==> final(self).channel == 0 && final(self).pos == old(
                self,
            ).pos + 1 && r.1 == false,
            old(self).channel + 1 == old(self).frame.channels() && old(self).pos + 1 == old(
                self,
            ).frame.samples_per_channel() ==> final(self).channel == 0 && final(self).pos == 0
                && r.1 == true,
    {
        let s: i32 = self.frame.samples[self.channel][self.pos];
        let out: u8 = rescale(s);
        let nch: usize = self.frame.samples.len();
        let spc: usize = self.frame.samples[0].len();
        self.channel = self.channel + 1;
        if self.channel < nch {
            return (out, false);
        }
        self.channel = 0;
        self.pos = self.pos + 1;
        if self.pos < spc {
            return (out, false);
        }
        self.pos = 0;
        (out, true)
    }

    /// Installs the next frame, resets both indices to the frame's
    /// start, and adds the new frame's duration to the cumulative
    /// elapsed time (saturating at the largest `u64`).
    pub fn refill(&mut self, f: Frame)
        requires
            old(self).wf(),
            f.wf(),
        ensures
            final(self).wf(),
            final(self).frame == f,
            final(self).channel == 0,
            final(self).pos == 0,
            final(self).visited@ == old(self).visited@.push(
                clamp_u64(f.duration.millis()) as u64,
            ),
            final(self).elapsed == clamp_u64(sum_millis(final(self).visited@)),
            final(self).elapsed >= old(self).elapsed,
    {
        let d: u64 = to_millis(f.duration);
        let new_elapsed: u64 = self.elapsed.saturating_add(d);
        let ghost vis: Seq<u64> = self.visited@.push(d);
        proof {
            assert(vis.drop_last() =~= self.visited@);
            assert(sum_millis(vis) == sum_millis(self.visited@) + d);
        }
        self.frame = f;
        self.channel = 0;
        self.pos = 0;
        self.elapsed = new_elapsed;
        self.visited = Ghost(vis);
    }
}

/// Cumulative elapsed time is exactly the sum of the durations of the
/// frames the cursor has visited, saturating only past what a `u64`
/// carries.
pub proof fn lemma_elapsed_is_visited_sum(c: DecoderCursor)
    requires
        c.wf(),
    ensures
        c.elapsed == clamp_u64(sum_millis(c.visited@)),
        sum_millis(c.visited@) <= u64::MAX ==> c.elapsed == sum_millis(c.visited@),
{
}

} // verus!
