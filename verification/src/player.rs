use vstd::prelude::*;

use crate::channel::{Channel, Command};
use crate::mad::stream_frames;
use crate::mp3::{spec_is_mp3, MP3Decoder};
use crate::sample::rescale_byte;

verus! {

/// How many output samples one sink write carries at most.
pub const BUFFER_SIZE: usize = 1000;

/// The sample rate the sink is opened at while no track is loaded.
pub const DEFAULT_RATE: u32 = 44100;

/// What the engine asks its surroundings to do after one iteration:
/// read a file and hand the bytes back through `Player::finish_load`,
/// write the filled front of the sample buffer to the audio sink, or
/// nothing.
pub enum EngineAction {
    OpenFile(String),
    WriteAudio(usize),
    Idle,
}

/// Pulls samples out of the decoder until the buffer is full or the
/// decoder is exhausted: the buffer's front receives exactly the
/// decoder's next `n` output samples, in output order, where `n` is
/// the smaller of the buffer's size and what the decoder had left.
/// Nothing is produced exactly when the decoder was already exhausted;
/// the buffer's tail beyond the filled front keeps its old bytes.
pub fn iter_to_buffer(iter: &mut MP3Decoder, buffer: &mut Vec<u8>) -> (n: usize)
    requires
        old(iter).wf(),
        old(buffer).len() > 0,
    ensures
        final(iter).wf(),
        final(buffer).len() == old(buffer).len(),
        n <= old(buffer).len(),
        n == 0 <==> old(iter).is_end(),
        n < old(buffer).len() ==> final(iter).is_end(),
        final(iter).cursor.elapsed >= old(iter).cursor.elapsed,
        n as int == (if old(iter).output_seq().len() <= old(buffer).len() {
            old(iter).output_seq().len() as int
        } else {
            old(buffer).len() as int
        }),
        forall|j: int| 0 <= j < n ==> final(buffer)@[j] == old(iter).output_seq()[j],
        final(iter).output_seq() == old(iter).output_seq().skip(n as int),
        forall|j: int| n <= j < old(buffer).len() ==> final(buffer)@[j] == old(buffer)@[j],
{
    proof {
        crate::mp3::lemma_output_empty_iff_end(*old(iter));
        assert(old(iter).output_seq().skip(0) =~= old(iter).output_seq());
    }
    let mut i: usize = 0;
    let mut done: bool = false;
    while i < buffer.len() && !done
        invariant
            buffer@.len() == old(buffer)@.len(),
            i <= buffer@.len(),
            iter.wf(),
            iter.cursor.elapsed >= old(iter).cursor.elapsed,
            i <= old(iter).output_seq().len(),
            iter.output_seq() == old(iter).output_seq().skip(i as int),
            done ==> iter.is_end() && i == old(iter).output_seq().len(),
            forall|j: int| 0 <= j < i ==> buffer@[j] == old(iter).output_seq()[j],
            forall|j: int| i <= j < buffer@.len() ==> buffer@[j] == old(buffer)@[j],
        decreases buffer@.len() - i, (if done { 0int } else { 1int }),
    {
        let ghost out_pre = iter.output_seq();
        match iter.next() {
            Some(s) => {
                proof {
                    assert(out_pre[0] == old(iter).output_seq()[i as int]);
                    assert(out_pre.drop_first() =~= old(iter).output_seq().skip(i + 1));
                }
                buffer[i] = s;
                i = i + 1;
            },
            None => {
                done = true;
            },
        }
    }
    proof {
        crate::mp3::lemma_output_empty_iff_end(*iter);
    }
    i
}

/// The playback engine's own state: at most one live decoder, the path
/// it came from, and the two status flags other threads read.
pub struct Engine {
    pub source: Option<MP3Decoder>,
    pub track: Option<String>,
    /// True while no audio is being produced.
    pub stopped: bool,
    /// True while the engine should be writing to the sink.
    pub playing: bool,
}

impl Engine {
    pub open spec fn wf(self) -> bool {
        self.source matches Some(d) ==> d.wf()
    }

    /// A fresh engine: no track, stopped, not playing.
    pub fn new() -> (e: Engine)
        ensures
            e.wf(),
            e.source is None,
            e.track is None,
            e.stopped,
            !e.playing,
    {
        Engine { source: None, track: None, stopped: true, playing: false }
    }

    /// Installs the track read from `path`, replacing any earlier one.
    /// `data` holds the file's bytes, or nothing when the file could
    /// not be read. A stream that opens as the supported format loads
    /// and clears `stopped`; an unreadable file or an unsupported
    /// stream leaves no track loaded and `stopped` set.
    pub fn load_track(&mut self, path: String, data: Option<Vec<u8>>)
        requires
            old(self).wf(),
        ensures
            final(self).wf(),
            final(self).playing == old(self).playing,
            data matches Some(d) && spec_is_mp3(d@) ==> final(self).source is Some && !final(self).stopped && final(self).track == Some(path),
            data matches Some(d) ==> (spec_is_mp3(d@) ==> (final(self).source matches Some(dec)
                && dec.wf() && dec.cursor.channel == 0 && dec.cursor.pos == 0
                && (stream_frames(d@).len() > 0
                    ==> dec.cursor.frame == stream_frames(d@)[0]
                        && dec.remaining() == stream_frames(d@).drop_first())
                && (stream_frames(d@).len() == 0 ==> dec.cursor.frame.is_sentinel()))),
            (data is None || (data matches Some(d) && !spec_is_mp3(d@))) ==> final(self).source
                is None && final(self).stopped && final(self).track is None,
    {
        match data {
            Some(bytes) => match MP3Decoder::new(bytes) {
                Ok(dec) => {
                    self.source = Some(dec);
                    self.track = Some(path);
                    self.stopped = false;
                },
                Err(_) => {
                    self.source = None;
                    self.track = None;
                    self.stopped = true;
                },
            },
            None => {
                self.source = None;
                self.track = None;
                self.stopped = true;
            },
        }
    }

    /// Starts playback of the loaded track; without one, nothing
    /// changes.
    pub fn play(&mut self)
        requires
            old(self).wf(),
        ensures
            final(self).wf(),
            old(self).source is Some ==> *final(self) == (Engine { playing: true, ..*old(self) }),
            old(self).source is None ==> *final(self) == *old(self),
    {
        if self.source.is_some() {
            self.playing = true;
        }
    }

    /// The rate the sink connection must be opened at: the loaded
    /// track's sample rate, or the default while no track is loaded.
    pub fn sink_rate(&self) -> (r: u32)
        ensures
            self.source matches Some(d) ==> r == d.cursor.frame.sample_rate,
            self.source is None ==> r == DEFAULT_RATE,
    {
        match &self.source {
            Some(d) => d.sample_rate(),
            None => DEFAULT_RATE,
        }
    }

    /// One playing iteration: fills the buffer's front with exactly
    /// the decoder's next samples, as many as buffer and decoder
    /// allow. When nothing came out — no track, or the track just
    /// ran dry — the engine makes its single stop transition: `stopped`
    /// set, `playing` cleared, the decoder dropped.
    pub fn pump(&mut self, buffer: &mut Vec<u8>) -> (n: usize)
        requires
            old(self).wf(),
            old(buffer).len() > 0,
        ensures
            final(self).wf(),
            final(buffer).len() == old(buffer).len(),
            n <= old(buffer).len(),
            n > 0 ==> (old(self).source matches Some(d) && !d.is_end()),
            n > 0 ==> final(self).stopped == old(self).stopped && final(self).playing == old(self).playing && final(self).track == old(self).track && final(self).source is Some,
            n == 0 ==> final(self).stopped && !final(self).playing && final(self).source is None
                && final(self).track is None,
            (old(self).source is None || (old(self).source matches Some(d) && d.is_end())) ==> n
                == 0,
            (old(self).source matches Some(d) && !d.is_end()) ==> n > 0,
            old(self).source matches Some(d) ==> n as int == (if d.output_seq().len()
                <= old(buffer).len() {
                d.output_seq().len() as int
            } else {
                old(buffer).len() as int
            }) && (forall|j: int| 0 <= j < n ==> final(buffer)@[j] == d.output_seq()[j]) && (n > 0
                ==> (final(self).source matches Some(d2) && d2.output_seq()
                == d.output_seq().skip(n as int))),
            old(self).source is None ==> final(buffer)@ == old(buffer)@,
    {
        let mut wrote: usize = 0;
        match &mut self.source {
            Some(src) => {
                wrote = iter_to_buffer(src, buffer);
            },
            None => {
            },
        }
        if wrote == 0 {
            self.stopped = true;
            self.playing = false;
            self.source = None;
            self.track = None;
        }
        wrote
    }
}

/// The caller-facing playback component: a command channel feeding a
/// background engine.
pub struct Player {
    pub channel: Channel,
    pub engine: Engine,
}

impl Player {
    pub open spec fn wf(self) -> bool {
        self.engine.wf()
    }

    pub fn new() -> (p: Player)
        ensures
            p.wf(),
            p.channel@ == Seq::<Command>::empty(),
            p.engine.source is None,
            p.engine.track is None,
            p.engine.stopped,
            !p.engine.playing,
    {
        Player { channel: Channel::new(), engine: Engine::new() }
    }

    /// Enqueues a request to load the track at `path`; never waits for
    /// the engine to act on it.
    pub fn load(&mut self, path: String)
        requires
            old(self).wf(),
        ensures
            final(self).wf(),
            final(self).channel@ == old(self).channel@.push(Command::Load(path)),
            final(self).engine == old(self).engine,
    {
        self.channel.push(Command::Load(path));
    }

    /// Starts playback of the loaded track.
    pub fn play(&mut self)
        requires
            old(self).wf(),
        ensures
            final(self).wf(),
            final(self).channel@ == old(self).channel@,
            old(self).engine.source is Some ==> final(self).engine == (Engine {
                playing: true,
                ..old(self).engine
            }),
            old(self).engine.source is None ==> final(self).engine == old(self).engine,
    {
        self.engine.play();
    }

    /// True while no audio is being produced.
    pub fn stopped(&self) -> (r: bool)
        ensures
            r == self.engine.stopped,
    {
        self.engine.stopped
    }

    /// True while the engine should be writing to the sink.
    pub fn playing(&self) -> (r: bool)
        ensures
            r == self.engine.playing,
    {
        self.engine.playing
    }

    /// Hands the engine the bytes read for the `OpenFile(path)` action
    /// (or nothing, when reading the file failed).
    pub fn finish_load(&mut self, path: String, data: Option<Vec<u8>>)
        requires
            old(self).wf(),
        ensures
            final(self).wf(),
            final(self).channel@ == old(self).channel@,
            final(self).engine.playing == old(self).engine.playing,
            data matches Some(d) && spec_is_mp3(d@) ==> final(self).engine.source is Some
                && !final(self).engine.stopped && final(self).engine.track == Some(path),
            data matches Some(d) ==> (spec_is_mp3(d@) ==> (final(self).engine.source matches Some(
                dec,
            ) && dec.wf() && dec.cursor.channel == 0 && dec.cursor.pos == 0
                && (stream_frames(d@).len() > 0
                    ==> dec.cursor.frame == stream_frames(d@)[0]
                        && dec.remaining() == stream_frames(d@).drop_first())
                && (stream_frames(d@).len() == 0 ==> dec.cursor.frame.is_sentinel()))),
            (data is None || (data matches Some(d) && !spec_is_mp3(d@))) ==> final(self).engine.source is None && final(self).engine.stopped && final(self).engine.track
                is None,
    {
        self.engine.load_track(path, data);
    }

    /// One engine iteration: drain one command if one is queued, else,
    /// when playing, pull one buffer of samples; else stay idle. A
    /// drained `Load` comes back as `OpenFile` for the surroundings to
    /// read; a filled buffer comes back as `WriteAudio` with how much
    /// of the buffer's front to write. A playing engine whose decoder
    /// is exhausted (or gone) makes its single stop transition and asks
    /// for nothing more.
    pub fn step(&mut self, buffer: &mut Vec<u8>) -> (a: EngineAction)
        requires
            old(self).wf(),
            old(buffer).len() == BUFFER_SIZE,
        ensures
            final(self).wf(),
            final(buffer).len() == old(buffer).len(),
            old(self).channel@.len() > 0 ==> final(self).channel@ == old(self).channel@.drop_first() && final(self).engine == old(self).engine,
            old(self).channel@.len() > 0 ==> (old(self).channel@[0] matches Command::Load(p)
                ==> a == EngineAction::OpenFile(p)),
            old(self).channel@.len() > 0 && old(self).channel@[0] is Stop ==> a is Idle,
            old(self).channel@.len() == 0 ==> final(self).channel@ == old(self).channel@,
            old(self).channel@.len() == 0 && !old(self).engine.playing ==> a is Idle && final(self).engine == old(self).engine,
            old(self).channel@.len() == 0 && old(self).engine.playing
                ==> (old(self).engine.source matches Some(d) ==> (!d.is_end()
                ==> (a matches EngineAction::WriteAudio(n) && 0 < n <= BUFFER_SIZE
                && final(self).engine.playing
                && final(self).engine.stopped == old(self).engine.stopped
                && final(self).engine.track == old(self).engine.track
                && n as int == (if d.output_seq().len()
                    <= BUFFER_SIZE {
                    d.output_seq().len() as int
                } else {
                    BUFFER_SIZE as int
                }) && (forall|j: int| 0 <= j < n ==> final(buffer)@[j] == d.output_seq()[j]) && (
                final(self).engine.source matches Some(d2) && d2.output_seq()
                    == d.output_seq().skip(n as int))))),
            old(self).channel@.len() == 0 && old(self).engine.playing && (old(self).engine.source
                is None || (old(self).engine.source matches Some(d) && d.is_end())) ==> a is Idle
                && final(self).engine.stopped && !final(self).engine.playing && final(self).engine.source is None
                && final(self).engine.track is None,
    {
        if let Some(cmd) = self.channel.try_pop() {
            match cmd {
                Command::Load(path) => EngineAction::OpenFile(path),
                Command::Stop => EngineAction::Idle,
            }
        } else if self.engine.playing {
            let n = self.engine.pump(buffer);
            if n > 0 {
                EngineAction::WriteAudio(n)
            } else {
                EngineAction::Idle
            }
        } else {
            EngineAction::Idle
        }
    }
}

} // verus!
