//! The active-source renderer: the single object the audio callback drains,
//! one frame per call.
//!
//! It owns the current track source, the pause flag, and — for streaming
//! sources — a pull-ahead buffer of already-decoded frames. Streaming
//! decode batches are produced outside the library (the module decoder is a
//! foreign handle); the driving callback asks `needs_decode`, hands the next
//! batch to `supply_frames`, and then draws a frame with `next_frame`, which
//! itself never blocks, allocates or fetches. An empty batch is the
//! exhaustion signal: the source transitions to `Empty`, and every later
//! call returns silence until `set_audio` installs a new source.

use vstd::prelude::*;

use crate::frame::Frame;

verus! {

/// A fully pre-decoded track: an in-memory stereo frame sequence at a known
/// sample rate, random-seekable by frame index.
pub struct FixedTrack {
    frames: Vec<Frame>,
    rate: u32,
    pos: usize,
}

/// Ghost image of a `FixedTrack`: its frames, its sample rate, and the read
/// cursor.
pub struct FixedView {
    pub frames: Seq<Frame>,
    pub rate: u32,
    pub pos: int,
}

impl View for FixedTrack {
    type V = FixedView;

    closed spec fn view(&self) -> FixedView {
        FixedView { frames: self.frames@, rate: self.rate, pos: self.pos as int }
    }
}

impl FixedTrack {
    pub open spec fn wf(self) -> bool {
        0 <= self@.pos <= self@.frames.len()
    }

    /// Wraps a fully decoded frame sequence; the cursor starts at the first
    /// frame.
    pub fn new(frames: Vec<Frame>, rate: u32) -> (t: FixedTrack)
        ensures
            t.wf(),
            t@ == (FixedView { frames: frames@, rate, pos: 0 }),
    {
        FixedTrack { frames, rate, pos: 0 }
    }

    /// The exact track length, in frames.
    pub fn num_frames(&self) -> (n: usize)
        ensures
            n == self@.frames.len(),
    {
        self.frames.len()
    }

    /// The track's native sample rate.
    pub fn rate(&self) -> (r: u32)
        ensures
            r == self@.rate,
    {
        self.rate
    }

    /// The read cursor, in frames from the start.
    pub fn position(&self) -> (p: usize)
        ensures
            p == self@.pos,
    {
        self.pos
    }

    /// Takes the frame under the cursor and steps past it; `None` once the
    /// track is played out.
    pub fn take_next(&mut self) -> (f: Option<Frame>)
        requires
            old(self).wf(),
        ensures
            final(self).wf(),
            old(self)@.pos < old(self)@.frames.len() ==> (f == Some(
                old(self)@.frames[old(self)@.pos],
            ) && final(self)@ == (FixedView {
                frames: old(self)@.frames,
                rate: old(self)@.rate,
                pos: old(self)@.pos + 1,
            })),
            old(self)@.pos == old(self)@.frames.len() ==> (f == Option::<Frame>::None && final(self)@
                == old(self)@),
    {
        if self.pos < self.frames.len() {
            let f = self.frames[self.pos];
            self.pos = self.pos + 1;
            Some(f)
        } else {
            None
        }
    }

    /// Moves the cursor to the given frame index, clamped to the end of the
    /// track.
    pub fn seek(&mut self, index: usize)
        requires
            old(self).wf(),
        ensures
            final(self).wf(),
            final(self)@.frames == old(self)@.frames,
            final(self)@.rate == old(self)@.rate,
            index <= old(self)@.frames.len() ==> final(self)@.pos == index,
            index > old(self)@.frames.len() ==> final(self)@.pos == old(self)@.frames.len(),
    {
        if index <= self.frames.len() {
            self.pos = index;
        } else {
            self.pos = self.frames.len();
        }
    }
}

/// The polymorphic track source. `Module` is a streaming tracker-module
/// decoder whose handle lives outside the library (its frames arrive through
/// the renderer's pull-ahead buffer); `Generic` is a pre-decoded in-memory
/// track; `Empty` means nothing is loaded — distinct from loaded-but-paused.
pub enum AudioType {
    Module,
    Generic(FixedTrack),
    Empty,
}

/// Ghost image of an `AudioType`.
pub enum AudioView {
    Module,
    Generic(FixedView),
    Empty,
}

impl AudioView {
    /// The pre-decoded track behind a `Generic` source.
    pub open spec fn track(self) -> FixedView
        recommends
            self is Generic,
    {
        self->0
    }
}

impl View for AudioType {
    type V = AudioView;

    open spec fn view(&self) -> AudioView {
        match self {
            AudioType::Module => AudioView::Module,
            AudioType::Generic(t) => AudioView::Generic(t@),
            AudioType::Empty => AudioView::Empty,
        }
    }
}

impl AudioType {
    pub open spec fn wf(self) -> bool {
        self matches AudioType::Generic(t) ==> t.wf()
    }

    /// Two sources are equal exactly when they are the same kind of source;
    /// contents never enter into it. The poll loop uses this only to test
    /// cheaply whether anything is loaded.
    pub open spec fn same_kind(self, other: AudioType) -> bool {
        match (self, other) {
            (AudioType::Module, AudioType::Module) => true,
            (AudioType::Generic(_), AudioType::Generic(_)) => true,
            (AudioType::Empty, AudioType::Empty) => true,
            _ => false,
        }
    }
}

impl PartialEq for AudioType {
    fn eq(&self, other: &AudioType) -> (r: bool) {
        match (self, other) {
            (AudioType::Module, AudioType::Module) => true,
            (AudioType::Generic(_), AudioType::Generic(_)) => true,
            (AudioType::Empty, AudioType::Empty) => true,
            _ => false,
        }
    }
}

impl vstd::std_specs::cmp::PartialEqSpecImpl for AudioType {
    open spec fn obeys_eq_spec() -> bool {
        true
    }

    open spec fn eq_spec(&self, other: &AudioType) -> bool {
        self.same_kind(*other)
    }
}

/// Ghost image of the renderer: the active source, the streaming pull-ahead
/// buffer (the frames not yet emitted), and the pause flag.
pub struct RenderView {
    pub audio: AudioView,
    pub buffer: Seq<Frame>,
    pub paused: bool,
}

impl RenderView {
    /// True exactly when the next draw would need a decode batch that only
    /// the outside module handle can produce: an unpaused streaming source
    /// whose pull-ahead buffer has run dry.
    pub open spec fn needs_decode(self) -> bool {
        !self.paused && self.audio is Module && self.buffer.len() == 0
    }

    /// What one draw does, at the ghost level: the renderer afterwards and
    /// the frame out. `next_frame` is exactly this function on the view.
    pub open spec fn step(self) -> (RenderView, Frame) {
        if self.paused {
            (self, Frame::silence_spec())
        } else {
            match self.audio {
                AudioView::Empty => (self, Frame::silence_spec()),
                AudioView::Module => if self.buffer.len() > 0 {
                    (
                        RenderView {
                            audio: AudioView::Module,
                            buffer: self.buffer.skip(1),
                            paused: self.paused,
                        },
                        self.buffer[0],
                    )
                } else {
                    (self, Frame::silence_spec())
                },
                AudioView::Generic(t) => if t.pos < t.frames.len() {
                    (
                        RenderView {
                            audio: AudioView::Generic(
                                FixedView { frames: t.frames, rate: t.rate, pos: t.pos + 1 },
                            ),
                            buffer: self.buffer,
                            paused: self.paused,
                        },
                        t.frames[t.pos],
                    )
                } else {
                    (
                        RenderView { audio: AudioView::Empty, buffer: self.buffer, paused: self.paused },
                        Frame::silence_spec(),
                    )
                },
            }
        }
    }

    /// The renderer after `n` draws.
    pub open spec fn run(self, n: nat) -> RenderView
        decreases n,
    {
        if n == 0 {
            self
        } else {
            self.run((n - 1) as nat).step().0
        }
    }

    /// The frame the draw after `n` prior draws returns.
    pub open spec fn run_frame(self, n: nat) -> Frame {
        self.run(n).step().1
    }
}

/// No audio under pause: from a paused renderer, every draw in any run
/// returns silence and the renderer — source, read position and pull-ahead
/// buffer included — stays exactly as it was.
pub proof fn lemma_pause_is_silent(v: RenderView, n: nat)
    requires
        v.paused,
    ensures
        v.run(n) == v,
        v.run_frame(n) == Frame::silence_spec(),
    decreases n,
{
    if n > 0 {
        lemma_pause_is_silent(v, (n - 1) as nat);
    }
}

/// Exhaustion holds: once nothing is loaded, every draw in any run returns
/// silence and the source stays `Empty` — until a new source is installed,
/// which `set_audio` says resumes normal output immediately.
pub proof fn lemma_exhausted_stays_silent(v: RenderView, n: nat)
    requires
        v.audio is Empty,
    ensures
        v.run(n) == v,
        v.run_frame(n) == Frame::silence_spec(),
    decreases n,
{
    if n > 0 {
        lemma_exhausted_stays_silent(v, (n - 1) as nat);
    }
}

/// The single renderer behind the audio callback. Exactly one source is
/// active at any instant; `set_audio` swaps it whole, so no frame ever mixes
/// two sources.
pub struct SingleRender {
    audio: AudioType,
    buffer: Vec<Frame>,
    cursor: usize,
    paused: bool,
}

impl View for SingleRender {
    type V = RenderView;

    closed spec fn view(&self) -> RenderView {
        RenderView { audio: self.audio@, buffer: self.buffer@.skip(self.cursor as int), paused: self.paused }
    }
}

impl SingleRender {
    pub closed spec fn wf(self) -> bool {
        &&& self.cursor <= self.buffer@.len()
        &&& self.audio.wf()
    }

    /// A fresh renderer: nothing loaded, not paused.
    pub fn new() -> (r: SingleRender)
        ensures
            r.wf(),
            r@.audio is Empty,
            r@.buffer.len() == 0,
            !r@.paused,
    {
        SingleRender { audio: AudioType::Empty, buffer: Vec::new(), cursor: 0, paused: false }
    }

    pub fn is_paused(&self) -> (p: bool)
        ensures
            p == self@.paused,
    {
        self.paused
    }

    pub fn set_paused(&mut self, paused: bool)
        requires
            old(self).wf(),
        ensures
            final(self).wf(),
            final(self)@ == (RenderView { paused, ..old(self)@ }),
    {
        self.paused = paused;
    }

    /// True when nothing is loaded: the poll loop's cheap "has playback
    /// stopped" probe.
    pub fn is_finished(&self) -> (r: bool)
        ensures
            r == (self@.audio is Empty),
    {
        self.audio == AudioType::Empty
    }

    /// Atomically replaces the active source and clears the pull-ahead
    /// buffer; the pause flag is untouched.
    pub fn set_audio(&mut self, aud: AudioType)
        requires
            old(self).wf(),
            aud.wf(),
        ensures
            final(self).wf(),
            final(self)@ == (RenderView { audio: aud@, buffer: Seq::empty(), paused: old(self)@.paused }),
    {
        self.buffer.clear();
        self.cursor = 0;
        self.audio = aud;
        proof {
            assert(self@.buffer =~= Seq::<Frame>::empty());
        }
    }

    /// True exactly when the driving callback must fetch one decode batch
    /// before drawing the next frame. While paused this is never true: a
    /// paused renderer does no decode work.
    pub fn needs_decode(&self) -> (r: bool)
        requires
            self.wf(),
        ensures
            r == self@.needs_decode(),
    {
        if self.paused {
            false
        } else {
            match self.audio {
                AudioType::Module => self.cursor == self.buffer.len(),
                _ => false,
            }
        }
    }

    /// Installs the decode batch the streaming source just produced. An
    /// empty batch is the exhaustion signal: the source becomes `Empty`, and
    /// it stays that way until a new source is installed.
    pub fn supply_frames(&mut self, frames: Vec<Frame>)
        requires
            old(self).wf(),
            old(self)@.needs_decode(),
        ensures
            final(self).wf(),
            frames@.len() > 0 ==> final(self)@ == (RenderView {
                audio: AudioView::Module,
                buffer: frames@,
                paused: old(self)@.paused,
            }),
            frames@.len() == 0 ==> final(self)@ == (RenderView {
                audio: AudioView::Empty,
                buffer: Seq::empty(),
                paused: old(self)@.paused,
            }),
    {
        if frames.len() == 0 {
            self.audio = AudioType::Empty;
            self.buffer.clear();
            self.cursor = 0;
            proof {
                assert(self@.buffer =~= Seq::<Frame>::empty());
            }
        } else {
            self.buffer = frames;
            self.cursor = 0;
            proof {
                assert(self@.buffer =~= frames@);
            }
        }
    }

    /// Produces one frame, in bounded time and without touching anything
    /// outside the renderer.
    ///
    /// Paused: silence, and the renderer — decoder cursors included — is
    /// left exactly as it was. Nothing loaded: silence, unchanged. A source
    /// with a frame ready: that frame, consumed in order. A pre-decoded
    /// source that is played out delivers zero new frames, so the source
    /// transitions to `Empty` and this call returns silence; a streaming
    /// source whose buffer ran dry without a batch having been supplied
    /// returns silence and waits, unchanged. The renderer never advances
    /// the playlist — detecting `Empty` is the caller's business.
    pub fn next_frame(&mut self) -> (f: Frame)
        requires
            old(self).wf(),
        ensures
            final(self).wf(),
            final(self)@ == old(self)@.step().0,
            f == old(self)@.step().1,
    {
        if self.paused {
            return Frame::silence();
        }
        match &mut self.audio {
            AudioType::Module => {
                if self.cursor < self.buffer.len() {
                    let f = self.buffer[self.cursor];
                    self.cursor = self.cursor + 1;
                    proof {
                        assert(self@.buffer =~= old(self)@.buffer.skip(1));
                    }
                    f
                } else {
                    Frame::silence()
                }
            },
            AudioType::Generic(track) => {
                match track.take_next() {
                    Some(f) => f,
                    None => {
                        self.audio = AudioType::Empty;
                        Frame::silence()
                    },
                }
            },
            AudioType::Empty => Frame::silence(),
        }
    }

    /// The read position of a pre-decoded source, in frames; zero for a
    /// streaming or absent source, whose position the library does not
    /// track.
    pub fn position_frames(&self) -> (p: usize)
        requires
            self.wf(),
        ensures
            self@.audio matches AudioView::Generic(t) ==> p == t.pos,
            !(self@.audio is Generic) ==> p == 0,
    {
        match &self.audio {
            AudioType::Generic(track) => track.position(),
            _ => 0,
        }
    }

    /// Moves the active source to the given frame index: a pre-decoded
    /// track seeks (clamped to its end); a streaming or absent source is
    /// left alone.
    pub fn seek_to_frame(&mut self, index: usize)
        requires
            old(self).wf(),
        ensures
            final(self).wf(),
            old(self)@.audio matches AudioView::Generic(t) ==> (final(self)@ == (RenderView {
                audio: AudioView::Generic(
                    FixedView {
                        frames: t.frames,
                        rate: t.rate,
                        pos: if index <= t.frames.len() {
                            index as int
                        } else {
                            t.frames.len() as int
                        },
                    },
                ),
                buffer: old(self)@.buffer,
                paused: old(self)@.paused,
            })),
            !(old(self)@.audio is Generic) ==> final(self)@ == old(self)@,
    {
        match &mut self.audio {
            AudioType::Generic(track) => {
                track.seek(index);
            },
            _ => {},
        }
    }
}

} // verus!
