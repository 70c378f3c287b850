//! A pull decoder over a tracker module's output: frames are accumulated in
//! batches as the module handle (a foreign object, driven outside the
//! library) renders them, and handed out in fixed-size chunks with a read
//! cursor that supports random seeking.
//!
//! A chunk may come back shorter than requested — that signals
//! near-exhaustion — and comes back empty exactly when the cursor stands at
//! the end, which is the exhaustion signal; reading past the end is not an
//! error.

use vstd::prelude::*;

use crate::frame::{pair_frames, paired_spec, Frame};

verus! {

/// Frames per `decode` chunk: half a second at the module render rate.
pub const DECODE_CHUNK: usize = 11025;

/// The fixed rate, in frames per second, at which tracker modules are
/// rendered.
pub const MODULE_RATE: u32 = 22050;

/// Ghost image of a `ModDecoder`: the frames gathered so far and the read
/// cursor.
pub struct DecoderView {
    pub frames: Seq<Frame>,
    pub pos: int,
}

/// Decoder state for a tracker module: the frames rendered so far and a
/// cursor over them.
pub struct ModDecoder {
    frames: Vec<Frame>,
    pos: usize,
}

impl View for ModDecoder {
    type V = DecoderView;

    closed spec fn view(&self) -> DecoderView {
        DecoderView { frames: self.frames@, pos: self.pos as int }
    }
}

impl ModDecoder {
    pub open spec fn wf(self) -> bool {
        0 <= self@.pos <= self@.frames.len()
    }

    /// A fresh decoder holding no frames yet.
    pub fn new() -> (d: ModDecoder)
        ensures
            d.wf(),
            d@.frames.len() == 0,
            d@.pos == 0,
    {
        ModDecoder { frames: Vec::new(), pos: 0 }
    }

    /// Appends one batch of per-channel samples, paired into frames under
    /// the fixed pairing convention. A module render call fills both channel
    /// buffers to the same count.
    pub fn push_batch(&mut self, left: &Vec<u32>, right: &Vec<u32>)
        requires
            old(self).wf(),
            left@.len() == right@.len(),
        ensures
            final(self).wf(),
            final(self)@.frames == old(self)@.frames + paired_spec(left@, right@),
            final(self)@.pos == old(self)@.pos,
    {
        let mut batch = pair_frames(left, right);
        let mut i: usize = 0;
        let n = batch.len();
        while i < n
            invariant
                i <= n,
                n == batch@.len(),
                batch@ == paired_spec(left@, right@),
                self.wf(),
                self@.frames == old(self)@.frames + batch@.take(i as int),
                self@.pos == old(self)@.pos,
            decreases n - i,
        {
            self.frames.push(batch[i]);
            proof {
                assert(self@.frames =~= old(self)@.frames + batch@.take(i + 1));
            }
            i = i + 1;
        }
        proof {
            assert(self@.frames =~= old(self)@.frames + batch@);
        }
    }

    /// The rate every chunk is rendered at.
    pub fn sample_rate(&self) -> (r: u32)
        ensures
            r == MODULE_RATE,
    {
        MODULE_RATE
    }

    /// How many frames the decoder holds in all.
    pub fn num_frames(&self) -> (n: usize)
        ensures
            n == self@.frames.len(),
    {
        self.frames.len()
    }

    /// Hands out the next chunk, at most `DECODE_CHUNK` frames, advancing
    /// the cursor past it. A short chunk means the end is near; an empty one
    /// means the cursor already stood at the end.
    pub fn decode(&mut self) -> (chunk: Vec<Frame>)
        requires
            old(self).wf(),
        ensures
            final(self).wf(),
            final(self)@.frames == old(self)@.frames,
            final(self)@.pos == old(self)@.pos + chunk@.len(),
            chunk@ == old(self)@.frames.subrange(old(self)@.pos, final(self)@.pos),
            chunk@.len() == if old(self)@.frames.len() - old(self)@.pos < DECODE_CHUNK {
                old(self)@.frames.len() - old(self)@.pos
            } else {
                DECODE_CHUNK as int
            },
    {
        let remaining = self.frames.len() - self.pos;
        let n = if remaining < DECODE_CHUNK {
            remaining
        } else {
            DECODE_CHUNK
        };
        let mut chunk: Vec<Frame> = Vec::new();
        let mut i: usize = 0;
        while i < n
            invariant
                i <= n,
                self.wf(),
                self@ == old(self)@,
                n <= self@.frames.len() - self@.pos,
                self@.pos + n <= usize::MAX,
                chunk@ == self@.frames.subrange(self@.pos, self@.pos + i),
            decreases n - i,
        {
            chunk.push(self.frames[self.pos + i]);
            proof {
                assert(chunk@ =~= self@.frames.subrange(self@.pos, self@.pos + i + 1));
            }
            i = i + 1;
        }
        self.pos = self.pos + n;
        chunk
    }

    /// Moves the cursor to the given frame index, clamped to the end.
    pub fn seek(&mut self, index: usize) -> (new_pos: usize)
        requires
            old(self).wf(),
        ensures
            final(self).wf(),
            final(self)@.frames == old(self)@.frames,
            new_pos == final(self)@.pos,
            index <= old(self)@.frames.len() ==> final(self)@.pos == index,
            index > old(self)@.frames.len() ==> final(self)@.pos == old(self)@.frames.len(),
    {
        if index <= self.frames.len() {
            self.pos = index;
        } else {
            self.pos = self.frames.len();
        }
        self.pos
    }
}

} // verus!
