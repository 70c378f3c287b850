//! The atomic stereo sample unit, and the pairing of per-channel decoder
//! buffers into frames.
//!
//! A channel sample is carried as the raw bit pattern of an IEEE-754
//! single-precision amplitude (`u32`). The library routes, orders and drops
//! samples but never does amplitude arithmetic, so the bit pattern is the
//! exact value; the unverified audio layer converts to and from machine
//! floats at the device boundary. The all-zero pattern is an amplitude of
//! zero, so the silent frame is zero bits on both channels.

use vstd::prelude::*;

verus! {

/// One stereo sample pair: left and right channel amplitudes, by value.
#[derive(Clone, Copy, PartialEq, Eq, Structural, Debug)]
pub struct Frame {
    pub left: u32,
    pub right: u32,
}

impl Frame {
    /// The silent frame: amplitude zero on both channels.
    pub open spec fn silence_spec() -> Frame {
        Frame { left: 0, right: 0 }
    }

    pub open spec fn is_silence(self) -> bool {
        self == Frame::silence_spec()
    }

    /// Returns the silent frame.
    pub fn silence() -> (f: Frame)
        ensures
            f == Frame::silence_spec(),
    {
        Frame { left: 0, right: 0 }
    }
}

/// The fixed pairing convention between the two per-call channel buffers of
/// a streaming decoder: the left buffer is read in natural order, the right
/// buffer last-written-sample-first. Frame `i` therefore pairs `left[i]`
/// with `right[len - 1 - i]`, and callers see a forward-ordered frame
/// sequence.
pub open spec fn paired_spec(left: Seq<u32>, right: Seq<u32>) -> Seq<Frame>
    recommends
        left.len() == right.len(),
{
    Seq::new(left.len(), |i: int| Frame { left: left[i], right: right[right.len() - 1 - i] })
}

/// Zips one batch of per-channel samples into frames under the fixed
/// pairing convention. A streaming read fills both channel buffers to the
/// same count, so the inputs always arrive with equal lengths.
pub fn pair_frames(left: &Vec<u32>, right: &Vec<u32>) -> (frames: Vec<Frame>)
    requires
        left@.len() == right@.len(),
    ensures
        frames@ == paired_spec(left@, right@),
{
    let n = left.len();
    let mut frames: Vec<Frame> = Vec::new();
    let mut i: usize = 0;
    while i < n
        invariant
            i <= n,
            n == left@.len(),
            n == right@.len(),
            frames@ == paired_spec(left@, right@).take(i as int),
        decreases n - i,
    {
        frames.push(Frame { left: left[i], right: right[n - 1 - i] });
        proof {
            assert(frames@ =~= paired_spec(left@, right@).take(i + 1));
        }
        i = i + 1;
    }
    proof {
        assert(frames@ =~= paired_spec(left@, right@));
    }
    frames
}

} // verus!
