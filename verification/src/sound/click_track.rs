//! where a click track is in its click sound
//!
//! On every change of beat the click starts over.  Each frame plays the next
//! stretch of the click, the high click ("tic") on beat 0 and the low click
//! ("toc") on the other beats, until the click is over or the track is muted.
use vstd::prelude::*;

verus! {

/// Length of a click sound, in samples.
pub const CLICK_SIZE: usize = 4800;

/// What to play in a frame: the stretch of the click from `start`, and which
/// click.
#[derive(PartialEq, Eq, Structural, Debug, Clone, Copy)]
pub struct ClickSlice {
    pub start: usize,
    pub tic: bool,
}

/// Position of a click track in its click.
pub struct ClickCursor {
    beat: u8,
    idx: usize,
    mute: bool,
}

impl ClickCursor {
    pub closed spec fn beat(&self) -> u8 {
        self.beat
    }

    pub closed spec fn position(&self) -> usize {
        self.idx
    }

    pub closed spec fn muted(&self) -> bool {
        self.mute
    }

    /// A muted cursor at the start of beat 0.
    pub fn new() -> (c: ClickCursor)
        ensures
            c.beat() == 0,
            c.position() == 0,
            c.muted(),
    {
        ClickCursor { beat: 0, idx: 0, mute: true }
    }

    pub fn get_mute(&self) -> (m: bool)
        ensures
            m == self.muted(),
    {
        self.mute
    }

    pub fn set_mute(&mut self, mute: bool)
        ensures
            final(self).muted() == mute,
            final(self).beat() == old(self).beat(),
            final(self).position() == old(self).position(),
    {
        self.mute = mute;
    }

    /// Advance by a frame of `frame_len` samples on beat `beat`: what to play,
    /// if anything.  A new beat restarts the click.  A stretch is played when
    /// the track is not muted and a whole frame of the click is left past
    /// the position, which then moves on by the frame.
    pub fn next_slice(&mut self, beat: u8, frame_len: usize) -> (r: Option<ClickSlice>)
        requires
            frame_len <= CLICK_SIZE,
        ensures
            ({
                let start = if beat != old(self).beat() { 0 } else { old(self).position() };
                &&& final(self).beat() == beat
                &&& final(self).muted() == old(self).muted()
                &&& if !old(self).muted() && start < CLICK_SIZE - frame_len {
                    &&& r == Some(ClickSlice { start, tic: beat == 0 })
                    &&& final(self).position() == start + frame_len
                    &&& start + frame_len <= CLICK_SIZE
                } else {
                    &&& r is None
                    &&& final(self).position() == start
                }
            }),
    {
        if beat != self.beat {
            self.beat = beat;
            self.idx = 0;
        }
        if !self.mute && self.idx < CLICK_SIZE - frame_len {
            let start = self.idx;
            self.idx = self.idx + frame_len;
            Some(ClickSlice { start, tic: beat == 0 })
        } else {
            None
        }
    }
}

} // verus!
