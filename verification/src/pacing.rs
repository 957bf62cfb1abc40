//! Frame pacing: when the next frame is due.

use vstd::prelude::*;

verus! {

/// The frames that are drawn in a second.
pub const FPS: u64 = 60;

/// The milliseconds between two frames.
pub open spec fn frame_millis() -> int {
    1000int / (FPS as int)
}

/// What to do about the next frame.
#[derive(Debug, Clone, Copy, PartialEq, Eq)]
pub enum Frame {
    /// The frame is due: draw it.
    Draw,
    /// The frame is due in this many milliseconds.
    Wait(u64),
}

/// The time at which the last frame was drawn.
#[derive(Debug)]
pub struct FramePacer {
    pub last: u64,
}

impl FramePacer {
    /// A pacer that has drawn no frame yet.
    pub fn new() -> (pacer: FramePacer)
        ensures
            pacer.last == 0,
    {
        FramePacer { last: 0 }
    }

    /// Whether a frame is due at the time `now`, in milliseconds.  A frame
    /// is due once a sixtieth of a second has passed since the last one, and
    /// is then taken as drawn at `now`.
    pub fn poll(&mut self, now: u64) -> (frame: Frame)
        requires
            old(self).last <= now,
        ensures
            now - old(self).last < frame_millis() ==> frame == Frame::Wait(
                (frame_millis() - (now - old(self).last)) as u64,
            ) && final(self).last == old(self).last,
            now - old(self).last >= frame_millis() ==> frame == Frame::Draw && final(self).last
                == now,
    {
        let delta: u64 = now - self.last;
        if delta < 1000 / FPS {
            Frame::Wait(1000 / FPS - delta)
        } else {
            self.last = now;
            Frame::Draw
        }
    }
}

} // verus!
