//! The frame loop's decision state.
//!
//! The loop itself lives with the display: each tick it clears, draws and
//! presents a frame, then reports here whether a quit signal was seen. This
//! module decides what the loop does next — keep running, with the angle
//! advanced one step, or stop for good — and owns the step count from which
//! the frame's angle is derived.

use vstd::prelude::*;

verus! {

/// Whether the frame loop keeps drawing.
#[derive(Clone, Copy, PartialEq, Eq, Structural, Debug)]
pub enum Phase {
    Running,
    Stopped,
}

/// The loop state: the phase, and how many angle steps have elapsed. The
/// rotation angle of the next frame is `steps` times the fixed step of
/// one-twentieth of a radian.
#[derive(Clone, Copy, PartialEq, Eq, Structural, Debug)]
pub struct FrameState {
    pub phase: Phase,
    pub steps: u64,
}

impl FrameState {
    /// The loop starts running, at angle zero.
    pub fn new() -> (s: FrameState)
        ensures
            s.phase == Phase::Running,
            s.steps == 0,
    {
        FrameState { phase: Phase::Running, steps: 0 }
    }

    /// True while the loop should draw another frame.
    pub fn is_running(&self) -> (b: bool)
        ensures
            b == (self.phase == Phase::Running),
    {
        match self.phase {
            Phase::Running => true,
            Phase::Stopped => false,
        }
    }

    /// Advance past one drawn frame. A quit signal stops the loop for
    /// good; otherwise the step count — and with it the angle — grows by
    /// one. Stopped is terminal: no event restarts the loop.
    pub fn tick(&mut self, quit: bool)
        requires
            old(self).steps < u64::MAX,
        ensures
            final(self).phase == (if old(self).phase == Phase::Stopped || quit {
                Phase::Stopped
            } else {
                Phase::Running
            }),
            final(self).steps == (if old(self).phase == Phase::Running && !quit {
                old(self).steps + 1
            } else {
                old(self).steps as int
            }),
    {
        match self.phase {
            Phase::Stopped => {},
            Phase::Running => {
                if quit {
                    self.phase = Phase::Stopped;
                } else {
                    self.steps = self.steps + 1;
                }
            },
        }
    }
}

} // verus!
