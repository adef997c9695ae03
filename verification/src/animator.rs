//! The frame counter that the player and the hit effects share.

use crate::scale::FRAME_INTERVAL;
use vstd::prelude::*;

verus! {

/// A frame counter driven by elapsed time. `timer` accumulates microseconds up to the
/// frame interval and holds there; `frame` cycles through `frame_count` frames.
#[derive(Clone, Copy, Debug, PartialEq, Eq)]
pub struct Animator {
    pub timer: u64,
    pub frame: usize,
    pub frame_count: usize,
}

/// The mathematical model of an `Animator`.
pub struct AnimatorModel {
    pub timer: nat,
    pub frame: nat,
    pub frame_count: nat,
}

impl View for Animator {
    type V = AnimatorModel;

    open spec fn view(&self) -> AnimatorModel {
        AnimatorModel {
            timer: self.timer as nat,
            frame: self.frame as nat,
            frame_count: self.frame_count as nat,
        }
    }
}

impl AnimatorModel {
    /// The frame is one of the animation's and the timer has not passed the interval.
    pub open spec fn wf(self) -> bool {
        self.frame < self.frame_count && self.timer <= FRAME_INTERVAL
    }

    /// The accumulated time after `dt` more microseconds, held at the interval.
    pub open spec fn accumulated(self, dt: nat) -> nat {
        if self.timer + dt >= FRAME_INTERVAL {
            FRAME_INTERVAL as nat
        } else {
            self.timer + dt
        }
    }

    /// The frame advances in a tick of `dt` microseconds: the interval is reached and
    /// the owner is `active`.
    pub open spec fn advances(self, dt: nat, active: bool) -> bool {
        active && self.timer + dt >= FRAME_INTERVAL
    }

    /// The frame that is shown now is the animation's last, and this tick leaves it.
    pub open spec fn wraps(self, dt: nat, active: bool) -> bool {
        self.advances(dt, active) && self.frame + 1 == self.frame_count
    }

    /// The animator after a tick of `dt` microseconds. Where the frame advances, the
    /// timer starts again from zero; otherwise it keeps what it has accumulated.
    pub open spec fn step(self, dt: nat, active: bool) -> AnimatorModel {
        if self.advances(dt, active) {
            AnimatorModel {
                timer: 0,
                frame: if self.frame + 1 == self.frame_count {
                    0
                } else {
                    self.frame + 1
                },
                ..self
            }
        } else {
            AnimatorModel { timer: self.accumulated(dt), ..self }
        }
    }
}

impl Animator {
    /// An animator at its first frame with an empty timer.
    pub fn new(frame_count: usize) -> (animator: Animator)
        requires
            frame_count > 0,
        ensures
            animator@ == (AnimatorModel { timer: 0, frame: 0, frame_count: frame_count as nat }),
            animator@.wf(),
    {
        Animator { timer: 0, frame: 0, frame_count }
    }

    /// Accounts for `dt` elapsed microseconds and says whether the animation has
    /// played through its last frame.
    pub fn tick(&mut self, dt: u64, active: bool) -> (wrapped: bool)
        requires
            old(self)@.wf(),
        ensures
            final(self)@ == old(self)@.step(dt as nat, active),
            final(self)@.wf(),
            wrapped == old(self)@.wraps(dt as nat, active),
    {
        let due = dt >= FRAME_INTERVAL - self.timer;
        if due && active {
            self.timer = 0;
            if self.frame + 1 == self.frame_count {
                self.frame = 0;
                true
            } else {
                self.frame = self.frame + 1;
                false
            }
        } else {
            if due {
                self.timer = FRAME_INTERVAL;
            } else {
                self.timer = self.timer + dt;
            }
            false
        }
    }
}

} // verus!
