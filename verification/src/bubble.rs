//! Hit effects: short animations that rise from where an enemy was hit.

use crate::animator::{Animator, AnimatorModel};
use crate::body::Body;
use crate::grid::Grid;
use crate::model::{effect_mover, effect_stays};
use crate::seqs::views_of;
use crate::ticking::Transient;
use vstd::prelude::*;

verus! {

/// Number of frames in a hit effect's animation.
pub const EFFECT_FRAMES: usize = 8;

/// A hit effect. It rises by its vertical velocity, plays its animation once and is
/// `expired` from the tick in which the last frame ends.
#[derive(Clone, Copy, Debug, PartialEq, Eq)]
pub struct Bubble {
    pub pos: (i64, i64),
    pub velocity: (i64, i64),
    pub animator: Animator,
    pub expired: bool,
}

/// The mathematical model of a `Bubble`.
pub struct EffectModel {
    pub body: Body,
    pub animator: AnimatorModel,
    pub expired: bool,
}

impl View for Bubble {
    type V = EffectModel;

    open spec fn view(&self) -> EffectModel {
        EffectModel {
            body: Body {
                x: self.pos.0 as int,
                y: self.pos.1 as int,
                vx: self.velocity.0 as int,
                vy: self.velocity.1 as int,
            },
            animator: self.animator@,
            expired: self.expired,
        }
    }
}

/// The models of the effects, in order.
pub open spec fn effect_models(bubbles: Seq<Bubble>) -> Seq<EffectModel> {
    views_of(bubbles)
}

/// Every effect of the sequence has a well-formed animation.
pub open spec fn all_effects_wf(effects: Seq<EffectModel>) -> bool {
    forall|i: int| 0 <= i < effects.len() ==> (#[trigger] effects[i]).wf()
}

/// Every effect of the sequence is within the coordinate limit.
pub open spec fn all_effects_in_range(effects: Seq<EffectModel>) -> bool {
    forall|i: int| 0 <= i < effects.len() ==> (#[trigger] effects[i]).body.in_range()
}

impl EffectModel {
    /// A fresh effect at `(x, y)` moving with `(vx, vy)`.
    pub open spec fn fresh(x: int, y: int, vx: int, vy: int) -> EffectModel {
        EffectModel {
            body: Body { x, y, vx, vy },
            animator: AnimatorModel { timer: 0, frame: 0, frame_count: EFFECT_FRAMES as nat },
            expired: false,
        }
    }

    /// The animation has `EFFECT_FRAMES` frames and its counter is well formed.
    pub open spec fn wf(self) -> bool {
        self.animator.wf() && self.animator.frame_count == EFFECT_FRAMES
    }

    /// The effect after a tick of `dt` microseconds: it has moved vertically, its
    /// animation has run on, and it has expired if the last frame ended.
    pub open spec fn step(self, dt: nat) -> EffectModel {
        EffectModel {
            body: Body { y: self.body.y + self.body.vy, ..self.body },
            animator: self.animator.step(dt, true),
            expired: self.expired || self.animator.wraps(dt, true),
        }
    }
}

impl Transient for Bubble {
    open spec fn steady(v: EffectModel) -> bool {
        v.wf() && v.body.in_range()
    }

    open spec fn mover(grid: Grid, bs: int, dt: nat) -> spec_fn(EffectModel) -> EffectModel {
        effect_mover(dt)
    }

    open spec fn keeper(bs: int) -> spec_fn(EffectModel) -> bool {
        effect_stays()
    }

    fn tick(&mut self, grid: &Grid, block_size: i64, dt: u64) {
        self.update(dt);
    }

    fn stays(&self, block_size: i64) -> (kept: bool) {
        !self.is_expired()
    }
}

impl Bubble {
    /// A fresh effect at `pos` moving with `velocity`.
    pub fn new(pos: (i64, i64), velocity: (i64, i64)) -> (bubble: Bubble)
        ensures
            bubble@ == EffectModel::fresh(
                pos.0 as int,
                pos.1 as int,
                velocity.0 as int,
                velocity.1 as int,
            ),
            bubble@.wf(),
    {
        Bubble { pos, velocity, animator: Animator::new(EFFECT_FRAMES), expired: false }
    }

    /// Advances the effect by one tick of `dt` microseconds.
    pub fn update(&mut self, dt: u64)
        requires
            old(self)@.wf(),
            old(self)@.body.in_range(),
        ensures
            final(self)@ == old(self)@.step(dt as nat),
            final(self)@.wf(),
    {
        self.pos.1 = self.pos.1 + self.velocity.1;
        let wrapped = self.animator.tick(dt, true);
        if wrapped {
            self.expired = true;
        }
    }

    /// Tells whether the animation has played through.
    pub fn is_expired(&self) -> (expired: bool)
        ensures
            expired == self@.expired,
    {
        self.expired
    }
}

} // verus!
