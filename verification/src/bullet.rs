//! Bullets the player fires.

use crate::body::{bodies_of, Body, Mobile};
use crate::grid::Grid;
use crate::kinematics::{glide, outside_world};
use crate::model::{glider, projectile_stays};
use crate::ticking::Transient;
use crate::scale::{height_of, valid_block_size, width_of};
use vstd::prelude::*;

verus! {

/// A player's bullet: position and velocity.
#[derive(Clone, Copy, Debug, PartialEq, Eq)]
pub struct Bullet {
    pub pos: (i64, i64),
    pub velocity: (i64, i64),
}

impl View for Bullet {
    type V = Body;

    open spec fn view(&self) -> Body {
        Body {
            x: self.pos.0 as int,
            y: self.pos.1 as int,
            vx: self.velocity.0 as int,
            vy: self.velocity.1 as int,
        }
    }
}

/// The bodies of the bullets, in order.
pub open spec fn bullet_bodies(bullets: Seq<Bullet>) -> Seq<Body> {
    bodies_of(bullets)
}

impl Mobile for Bullet {
    fn position(&self) -> (pos: (i64, i64)) {
        self.pos
    }

    fn speed(&self) -> (velocity: (i64, i64)) {
        self.velocity
    }
}

impl Transient for Bullet {
    open spec fn steady(v: Body) -> bool {
        v.in_range()
    }

    open spec fn mover(grid: Grid, bs: int, dt: nat) -> spec_fn(Body) -> Body {
        glider()
    }

    open spec fn keeper(bs: int) -> spec_fn(Body) -> bool {
        projectile_stays(bs)
    }

    fn tick(&mut self, grid: &Grid, block_size: i64, dt: u64) {
        self.update();
    }

    fn stays(&self, block_size: i64) -> (kept: bool) {
        !self.is_off_screen(block_size)
    }
}

impl Bullet {
    /// Moves the bullet by its velocity.
    pub fn update(&mut self)
        requires
            old(self)@.in_range(),
        ensures
            final(self)@ == glide(old(self)@),
    {
        self.pos.0 = self.pos.0 + self.velocity.0;
        self.pos.1 = self.pos.1 + self.velocity.1;
    }

    /// Tells whether the bullet lies outside the world on some side.
    pub fn is_off_screen(&self, block_size: i64) -> (off: bool)
        requires
            valid_block_size(block_size as int),
        ensures
            off == outside_world(self@.x, self@.y, block_size as int),
    {
        self.pos.0 < 0 || self.pos.0 > width_of(block_size) || self.pos.1 < 0 || self.pos.1
            > height_of(block_size)
    }
}

} // verus!
