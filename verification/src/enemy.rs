//! Enemies: bodies that walk, turn round at walls and fall.

use crate::body::{bodies_of, Body, Mobile};
use crate::grid::Grid;
use crate::model::{enemy_mover, enemy_stays};
use crate::ticking::Transient;
use crate::kinematics::{enemy_step, far_outside_world, is_blocked_sideways, settle_at};
use crate::scale::{height_of, toward_zero, valid_block_size, width_of};
use vstd::prelude::*;

verus! {

/// An enemy's position and velocity.
#[derive(Clone, Copy, Debug, PartialEq, Eq)]
pub struct Enemy {
    pub pos: (i64, i64),
    pub velocity: (i64, i64),
}

impl View for Enemy {
    type V = Body;

    open spec fn view(&self) -> Body {
        Body {
            x: self.pos.0 as int,
            y: self.pos.1 as int,
            vx: self.velocity.0 as int,
            vy: self.velocity.1 as int,
        }
    }
}

/// The bodies of a roster, in order.
pub open spec fn enemy_bodies(enemies: Seq<Enemy>) -> Seq<Body> {
    bodies_of(enemies)
}

/// The roster a level starts with, for a world of the given size.
pub open spec fn initial_roster(width: int, height: int, bs: int) -> Seq<Body> {
    seq![
        Body {
            x: toward_zero(width, 8),
            y: toward_zero(height, 2),
            vx: toward_zero(bs, 15),
            vy: toward_zero(bs, 7),
        },
        Body { x: toward_zero(width, 4), y: 0, vx: toward_zero(bs, 8), vy: 0 },
        Body { x: toward_zero(width, 4), y: 0, vx: -toward_zero(bs, 15), vy: 0 },
    ]
}

/// Creates the roster a level starts with.
pub fn create_enemies(window_width: i64, window_height: i64, block_size: i64) -> (enemies: Vec<
    Enemy,
>)
    ensures
        enemy_bodies(enemies@) == initial_roster(
            window_width as int,
            window_height as int,
            block_size as int,
        ),
{
    let mut enemies: Vec<Enemy> = Vec::new();
    enemies.push(
        Enemy {
            pos: (window_width / 8, window_height / 2),
            velocity: (block_size / 15, block_size / 7),
        },
    );
    enemies.push(Enemy { pos: (window_width / 4, 0), velocity: (block_size / 8, 0) });
    enemies.push(Enemy { pos: (window_width / 4, 0), velocity: (-(block_size / 15), 0) });
    assert(enemy_bodies(enemies@) =~= initial_roster(
        window_width as int,
        window_height as int,
        block_size as int,
    ));
    enemies
}

impl Mobile for Enemy {
    fn position(&self) -> (pos: (i64, i64)) {
        self.pos
    }

    fn speed(&self) -> (velocity: (i64, i64)) {
        self.velocity
    }
}

impl Transient for Enemy {
    open spec fn steady(v: Body) -> bool {
        v.in_range()
    }

    open spec fn mover(grid: Grid, bs: int, dt: nat) -> spec_fn(Body) -> Body {
        enemy_mover(grid, bs)
    }

    open spec fn keeper(bs: int) -> spec_fn(Body) -> bool {
        enemy_stays(bs)
    }

    fn tick(&mut self, grid: &Grid, block_size: i64, dt: u64) {
        self.update(grid, block_size);
    }

    fn stays(&self, block_size: i64) -> (kept: bool) {
        !self.is_off_screen(block_size)
    }
}

impl Enemy {
    /// An enemy at `pos` moving with `velocity`.
    pub fn new(pos: (i64, i64), velocity: (i64, i64)) -> (enemy: Enemy)
        ensures
            enemy.pos == pos,
            enemy.velocity == velocity,
    {
        Enemy { pos, velocity }
    }

    /// Advances the enemy by one tick: gravity, then the horizontal move, where a
    /// rejected move turns the enemy round, then the vertical move.
    pub fn update(&mut self, grid: &Grid, block_size: i64)
        requires
            old(self)@.in_range(),
            valid_block_size(block_size as int),
        ensures
            final(self)@ == enemy_step(*grid, block_size as int, old(self)@),
    {
        let falling = self.velocity.1 + block_size / 50;
        if is_blocked_sideways(grid, false, self.pos.0, self.pos.1, self.velocity.0, block_size) {
            self.velocity.0 = -self.velocity.0;
        } else {
            self.pos.0 = self.pos.0 + self.velocity.0;
        }
        let (y, vy) = settle_at(grid, false, self.pos.0, self.pos.1, falling, block_size);
        self.pos.1 = y;
        self.velocity.1 = vy;
    }

    /// Tells whether the enemy has left the world by more than the two blocks of
    /// slack it is given to the right and below.
    pub fn is_off_screen(&self, block_size: i64) -> (off: bool)
        requires
            valid_block_size(block_size as int),
        ensures
            off == far_outside_world(self@.x, self@.y, block_size as int),
    {
        let slack = 2 * block_size;
        self.pos.0 < 0 || self.pos.0 > width_of(block_size) + slack || self.pos.1 < 0
            || self.pos.1 > height_of(block_size) + slack
    }
}

} // verus!
