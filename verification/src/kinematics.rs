//! One tick of motion for a body that feels gravity and the tiles.
//!
//! The order within a tick is fixed: gravity is added to the vertical velocity, the
//! horizontal move is resolved, then the vertical move. Every test probes the position
//! the body would move to, never the one it has.

use crate::body::Body;
use crate::grid::{is_occupied, Grid};
use crate::scale::{
    gravity, height_of, probe_margin, valid_block_size, width_of, world_height, world_width,
    COORD_LIMIT,
};
use crate::utils::{check_collision, check_collision_player};
use vstd::prelude::*;

verus! {

/// The tile under the world point `(x, y)` is occupied.
pub open spec fn world_point_occupied(grid: Grid, x: int, y: int, bs: int) -> bool {
    is_occupied(grid, x / bs, y / bs)
}

/// The player's probe: the point itself or the point one block to either side lies on
/// an occupied tile.
pub open spec fn wide_point_occupied(grid: Grid, x: int, y: int, bs: int) -> bool {
    world_point_occupied(grid, x, y, bs) || world_point_occupied(grid, x + bs, y, bs)
        || world_point_occupied(grid, x - bs, y, bs)
}

/// The probe of a body at `(x, y)`: three points wide for the player, one point otherwise.
pub open spec fn probe(grid: Grid, player: bool, x: int, y: int, bs: int) -> bool {
    if player {
        wide_point_occupied(grid, x, y, bs)
    } else {
        world_point_occupied(grid, x, y, bs)
    }
}

/// The horizontal move from `x` by `vx` is rejected: it would reach a side of the world
/// or an occupied tile at the body's probe height.
pub open spec fn blocked_sideways(grid: Grid, player: bool, x: int, y: int, vx: int, bs: int) -> bool {
    x + vx <= 0 || x + vx >= world_width(bs) || probe(grid, player, x + vx, y + probe_margin(bs), bs)
}

/// The vertical move from `y` by `vy` ends on a tile: the body moves down or rests, and
/// its probe at the new height is occupied.
pub open spec fn lands(grid: Grid, player: bool, x: int, y: int, vy: int, bs: int) -> bool {
    vy >= 0 && probe(grid, player, x, y + vy + probe_margin(bs), bs)
}

/// The vertical move from `y` by `vy` would pass the bottom of the world.
pub open spec fn falls_out(y: int, vy: int, bs: int) -> bool {
    y + vy > world_height(bs)
}

/// Height and vertical velocity after the vertical move: a landing body keeps its
/// height and stops, one that would fall out is set on the bottom and stops, any other
/// moves by its velocity.
pub open spec fn settle(grid: Grid, player: bool, x: int, y: int, vy: int, bs: int) -> (int, int) {
    if lands(grid, player, x, y, vy, bs) {
        (y, 0)
    } else if falls_out(y, vy, bs) {
        (world_height(bs), 0)
    } else {
        (y + vy, vy)
    }
}

/// One tick of a body that feels gravity and the tiles. Gravity is added first. The
/// horizontal move is made unless it is rejected; a rejected move stops the player and
/// turns anything else round. The vertical move is resolved last, at the new `x`.
pub open spec fn body_step(grid: Grid, bs: int, player: bool, b: Body) -> Body {
    let blocked = blocked_sideways(grid, player, b.x, b.y, b.vx, bs);
    let x = if blocked {
        b.x
    } else {
        b.x + b.vx
    };
    let vx = if !blocked {
        b.vx
    } else if player {
        0
    } else {
        -b.vx
    };
    let (y, vy) = settle(grid, player, x, b.y, b.vy + gravity(bs), bs);
    Body { x, y, vx, vy }
}

/// One tick of an enemy.
pub open spec fn enemy_step(grid: Grid, bs: int, e: Body) -> Body {
    body_step(grid, bs, false, e)
}

/// One tick of the player's body.
pub open spec fn player_body_step(grid: Grid, bs: int, p: Body) -> Body {
    body_step(grid, bs, true, p)
}

/// One tick of a projectile: a straight line, whatever the tiles.
pub open spec fn glide(b: Body) -> Body {
    Body { x: b.x + b.vx, y: b.y + b.vy, ..b }
}

/// The point lies outside the world on some side.
pub open spec fn outside_world(x: int, y: int, bs: int) -> bool {
    x < 0 || x > world_width(bs) || y < 0 || y > world_height(bs)
}

/// The point lies more than two blocks beyond the right or the bottom of the world, or
/// beyond its left or top.
pub open spec fn far_outside_world(x: int, y: int, bs: int) -> bool {
    x < 0 || x > world_width(bs) + 2 * bs || y < 0 || y > world_height(bs) + 2 * bs
}

/// Evaluates a body's probe at `(x, y)`.
pub fn probe_at(grid: &Grid, player: bool, x: i64, y: i64, block_size: i64) -> (hit: bool)
    requires
        valid_block_size(block_size as int),
    ensures
        hit == probe(*grid, player, x as int, y as int, block_size as int),
{
    if player {
        check_collision_player(grid, x, y, block_size)
    } else {
        check_collision(grid, x, y, block_size)
    }
}

/// Decides whether the horizontal move from `x` by `vx` is rejected.
pub fn is_blocked_sideways(
    grid: &Grid,
    player: bool,
    x: i64,
    y: i64,
    vx: i64,
    block_size: i64,
) -> (blocked: bool)
    requires
        valid_block_size(block_size as int),
        -COORD_LIMIT <= x <= COORD_LIMIT,
        -COORD_LIMIT <= y <= COORD_LIMIT,
        -COORD_LIMIT <= vx <= COORD_LIMIT,
    ensures
        blocked == blocked_sideways(
            *grid,
            player,
            x as int,
            y as int,
            vx as int,
            block_size as int,
        ),
{
    let next_x = x + vx;
    let width = width_of(block_size);
    let margin = block_size * 7 / 32;
    next_x <= 0 || next_x >= width || probe_at(grid, player, next_x, y + margin, block_size)
}

/// Resolves the vertical move from `y` by `vy`: the new height and vertical velocity.
pub fn settle_at(grid: &Grid, player: bool, x: i64, y: i64, vy: i64, block_size: i64) -> (after: (
    i64,
    i64,
))
    requires
        valid_block_size(block_size as int),
        -COORD_LIMIT <= y <= COORD_LIMIT,
        -2 * COORD_LIMIT <= vy <= 2 * COORD_LIMIT,
    ensures
        (after.0 as int, after.1 as int) == settle(
            *grid,
            player,
            x as int,
            y as int,
            vy as int,
            block_size as int,
        ),
{
    let next_y = y + vy;
    let height = height_of(block_size);
    let margin = block_size * 7 / 32;
    if vy >= 0 && probe_at(grid, player, x, next_y + margin, block_size) {
        (y, 0)
    } else if next_y > height {
        (height, 0)
    } else {
        (next_y, vy)
    }
}

} // verus!
