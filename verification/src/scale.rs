//! Quantities that follow from the block size, and the limits of the integer world.
//!
//! The block size is the number of world units in one tile: a thirty-second of the
//! window's width. Speeds, offsets and thresholds are fixed fractions of it, rounded
//! toward zero, so a level plays the same at every scale that is fine enough.
//!
//! A fraction is zero where the block size is too small for it:
//!
//! | quantity | fraction | non-zero from block size |
//! |---|---|---|
//! | `gravity` | 1/50 | 50 |
//! | `effect_rise` | 1/25 | 25 |
//! | first roster's speeds | 1/15, 1/8, 1/7 | 15, 8, 7 |
//! | `walk_speed` | 1/5 | 5 |
//! | `probe_margin` | 7/32 | 5 |
//! | `shot_speed` | 1/3 | 3 |
//! | `jump_speed` | 5/12 | 3 |
//! | `muzzle_height` | 11/10 | 1 |
//!
//! So from `FINE_BLOCK_SIZE` on every one of them is positive; below it nothing falls.
//! The enemy that the spawn timer adds is the one thing placed and moved by fixed
//! amounts of world units, whatever the block size.
//! A session takes every block size from 1 on, and a host that wants gravity counts in
//! units fine enough: with `UNITS_PER_PIXEL` units to the pixel, a window 800 pixels
//! wide has a block size of 25 000 and a gravity of 500.

use crate::grid::{GRID_HEIGHT, GRID_WIDTH};
use vstd::prelude::*;

verus! {

/// Largest block size a session may use.
pub const MAX_BLOCK_SIZE: i64 = 1_048_576;

/// Smallest block size at which every fraction of the block size is positive.
pub const FINE_BLOCK_SIZE: i64 = 50;

/// World units in one pixel of the window.
pub const UNITS_PER_PIXEL: i64 = 1_000;

/// Largest height a window may have, in world units.
pub const MAX_WINDOW_HEIGHT: i64 = 33_554_432;

/// Positions and velocities up to this magnitude can be advanced by one tick without
/// leaving the range of `i64`.
pub const COORD_LIMIT: i64 = 1_152_921_504_606_846_976;

/// Microseconds between two animation frames.
pub const FRAME_INTERVAL: u64 = 100_000;

/// Microseconds between two enemy spawns.
pub const SPAWN_INTERVAL: u64 = 10_000_000;

/// Score gained for one enemy.
pub const KILL_SCORE: i32 = 10;

/// Where the timer's first enemy appears, measured from the left side and from the top.
pub const SPAWN_OFFSET: i64 = 100_000;

/// How much further right the timer's enemy appears for every enemy already there.
pub const SPAWN_SPACING: i64 = 50_000;

/// Horizontal speed of an enemy that the timer spawned.
pub const SPAWN_SPEED: i64 = 1_000;

/// Highest score from which a tick can still count every enemy of a full roster.
pub const SCORE_LIMIT: i32 = 2_000_000_000;

/// An enemy fires when its draw is below this: five draws in a thousand.
pub const FIRE_THRESHOLD: u32 = 21_474_836;

/// Most enemies a roster may hold when a tick begins.
pub const MAX_ENEMIES: usize = 65_536;

/// The quotient of `a` by a positive `d`, rounded toward zero.
pub open spec fn toward_zero(a: int, d: int) -> int {
    if a >= 0 {
        a / d
    } else {
        -((-a) / d)
    }
}

/// The block size is positive and at most `MAX_BLOCK_SIZE`.
pub open spec fn valid_block_size(bs: int) -> bool {
    0 < bs <= MAX_BLOCK_SIZE
}

/// The block size of a window: a thirty-second of its width.
pub open spec fn block_size_of(window_width: int) -> int {
    window_width / 32
}

/// The window has a width that gives a valid block size, and a height that is positive
/// and at most `MAX_WINDOW_HEIGHT`. Sizes are counted in world units.
pub open spec fn valid_window(width: int, height: int) -> bool {
    valid_block_size(block_size_of(width)) && 0 < height <= MAX_WINDOW_HEIGHT
}

/// A window size in pixels, counted in world units.
pub open spec fn in_units(size: (u32, u32)) -> (int, int) {
    (UNITS_PER_PIXEL * size.0, UNITS_PER_PIXEL * size.1)
}

/// Every window size of the sequence, given in pixels, is valid.
pub open spec fn all_windows_valid(sizes: Seq<(u32, u32)>) -> bool {
    forall|i: int|
        0 <= i < sizes.len() ==> valid_window(in_units(#[trigger] sizes[i]).0, in_units(sizes[i]).1)
}

/// Tells whether a window of this size, in world units, is valid.
pub fn is_valid_window(width: i64, height: i64) -> (ok: bool)
    ensures
        ok == valid_window(width as int, height as int),
{
    if width < 32 {
        assert(width / 32 < 1) by {
            if width < 0 {
                assert(width as int / 32 < 0);
            }
        }
        return false;
    }
    width / 32 <= MAX_BLOCK_SIZE && 0 < height && height <= MAX_WINDOW_HEIGHT
}

/// Width of the world: positions run from 0 at the left to this at the right.
pub open spec fn world_width(bs: int) -> int {
    GRID_WIDTH * bs
}

/// Height of the world: positions run from 0 at the top to this at the bottom.
pub open spec fn world_height(bs: int) -> int {
    GRID_HEIGHT * bs
}

/// Computes the width of the world.
pub fn width_of(block_size: i64) -> (width: i64)
    requires
        valid_block_size(block_size as int),
    ensures
        width == world_width(block_size as int),
{
    assert(GRID_WIDTH == 32);
    32 * block_size
}

/// Computes the height of the world.
pub fn height_of(block_size: i64) -> (height: i64)
    requires
        valid_block_size(block_size as int),
    ensures
        height == world_height(block_size as int),
{
    assert(GRID_HEIGHT == 18);
    18 * block_size
}

/// Downward speed gained in one tick: a fiftieth of the block size, which is zero for
/// block sizes under 50.
pub open spec fn gravity(bs: int) -> int {
    bs / 50
}

/// How far below an entity's position its collision probe lies.
pub open spec fn probe_margin(bs: int) -> int {
    bs * 7 / 32
}

/// Horizontal speed of the walking player.
pub open spec fn walk_speed(bs: int) -> int {
    bs / 5
}

/// Upward speed at the start of a jump.
pub open spec fn jump_speed(bs: int) -> int {
    bs * 5 / 12
}

/// Horizontal speed of a projectile.
pub open spec fn shot_speed(bs: int) -> int {
    bs / 3
}

/// How far above the player's feet a bullet leaves.
pub open spec fn muzzle_height(bs: int) -> int {
    bs * 11 / 10
}

/// Upward speed of a hit effect.
pub open spec fn effect_rise(bs: int) -> int {
    bs / 25
}

/// From `FINE_BLOCK_SIZE` on, every fraction of the block size is positive; gravity is
/// positive exactly from there on.
pub proof fn theorem_fine_scale_has_every_fraction(bs: int)
    requires
        bs >= 1,
    ensures
        gravity(bs) > 0 <==> bs >= FINE_BLOCK_SIZE,
        bs >= FINE_BLOCK_SIZE ==> probe_margin(bs) > 0 && walk_speed(bs) > 0 && jump_speed(bs) > 0
            && shot_speed(bs) > 0 && muzzle_height(bs) > 0 && effect_rise(bs) > 0,
{
}

} // verus!
