//! Probes of the grid at world coordinates, and the tick of a session's objects.

use crate::body::{all_in_range, all_placed_in_range, Body};
use crate::bubble::{all_effects_in_range, all_effects_wf, EffectModel};
use crate::enemy::{enemy_bodies, Enemy};
use crate::enemy_bullet::{enemy_bullet_bodies, EnemyBullet};
use crate::game::Game;
use crate::grid::{is_cell_occupied, Grid, GRID_WIDTH};
use crate::kinematics::{wide_point_occupied, world_point_occupied};
use crate::model::{
    effect_mover, effect_stays, enemy_mover, enemy_stays, fires, shot_from, spawned_enemy,
    volley, GameModel,
};
use crate::player::Player;
use crate::scale::{
    valid_block_size, COORD_LIMIT, FIRE_THRESHOLD, MAX_ENEMIES, SPAWN_INTERVAL, SPAWN_OFFSET,
    SPAWN_SPACING, SPAWN_SPEED,
};
use crate::seqs::{lemma_kept_inherit, lemma_kept_satisfy, lemma_take_one_more};
use crate::ticking::advance_all;
use rand::Rng;
use vstd::prelude::*;

verus! {

/// A coordinate left of or above the world lies on no tile.
pub proof fn lemma_negative_has_no_tile(coord: int, bs: int)
    requires
        coord < 0,
        bs > 0,
    ensures
        coord / bs < 0,
{
    assert(coord / bs < 0) by (nonlinear_arith)
        requires
            coord < 0,
            bs > 0,
    ;
}

/// A coordinate at least `n` blocks from the origin lies on a tile of index `n` or more.
pub proof fn lemma_tile_index_grows(coord: int, bs: int, n: int)
    requires
        coord >= n * bs,
        bs > 0,
    ensures
        coord / bs >= n,
{
    assert(coord / bs >= n) by (nonlinear_arith)
        requires
            coord >= n * bs,
            bs > 0,
    ;
}

/// Tells whether the world point `(x, y)` lies on an occupied tile. Points outside the
/// grid lie on none.
pub fn check_collision(grid: &Grid, x: i64, y: i64, block_size: i64) -> (hit: bool)
    requires
        block_size > 0,
    ensures
        hit == world_point_occupied(*grid, x as int, y as int, block_size as int),
{
    if x < 0 {
        proof {
            lemma_negative_has_no_tile(x as int, block_size as int);
        }
        return false;
    }
    if y < 0 {
        proof {
            lemma_negative_has_no_tile(y as int, block_size as int);
        }
        return false;
    }
    is_cell_occupied(grid, x / block_size, y / block_size)
}

/// Tells whether the player's probe at `(x, y)` is occupied: the point itself or the
/// point one block to its right or left lies on an occupied tile.
pub fn check_collision_player(grid: &Grid, x: i64, y: i64, block_size: i64) -> (hit: bool)
    requires
        valid_block_size(block_size as int),
    ensures
        hit == wide_point_occupied(*grid, x as int, y as int, block_size as int),
{
    if check_collision(grid, x, y, block_size) {
        return true;
    }
    let right = match x.checked_add(block_size) {
        Some(r) => check_collision(grid, r, y, block_size),
        None => {
            proof {
                lemma_tile_index_grows(x + block_size, block_size as int, GRID_WIDTH as int);
            }
            false
        },
    };
    if right {
        return true;
    }
    match x.checked_sub(block_size) {
        Some(l) => check_collision(grid, l, y, block_size),
        None => {
            proof {
                lemma_negative_has_no_tile(x - block_size, block_size as int);
            }
            false
        },
    }
}

/// Runs the spawn timer for `dt` microseconds. Where it runs out, one enemy joins the
/// roster, further right for every enemy already there, and the timer starts again.
pub fn run_spawn_timer(game: &mut Game, dt: u64)
    requires
        old(game)@.enemies.len() <= MAX_ENEMIES,
    ensures
        final(game)@ == old(game)@.with_spawn(dt as nat),
        all_in_range(old(game)@.enemies) ==> all_in_range(final(game)@.enemies),
{
    if dt >= game.enemy_spawn_timer {
        let count = game.enemies.len() as i64;
        let enemy = Enemy::new(
            (SPAWN_OFFSET + SPAWN_SPACING * count, SPAWN_OFFSET),
            (SPAWN_SPEED, 0),
        );
        let ghost roster = game.enemies@;
        game.enemies.push(enemy);
        game.enemy_spawn_timer = SPAWN_INTERVAL;
        proof {
            assert(enemy@ == spawned_enemy(roster.len()));
            assert(enemy_bodies(game.enemies@) =~= enemy_bodies(roster).push(enemy@));
        }
    } else {
        game.enemy_spawn_timer = game.enemy_spawn_timer - dt;
    }
}

/// Moves every enemy by one tick and drops those that have left the world.
pub fn move_enemies(game: &mut Game)
    requires
        valid_block_size(old(game)@.block_size),
        all_in_range(old(game)@.enemies),
    ensures
        final(game)@ == old(game)@.with_enemies_moved(),
{
    game.enemies = advance_all(&game.enemies, &game.grid, game.block_size, 0);
}

/// Moves every bullet by one tick and drops those that have left the world.
pub fn move_bullets(game: &mut Game)
    requires
        valid_block_size(old(game)@.block_size),
        all_in_range(old(game)@.bullets),
    ensures
        final(game)@ == old(game)@.with_bullets_moved(),
{
    game.bullets = advance_all(&game.bullets, &game.grid, game.block_size, 0);
}

/// Moves every enemy projectile by one tick and drops those that have left the world.
pub fn move_enemy_bullets(game: &mut Game)
    requires
        valid_block_size(old(game)@.block_size),
        all_in_range(old(game)@.enemy_bullets),
    ensures
        final(game)@ == old(game)@.with_enemy_bullets_moved(),
{
    game.enemy_bullets = advance_all(&game.enemy_bullets, &game.grid, game.block_size, 0);
}

/// Moves every hit effect by one tick of `dt` microseconds and drops those whose
/// animation has played through.
pub fn move_bubbles(game: &mut Game, dt: u64)
    requires
        valid_block_size(old(game)@.block_size),
        all_effects_wf(old(game)@.bubbles),
        all_effects_in_range(old(game)@.bubbles),
    ensures
        final(game)@ == old(game)@.with_effects_moved(dt as nat),
        all_effects_wf(final(game)@.bubbles),
{
    proof {
        lemma_kept_inherit(
            game@.bubbles,
            effect_mover(dt as nat),
            effect_stays(),
            |e: EffectModel| e.wf() && e.body.in_range(),
            |e: EffectModel| e.wf(),
        );
    }
    game.bubbles = advance_all(&game.bubbles, &game.grid, game.block_size, dt);
}

/// Decides whether an enemy fires on the draw `roll`, and makes the projectile if so.
pub fn maybe_fire(enemy: &Enemy, roll: u32, block_size: i64) -> (shot: Option<EnemyBullet>)
    requires
        valid_block_size(block_size as int),
    ensures
        fires(roll) ==> shot.is_some() && shot.unwrap()@ == shot_from(enemy@, block_size as int),
        !fires(roll) ==> shot.is_none(),
{
    if roll < FIRE_THRESHOLD {
        let speed = block_size / 3;
        let vx = if enemy.velocity.0 > 0 {
            speed
        } else {
            -speed
        };
        Some(EnemyBullet { pos: enemy.pos, velocity: (vx, 0) })
    } else {
        None
    }
}

/// Lets every enemy fire as the draws say: draw `i` decides for enemy `i`, and an
/// enemy without a draw does not fire.
#[verifier::loop_isolation(false)]
pub fn fire_enemy_bullets(game: &mut Game, rolls: &Vec<u32>)
    requires
        valid_block_size(old(game)@.block_size),
    ensures
        final(game)@ == old(game)@.with_volley(rolls@),
{
    let ghost roster = enemy_bodies(game.enemies@);
    let ghost bs = game.block_size as int;
    let mut shots: Vec<EnemyBullet> = Vec::new();
    let mut i: usize = 0;
    proof {
        assert(roster.take(0) =~= Seq::empty());
        assert(enemy_bullet_bodies(shots@) =~= Seq::empty());
    }
    while i < game.enemies.len()
        invariant
            i <= game.enemies@.len(),
            enemy_bullet_bodies(shots@) == volley(roster.take(i as int), rolls@, bs),
        decreases game.enemies@.len() - i,
    {
        let enemy = game.enemies[i];
        proof {
            assert(roster[i as int] == enemy@);
            lemma_take_one_more(roster, i as int);
            assert(roster.take(i + 1).drop_last() =~= roster.take(i as int));
        }
        let roll = if i < rolls.len() {
            rolls[i]
        } else {
            u32::MAX
        };
        match maybe_fire(&enemy, roll, game.block_size) {
            Some(shot) => {
                let ghost shorter = shots@;
                shots.push(shot);
                assert(enemy_bullet_bodies(shots@) =~= enemy_bullet_bodies(shorter).push(shot@));
            },
            None => {},
        }
        i += 1;
    }
    assert(roster.take(i as int) =~= roster);
    let ghost flying = game.enemy_bullets@;
    let ghost fired = shots@;
    game.enemy_bullets.append(&mut shots);
    assert(enemy_bullet_bodies(game.enemy_bullets@) =~= enemy_bullet_bodies(flying)
        + enemy_bullet_bodies(fired));
}

/// Runs the first half of a tick of `dt` microseconds: the player, the spawn timer,
/// the enemies, the bullets and the hit effects, in this order.
pub fn advance_objects(game: &mut Game, dt: u64)
    requires
        old(game)@.wf(),
        old(game)@.within_limits(),
    ensures
        final(game)@ == old(game)@.moved(dt as nat),
        final(game)@.wf(),
{
    Player::update(game, dt);
    run_spawn_timer(game, dt);
    move_enemies(game);
    move_bullets(game);
    move_bubbles(game, dt);
}

/// The projectiles of enemies that stand within the coordinate limit are within it
/// too, and there is at most one for each enemy.
pub proof fn lemma_volley_in_range(enemies: Seq<Body>, rolls: Seq<u32>, bs: int)
    requires
        valid_block_size(bs),
        all_placed_in_range(enemies),
    ensures
        all_in_range(volley(enemies, rolls, bs)),
        volley(enemies, rolls, bs).len() <= enemies.len(),
    decreases enemies.len(),
{
    if enemies.len() > 0 {
        let shorter = enemies.drop_last();
        assert forall|i: int| 0 <= i < shorter.len() implies -COORD_LIMIT <= (
        #[trigger] shorter[i]).x <= COORD_LIMIT && -COORD_LIMIT <= shorter[i].y <= COORD_LIMIT by {
            assert(shorter[i] == enemies[i]);
        }
        lemma_volley_in_range(shorter, rolls, bs);
        assert(-COORD_LIMIT <= enemies[enemies.len() - 1].x <= COORD_LIMIT);
    }
}

/// After the first half of a tick every enemy stands inside the world or its slack, so
/// within the coordinate limit; the enemies' projectiles have not changed; and the
/// roster has grown by one enemy at most.
pub proof fn lemma_moved_keeps_limits(m: GameModel, dt: nat)
    requires
        m.wf(),
        m.within_limits(),
    ensures
        all_placed_in_range(m.moved(dt).enemies),
        m.moved(dt).enemy_bullets == m.enemy_bullets,
        m.moved(dt).enemies.len() <= m.enemies.len() + 1,
        m.moved(dt).score == m.score,
        m.moved(dt).block_size == m.block_size,
{
    let spawned = m.with_player_moved(dt).with_spawn(dt);
    lemma_kept_satisfy(
        spawned.enemies,
        enemy_mover(spawned.grid, spawned.block_size),
        enemy_stays(spawned.block_size),
    );
    let moved = m.moved(dt).enemies;
    assert forall|i: int| 0 <= i < moved.len() implies -COORD_LIMIT <= (#[trigger] moved[i]).x
        <= COORD_LIMIT && -COORD_LIMIT <= moved[i].y <= COORD_LIMIT by {
        assert(enemy_stays(m.block_size)(moved[i]));
    }
}

/// Runs the second half of a tick: the enemies fire as the draws say, then every
/// enemy projectile moves, those just fired among them.
pub fn finish_objects(game: &mut Game, rolls: &Vec<u32>)
    requires
        valid_block_size(old(game)@.block_size),
        all_placed_in_range(old(game)@.enemies),
        all_in_range(old(game)@.enemy_bullets),
    ensures
        final(game)@ == old(game)@.with_volley(rolls@).with_enemy_bullets_moved(),
{
    proof {
        lemma_volley_in_range(game@.enemies, rolls@, game@.block_size);
    }
    fire_enemy_bullets(game, rolls);
    move_enemy_bullets(game);
}

/// Runs one tick of `delta_time` microseconds for every object of the session, with
/// the enemies firing as the draws `rolls` say.
pub fn update_objects_with(game: &mut Game, delta_time: u64, rolls: &Vec<u32>)
    requires
        old(game)@.wf(),
        old(game)@.within_limits(),
    ensures
        final(game)@ == old(game)@.objects_updated(delta_time as nat, rolls@),
        final(game)@.wf(),
{
    proof {
        lemma_moved_keeps_limits(game@, delta_time as nat);
    }
    advance_objects(game, delta_time);
    finish_objects(game, rolls);
}

/// Draws a number with the thread's generator of the `rand` crate (`rand::thread_rng`
/// and `Rng::gen`). Nothing is claimed of the number: every `u32` may come.
#[verifier::external_body]
fn random_u32() -> (roll: u32) {
    rand::thread_rng().gen::<u32>()
}

/// Draws `count` numbers.
pub fn draw_rolls(count: usize) -> (rolls: Vec<u32>)
    ensures
        rolls@.len() == count,
{
    let mut rolls: Vec<u32> = Vec::new();
    while rolls.len() < count
        invariant
            rolls@.len() <= count,
        decreases count - rolls@.len(),
    {
        rolls.push(random_u32());
    }
    rolls
}

/// Runs one tick of `delta_time` microseconds for every object of the session: the
/// first half, then one draw for each enemy, the enemies' fire as the draws say, and
/// the flight of the enemies' projectiles. Whatever is drawn, the session ends as
/// `update_objects_with` would leave it for those draws.
pub fn update_objects(game: &mut Game, delta_time: u64)
    requires
        old(game)@.wf(),
        old(game)@.within_limits(),
    ensures
        exists|rolls: Seq<u32>|
            rolls.len() == old(game)@.moved(delta_time as nat).enemies.len() && final(game)@
                == #[trigger] old(game)@.objects_updated(delta_time as nat, rolls),
        final(game)@.wf(),
{
    let ghost start = game@;
    proof {
        lemma_moved_keeps_limits(start, delta_time as nat);
    }
    advance_objects(game, delta_time);
    let rolls = draw_rolls(game.enemies.len());
    finish_objects(game, &rolls);
    assert(game@ == start.objects_updated(delta_time as nat, rolls@));
}

} // verus!
