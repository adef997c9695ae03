//! What holds of every session, proved from the model.

use crate::animator::AnimatorModel;
use crate::body::{distance, touching, Body};
use crate::bubble::EffectModel;
use crate::collisions::{
    first_touch, lemma_first_touch, lemma_pair_off_counts, pair_off, STRIKE_HEIGHT,
};
use crate::enemy::initial_roster;
use crate::game::GameState;
use crate::grid::Grid;
use crate::input::InputEvent;
use crate::kinematics::{
    blocked_sideways, body_step, enemy_step, falls_out, far_outside_world, glide, lands,
    outside_world, world_point_occupied,
};
use crate::model::{
    enemy_mover, enemy_stays, glider, hit_effect, player_spawn, projectile_stays,
    spawned_enemy, GameModel,
};
use crate::scale::{
    block_size_of, gravity, probe_margin, valid_block_size, world_height, world_width,
    KILL_SCORE, SPAWN_OFFSET, SPAWN_SPACING,
};
use crate::seqs::{
    is_subsequence, lemma_advance_nothing, lemma_advance_one_more, lemma_kept_satisfy,
    lemma_subsequence_after_removal, lemma_subsequence_is_whole,
    lemma_subsequence_of_subsequence, lemma_subsequence_with_first,
};
use vstd::prelude::*;

verus! {

/// One thing that happens to a session: a tick with its draws, an event, or a reset.
pub enum Step {
    Tick { dt: nat, rolls: Seq<u32> },
    Input { event: InputEvent },
    Reset,
}

/// The session after one step.
pub open spec fn after(m: GameModel, step: Step) -> GameModel {
    match step {
        Step::Tick { dt, rolls } => m.ticked(dt, rolls),
        Step::Input { event } => m.handled(event),
        Step::Reset => m.restarted(),
    }
}

/// The session after a sequence of steps.
pub open spec fn run(m: GameModel, steps: Seq<Step>) -> GameModel
    decreases steps.len(),
{
    if steps.len() == 0 {
        m
    } else {
        after(run(m, steps.drop_last()), steps.last())
    }
}

/// The step takes over the window size that the menu stands on.
pub open spec fn resizes(m: GameModel, step: Step) -> bool {
    m.state == GameState::Menu && step == (Step::Input { event: InputEvent::ResizeChosen })
}

/// No step changes the grid, and none but the choice of a window size in the menu
/// changes the window or the block size.
pub proof fn theorem_step_keeps_grid(m: GameModel, step: Step)
    ensures
        after(m, step).grid == m.grid,
        !resizes(m, step) ==> after(m, step).block_size == m.block_size && after(
            m,
            step,
        ).window_width == m.window_width && after(m, step).window_height == m.window_height,
{
}

/// The grid of a session never changes: whatever ticks, events and resets follow one
/// another, the grid at the end is the grid at the start.
pub proof fn theorem_grid_is_fixed(m: GameModel, steps: Seq<Step>)
    ensures
        run(m, steps).grid == m.grid,
    decreases steps.len(),
{
    if steps.len() > 0 {
        theorem_grid_is_fixed(m, steps.drop_last());
        theorem_step_keeps_grid(run(m, steps.drop_last()), steps.last());
    }
}

/// The body after `n` ticks.
pub open spec fn after_ticks(grid: Grid, bs: int, player: bool, b: Body, n: nat) -> Body
    decreases n,
{
    if n == 0 {
        b
    } else {
        body_step(grid, bs, player, after_ticks(grid, bs, player, b, (n - 1) as nat))
    }
}

/// Nothing obstructs the body's next vertical move: it neither lands nor reaches the
/// bottom of the world.
pub open spec fn airborne(grid: Grid, bs: int, player: bool, b: Body) -> bool {
    let x = body_step(grid, bs, player, b).x;
    !lands(grid, player, x, b.y, b.vy + gravity(bs), bs) && !falls_out(b.y, b.vy + gravity(bs), bs)
}

/// A body that nothing obstructs for `n` ticks gains exactly `n` times the gravity in
/// vertical velocity; from rest it falls with `n * g`.
pub proof fn theorem_free_fall(grid: Grid, bs: int, player: bool, b: Body, n: nat)
    requires
        forall|k: nat| k < n ==> airborne(grid, bs, player, #[trigger] after_ticks(grid, bs, player, b, k)),
    ensures
        after_ticks(grid, bs, player, b, n).vy == b.vy + n * gravity(bs),
    decreases n,
{
    if n > 0 {
        let m = (n - 1) as nat;
        assert forall|k: nat| k < m implies airborne(
            grid,
            bs,
            player,
            #[trigger] after_ticks(grid, bs, player, b, k),
        ) by {}
        theorem_free_fall(grid, bs, player, b, m);
        assert(airborne(grid, bs, player, after_ticks(grid, bs, player, b, m)));
        assert(n * gravity(bs) == m * gravity(bs) + gravity(bs)) by (nonlinear_arith)
            requires
                n == m + 1,
        ;
    } else {
        assert(n * gravity(bs) == 0) by (nonlinear_arith)
            requires
                n == 0,
        ;
    }
}

/// In a tick that nothing obstructs, the height grows by the velocity that the body
/// has after gravity was added.
pub proof fn theorem_fall_is_semi_implicit(grid: Grid, bs: int, player: bool, b: Body)
    requires
        airborne(grid, bs, player, b),
    ensures
        body_step(grid, bs, player, b).vy == b.vy + gravity(bs),
        body_step(grid, bs, player, b).y == b.y + b.vy + gravity(bs),
{
}

/// A body that moves down or rests and whose probe at the height it would move to is
/// occupied ends the tick with no vertical velocity, at the height it had.
pub proof fn theorem_landing_stops(grid: Grid, bs: int, player: bool, b: Body)
    requires
        lands(grid, player, body_step(grid, bs, player, b).x, b.y, b.vy + gravity(bs), bs),
    ensures
        body_step(grid, bs, player, b).vy == 0,
        body_step(grid, bs, player, b).y == b.y,
{
}

/// A point that lies on an occupied tile lies above the bottom of the world.
pub proof fn lemma_occupied_is_inside(grid: Grid, x: int, y: int, bs: int)
    requires
        bs > 0,
        world_point_occupied(grid, x, y, bs),
    ensures
        0 <= y < world_height(bs),
{
    let row = y / bs;
    assert(0 <= row < 18);
    assert(0 <= y < 18 * bs) by (nonlinear_arith)
        requires
            0 <= y / bs < 18,
            bs > 0,
    ;
}

/// Landing and reaching the bottom of the world never fall together: a body that
/// lands has its probe on a tile, and every tile lies above the bottom. So it makes no
/// difference which of the two is looked for first.
pub proof fn theorem_landing_is_above_the_bottom(
    grid: Grid,
    bs: int,
    player: bool,
    x: int,
    y: int,
    vy: int,
)
    requires
        bs > 0,
        lands(grid, player, x, y, vy, bs),
    ensures
        !falls_out(y, vy, bs),
{
    let at = y + vy + probe_margin(bs);
    if world_point_occupied(grid, x, at, bs) {
        lemma_occupied_is_inside(grid, x, at, bs);
    } else if world_point_occupied(grid, x + bs, at, bs) {
        lemma_occupied_is_inside(grid, x + bs, at, bs);
    } else {
        lemma_occupied_is_inside(grid, x - bs, at, bs);
    }
}

/// An enemy turns round exactly when its horizontal move is rejected: when it would
/// reach a side of the world or an occupied tile. Its speed is kept either way, and
/// where the move is rejected it stays where it is.
pub proof fn theorem_enemy_turns_at_walls(grid: Grid, bs: int, e: Body)
    ensures
        blocked_sideways(grid, false, e.x, e.y, e.vx, bs) ==> enemy_step(grid, bs, e).vx == -e.vx
            && enemy_step(grid, bs, e).x == e.x,
        !blocked_sideways(grid, false, e.x, e.y, e.vx, bs) ==> enemy_step(grid, bs, e).vx == e.vx
            && enemy_step(grid, bs, e).x == e.x + e.vx,
        e.vx != 0 ==> (enemy_step(grid, bs, e).vx == -e.vx <==> blocked_sideways(
            grid,
            false,
            e.x,
            e.y,
            e.vx,
            bs,
        )),
        distance(enemy_step(grid, bs, e).vx, 0) == distance(e.vx, 0),
{
}

/// Every property that holds of all bullets holds of those that pairing off leaves,
/// and likewise of the targets.
pub proof fn lemma_pair_off_keeps(
    bullets: Seq<Body>,
    targets: Seq<Body>,
    bs: int,
    of_bullets: spec_fn(Body) -> bool,
    of_targets: spec_fn(Body) -> bool,
)
    requires
        forall|i: int| 0 <= i < bullets.len() ==> of_bullets(#[trigger] bullets[i]),
        forall|i: int| 0 <= i < targets.len() ==> of_targets(#[trigger] targets[i]),
    ensures
        forall|i: int|
            0 <= i < pair_off(bullets, targets, bs).bullets.len() ==> of_bullets(
                #[trigger] pair_off(bullets, targets, bs).bullets[i],
            ),
        forall|i: int|
            0 <= i < pair_off(bullets, targets, bs).targets.len() ==> of_targets(
                #[trigger] pair_off(bullets, targets, bs).targets[i],
            ),
    decreases bullets.len(),
{
    let all = pair_off(bullets, targets, bs);
    if bullets.len() > 0 {
        let rest = bullets.drop_first();
        assert forall|i: int| 0 <= i < rest.len() implies of_bullets(#[trigger] rest[i]) by {
            assert(rest[i] == bullets[i + 1]);
        }
        lemma_first_touch(bullets.first(), targets, bs, 0);
        match first_touch(bullets.first(), targets, bs, 0) {
            Some(k) => {
                let fewer = targets.remove(k);
                assert forall|i: int| 0 <= i < fewer.len() implies of_targets(
                    #[trigger] fewer[i],
                ) by {
                    if i < k {
                        assert(fewer[i] == targets[i]);
                    } else {
                        assert(fewer[i] == targets[i + 1]);
                    }
                }
                lemma_pair_off_keeps(rest, fewer, bs, of_bullets, of_targets);
                let out = pair_off(rest, fewer, bs);
                assert(all.bullets == out.bullets);
                assert(all.targets == out.targets);
            },
            None => {
                lemma_pair_off_keeps(rest, targets, bs, of_bullets, of_targets);
                let out = pair_off(rest, targets, bs);
                assert(all.targets == out.targets);
                assert(all.bullets == seq![bullets.first()] + out.bullets);
                assert forall|i: int| 0 <= i < all.bullets.len() implies of_bullets(
                    #[trigger] all.bullets[i],
                ) by {
                    if i > 0 {
                        assert(all.bullets[i] == out.bullets[i - 1]);
                    } else {
                        assert(all.bullets[0] == bullets[0]);
                    }
                }
            },
        }
    } else {
        assert(all.targets == targets);
        assert(all.bullets.len() == 0);
    }
}

/// After a tick in play no bullet and no enemy projectile lies outside the world, and
/// no enemy lies beyond its slack: one that has moved out is gone by the end of the
/// tick in which it did.
pub proof fn theorem_nothing_stays_outside(m: GameModel, dt: nat, rolls: Seq<u32>)
    requires
        m.state == GameState::Play,
    ensures
        forall|i: int|
            0 <= i < m.ticked(dt, rolls).enemies.len() ==> !far_outside_world(
                (#[trigger] m.ticked(dt, rolls).enemies[i]).x,
                m.ticked(dt, rolls).enemies[i].y,
                m.block_size,
            ),
        forall|i: int|
            0 <= i < m.ticked(dt, rolls).bullets.len() ==> !outside_world(
                (#[trigger] m.ticked(dt, rolls).bullets[i]).x,
                m.ticked(dt, rolls).bullets[i].y,
                m.block_size,
            ),
        forall|i: int|
            0 <= i < m.ticked(dt, rolls).enemy_bullets.len() ==> !outside_world(
                (#[trigger] m.ticked(dt, rolls).enemy_bullets[i]).x,
                m.ticked(dt, rolls).enemy_bullets[i].y,
                m.block_size,
            ),
{
    let stays = projectile_stays(m.block_size);
    let near_enough = enemy_stays(m.block_size);
    let spawned = m.with_player_moved(dt).with_spawn(dt);
    lemma_kept_satisfy(spawned.enemies, enemy_mover(m.grid, m.block_size), near_enough);
    let before = spawned.with_enemies_moved();
    lemma_kept_satisfy(before.bullets, glider(), stays);
    let fired = m.moved(dt).with_volley(rolls);
    lemma_kept_satisfy(fired.enemy_bullets, glider(), stays);
    let u = m.objects_updated(dt, rolls);
    if !u.player_struck() {
        lemma_pair_off_keeps(u.bullets, u.enemies, u.block_size, stays, near_enough);
        let hits = pair_off(u.bullets, u.enemies, u.block_size);
        lemma_pair_off_keeps(hits.bullets, u.enemy_bullets, u.block_size, stays, stays);
    }
    let t = m.ticked(dt, rolls);
    assert forall|i: int| 0 <= i < t.enemies.len() implies !far_outside_world(
        (#[trigger] t.enemies[i]).x,
        t.enemies[i].y,
        m.block_size,
    ) by {
        assert(near_enough(t.enemies[i]));
    }
}

/// A roster never outgrows a bound at which the timer's enemy would appear beyond the
/// slack of the world: that enemy is gone in the tick that spawns it. For a window of
/// 800 000 units the roster stays at sixteen or fewer.
pub proof fn theorem_roster_is_bounded(m: GameModel, dt: nat, rolls: Seq<u32>, bound: nat)
    requires
        valid_block_size(m.block_size),
        SPAWN_OFFSET + SPAWN_SPACING * bound > world_width(m.block_size) + 2 * m.block_size,
        m.enemies.len() <= bound,
    ensures
        m.moved(dt).enemies.len() <= bound,
        m.ticked(dt, rolls).enemies.len() <= bound,
{
    let bs = m.block_size;
    let step = enemy_mover(m.grid, bs);
    let keep = enemy_stays(bs);
    let spawned = m.with_player_moved(dt).with_spawn(dt);
    lemma_kept_satisfy(m.enemies, step, keep);
    lemma_kept_satisfy(spawned.enemies, step, keep);
    if dt >= m.enemy_spawn_timer && m.enemies.len() >= bound {
        let late = spawned_enemy(m.enemies.len());
        lemma_advance_one_more(m.enemies, late, step, keep);
        assert(step(late).x >= late.x);
        assert(!keep(step(late)));
    }
    let u = m.objects_updated(dt, rolls);
    lemma_pair_off_counts(u.bullets, u.enemies, bs);
}

/// A single bullet that moves out of the world is gone after the move; one that stays
/// inside has moved by its velocity.
pub proof fn theorem_bullet_leaves_with_the_world(m: GameModel, b: Body)
    requires
        m.bullets == seq![b],
    ensures
        m.with_bullets_moved().bullets == if outside_world(
            glide(b).x,
            glide(b).y,
            m.block_size,
        ) {
            Seq::<Body>::empty()
        } else {
            seq![glide(b)]
        },
{
    let stays = projectile_stays(m.block_size);
    lemma_advance_nothing(glider(), stays);
    lemma_advance_one_more(Seq::<Body>::empty(), b, glider(), stays);
    assert(Seq::<Body>::empty().push(b) =~= seq![b]);
    assert(Seq::<Body>::empty().push(glide(b)) =~= seq![glide(b)]);
}

/// A bullet touches a target, at the height at which bullets strike.
pub open spec fn strikes(bullet: Body, target: Body, bs: int) -> bool {
    touching(bullet, target, bs, STRIKE_HEIGHT as int)
}

/// The bullet touches none of the targets.
pub open spec fn strikes_none(bullet: Body, targets: Seq<Body>, bs: int) -> bool {
    forall|j: int| 0 <= j < targets.len() ==> !strikes(bullet, #[trigger] targets[j], bs)
}

/// Some of the bullets touches the target.
pub open spec fn struck_by_some(bullets: Seq<Body>, target: Body, bs: int) -> bool {
    exists|i: int| 0 <= i < bullets.len() && strikes(#[trigger] bullets[i], target, bs)
}

/// Pairing off only takes away. The bullets that stay are bullets that were there, in
/// their order, and so are the targets. No bullet that stays touches a target that
/// stays. Every target that was struck was touched by one of the bullets.
pub proof fn theorem_pairing_only_takes_what_touches(bullets: Seq<Body>, targets: Seq<Body>, bs: int)
    ensures
        is_subsequence(pair_off(bullets, targets, bs).bullets, bullets),
        is_subsequence(pair_off(bullets, targets, bs).targets, targets),
        forall|i: int|
            0 <= i < pair_off(bullets, targets, bs).bullets.len() ==> strikes_none(
                #[trigger] pair_off(bullets, targets, bs).bullets[i],
                pair_off(bullets, targets, bs).targets,
                bs,
            ),
        forall|s: int|
            0 <= s < pair_off(bullets, targets, bs).struck.len() ==> struck_by_some(
                bullets,
                #[trigger] pair_off(bullets, targets, bs).struck[s],
                bs,
            ),
    decreases bullets.len(),
{
    let all = pair_off(bullets, targets, bs);
    if bullets.len() > 0 {
        let first = bullets.first();
        let rest = bullets.drop_first();
        assert(bullets =~= seq![first] + rest);
        lemma_first_touch(first, targets, bs, 0);
        match first_touch(first, targets, bs, 0) {
            Some(k) => {
                let fewer = targets.remove(k);
                let out = pair_off(rest, fewer, bs);
                theorem_pairing_only_takes_what_touches(rest, fewer, bs);
                lemma_subsequence_with_first(first, out.bullets, rest);
                lemma_subsequence_after_removal(out.targets, targets, k);
                assert(all.bullets == out.bullets);
                assert(all.targets == out.targets);
                assert forall|s: int| 0 <= s < all.struck.len() implies struck_by_some(
                    bullets,
                    #[trigger] all.struck[s],
                    bs,
                ) by {
                    if s == 0 {
                        assert(all.struck[0] == targets[k]);
                        assert(strikes(bullets[0], all.struck[0], bs));
                    } else {
                        assert(all.struck[s] == out.struck[s - 1]);
                        assert(struck_by_some(rest, out.struck[s - 1], bs));
                        let i = choose|i: int|
                            0 <= i < rest.len() && strikes(#[trigger] rest[i], out.struck[s - 1], bs);
                        assert(strikes(bullets[i + 1], all.struck[s], bs));
                    }
                }
            },
            None => {
                let out = pair_off(rest, targets, bs);
                theorem_pairing_only_takes_what_touches(rest, targets, bs);
                lemma_subsequence_with_first(first, out.bullets, rest);
                let untouched = |t: Body| !strikes(first, t, bs);
                let anything = |b: Body| true;
                lemma_pair_off_keeps(rest, targets, bs, anything, untouched);
                assert(all.targets == out.targets);
                assert(all.bullets == seq![first] + out.bullets);
                assert forall|i: int| 0 <= i < all.bullets.len() implies strikes_none(
                    #[trigger] all.bullets[i],
                    all.targets,
                    bs,
                ) by {
                    if i == 0 {
                        assert(all.bullets[0] == first);
                        assert forall|j: int| 0 <= j < all.targets.len() implies !strikes(
                            first,
                            #[trigger] all.targets[j],
                            bs,
                        ) by {
                            assert(untouched(out.targets[j]));
                        }
                    } else {
                        assert(all.bullets[i] == out.bullets[i - 1]);
                    }
                }
                assert forall|s: int| 0 <= s < all.struck.len() implies struck_by_some(
                    bullets,
                    #[trigger] all.struck[s],
                    bs,
                ) by {
                    assert(struck_by_some(rest, out.struck[s], bs));
                    let i = choose|i: int|
                        0 <= i < rest.len() && strikes(#[trigger] rest[i], out.struck[s], bs);
                    assert(strikes(bullets[i + 1], all.struck[s], bs));
                }
            },
        }
    } else {
        assert(all.targets == targets);
        lemma_subsequence_is_whole(targets);
    }
}

/// Where the player is not struck, resolving the collisions only takes away: the
/// enemies, the bullets and the enemies' projectiles that stay were there before, in
/// their order and unchanged. No bullet that stays touches an enemy or a projectile
/// that stays, and every enemy that is gone was touched by one of the bullets.
pub proof fn theorem_collisions_only_take_what_touches(m: GameModel)
    requires
        !m.player_struck(),
    ensures
        is_subsequence(m.collided().enemies, m.enemies),
        is_subsequence(m.collided().bullets, m.bullets),
        is_subsequence(m.collided().enemy_bullets, m.enemy_bullets),
        forall|i: int|
            0 <= i < m.collided().bullets.len() ==> strikes_none(
                #[trigger] m.collided().bullets[i],
                m.collided().enemies,
                m.block_size,
            ) && strikes_none(m.collided().bullets[i], m.collided().enemy_bullets, m.block_size),
        forall|s: int|
            0 <= s < pair_off(m.bullets, m.enemies, m.block_size).struck.len() ==> struck_by_some(
                m.bullets,
                #[trigger] pair_off(m.bullets, m.enemies, m.block_size).struck[s],
                m.block_size,
            ),
        m.collided().enemies.len() + pair_off(m.bullets, m.enemies, m.block_size).struck.len()
            == m.enemies.len(),
{
    let bs = m.block_size;
    let hits = pair_off(m.bullets, m.enemies, bs);
    let cancelled = pair_off(hits.bullets, m.enemy_bullets, bs);
    theorem_pairing_only_takes_what_touches(m.bullets, m.enemies, bs);
    theorem_pairing_only_takes_what_touches(hits.bullets, m.enemy_bullets, bs);
    lemma_subsequence_of_subsequence(cancelled.bullets, hits.bullets, m.bullets);
    lemma_pair_off_counts(m.bullets, m.enemies, bs);
    let spares_enemies = |b: Body| strikes_none(b, hits.targets, bs);
    let anything = |b: Body| true;
    lemma_pair_off_keeps(hits.bullets, m.enemy_bullets, bs, spares_enemies, anything);
    assert forall|i: int| 0 <= i < m.collided().bullets.len() implies strikes_none(
        #[trigger] m.collided().bullets[i],
        m.collided().enemies,
        bs,
    ) && strikes_none(m.collided().bullets[i], m.collided().enemy_bullets, bs) by {
        assert(spares_enemies(cancelled.bullets[i]));
    }
}

/// Where the player is not struck, resolving the collisions takes one bullet for every
/// enemy it takes, counts `KILL_SCORE` for each and leaves one hit effect for each.
pub proof fn theorem_kills_are_counted(m: GameModel)
    requires
        !m.player_struck(),
    ensures
        m.collided().enemies.len() <= m.enemies.len(),
        m.collided().score == m.score + KILL_SCORE * (m.enemies.len() - m.collided().enemies.len()),
        m.collided().bubbles.len() == m.bubbles.len() + (m.enemies.len()
            - m.collided().enemies.len()),
        m.collided().bullets.len() + (m.enemies.len() - m.collided().enemies.len())
            <= m.bullets.len(),
        m.collided().state == m.state,
{
    lemma_pair_off_counts(m.bullets, m.enemies, m.block_size);
    let hits = pair_off(m.bullets, m.enemies, m.block_size);
    lemma_pair_off_counts(hits.bullets, m.enemy_bullets, m.block_size);
}

/// The score never falls: not in a tick, and not by an event in play.
pub proof fn theorem_score_never_falls(m: GameModel, dt: nat, rolls: Seq<u32>, event: InputEvent)
    ensures
        m.ticked(dt, rolls).score >= m.score,
        m.collided().score >= m.score,
        m.state == GameState::Play ==> m.handled(event).score == m.score,
{
    let u = m.objects_updated(dt, rolls);
    assert(KILL_SCORE * pair_off(m.bullets, m.enemies, m.block_size).struck.len() >= 0);
    assert(KILL_SCORE * pair_off(u.bullets, u.enemies, u.block_size).struck.len() >= 0);
}

/// A bullet that touches an enemy, alone in the air and with the player unharmed,
/// takes exactly the first enemy it touches and is gone itself; the score grows by
/// exactly `KILL_SCORE`, and one hit effect appears where the enemy was.
pub proof fn theorem_bullet_takes_one_enemy(m: GameModel, b: Body, k: int)
    requires
        !m.player_struck(),
        m.bullets == seq![b],
        first_touch(b, m.enemies, m.block_size, 0) == Some(k),
    ensures
        0 <= k < m.enemies.len(),
        m.collided().enemies == m.enemies.remove(k),
        m.collided().enemies.len() == m.enemies.len() - 1,
        m.collided().bullets == Seq::<Body>::empty(),
        m.collided().score == m.score + KILL_SCORE,
        m.collided().bubbles == m.bubbles.push(hit_effect(m.block_size)(m.enemies[k])),
{
    let bs = m.block_size;
    lemma_first_touch(b, m.enemies, bs, 0);
    let rest = pair_off(m.bullets.drop_first(), m.enemies.remove(k), bs);
    assert(m.bullets.drop_first() =~= Seq::<Body>::empty());
    let hits = pair_off(m.bullets, m.enemies, bs);
    assert(hits.struck =~= seq![m.enemies[k]]);
    assert(hits.bullets =~= Seq::<Body>::empty());
    assert(pair_off(hits.bullets, m.enemy_bullets, bs).bullets =~= Seq::<Body>::empty());
    assert(hits.struck.map_values(hit_effect(bs)) =~= seq![hit_effect(bs)(m.enemies[k])]);
    assert(m.bubbles + seq![hit_effect(bs)(m.enemies[k])] =~= m.bubbles.push(
        hit_effect(bs)(m.enemies[k]),
    ));
}

/// A tick in play in which an enemy or an enemy's projectile reaches the player ends
/// with the session over, and with nothing else changed by the collision.
pub proof fn theorem_struck_player_ends_session(m: GameModel, dt: nat, rolls: Seq<u32>)
    requires
        m.state == GameState::Play,
        m.objects_updated(dt, rolls).player_struck(),
    ensures
        m.ticked(dt, rolls).state == GameState::GameOver,
        m.ticked(dt, rolls) == (GameModel {
            state: GameState::GameOver,
            ..m.objects_updated(dt, rolls)
        }),
{
}

/// The step neither resets the session nor asks for a new attempt.
pub open spec fn continues(step: Step) -> bool {
    step != Step::Reset && step != (Step::Input { event: InputEvent::StartPressed })
}

/// A session that is over stays as it is until it is reset: no tick changes it and no
/// event but start is heard. Start sets it up anew and leads to the menu.
pub proof fn theorem_over_is_final(m: GameModel, steps: Seq<Step>)
    requires
        m.state == GameState::GameOver,
        forall|i: int| 0 <= i < steps.len() ==> continues(#[trigger] steps[i]),
    ensures
        run(m, steps) == m,
        m.handled(InputEvent::StartPressed) == (GameModel {
            state: GameState::Menu,
            ..m.restarted()
        }),
    decreases steps.len(),
{
    if steps.len() > 0 {
        let earlier = steps.drop_last();
        assert forall|i: int| 0 <= i < earlier.len() implies continues(#[trigger] earlier[i]) by {
            assert(earlier[i] == steps[i]);
        }
        theorem_over_is_final(m, earlier);
        assert(continues(steps[steps.len() - 1]));
    }
}

/// A new attempt always starts alike: no score, the player at rest in the middle of
/// the window, the first roster as the window's size places it, and nothing in flight.
/// The constructor leaves a session the same way.
pub proof fn theorem_restart_is_clean(m: GameModel)
    ensures
        m.restarted().score == 0,
        m.restarted().player.body == (Body {
            x: player_spawn(m.window_width, m.window_height).0,
            y: player_spawn(m.window_width, m.window_height).1,
            vx: 0,
            vy: 0,
        }),
        m.restarted().enemies == initial_roster(m.window_width, m.window_height, m.block_size),
        GameModel::fresh(m.grid, m.window_width, m.window_height).player == m.restarted().player,
        m.block_size == block_size_of(m.window_width) ==> GameModel::fresh(
            m.grid,
            m.window_width,
            m.window_height,
        ).enemies == m.restarted().enemies,
        m.restarted().bullets == Seq::<Body>::empty(),
        m.restarted().enemy_bullets == Seq::<Body>::empty(),
        m.restarted().bubbles == Seq::<EffectModel>::empty(),
        m.restarted().grid == m.grid,
        m.restarted().restarted() == m.restarted(),
{
}

/// A frame that advances is the next one in the cycle, counted modulo the number of
/// frames, and the timer starts again.
pub proof fn theorem_frame_cycles(a: AnimatorModel, dt: nat)
    requires
        a.wf(),
        a.advances(dt, true),
    ensures
        a.step(dt, true).frame == (a.frame + 1) as int % a.frame_count as int,
        a.step(dt, true).timer == 0,
{
    if a.frame + 1 == a.frame_count {
        vstd::arithmetic::div_mod::lemma_mod_self_0(a.frame_count as int);
    } else {
        vstd::arithmetic::div_mod::lemma_small_mod(a.frame + 1, a.frame_count);
    }
}

} // verus!
