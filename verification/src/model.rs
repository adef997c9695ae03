//! The mathematical model of a session and of one tick of its objects.

use crate::body::{all_in_range, Body};
use crate::bubble::{all_effects_in_range, all_effects_wf, EffectModel};
use crate::collisions::{any_reaches, pair_off};
use crate::enemy::initial_roster;
use crate::game::GameState;
use crate::grid::Grid;
use crate::input::{Action, InputEvent};
use crate::kinematics::{enemy_step, far_outside_world, glide, outside_world};
use crate::player::PlayerModel;
use crate::scale::{
    all_windows_valid, block_size_of, effect_rise, in_units, jump_speed, muzzle_height,
    shot_speed, toward_zero, valid_window, walk_speed, FIRE_THRESHOLD, KILL_SCORE,
    MAX_ENEMIES, SCORE_LIMIT, SPAWN_INTERVAL, SPAWN_OFFSET, SPAWN_SPACING, SPAWN_SPEED,
};
use crate::seqs::advance_and_keep;
use vstd::prelude::*;

verus! {

/// Number of entries in the menu.
pub const MENU_OPTIONS: usize = 3;

/// The mathematical model of a session.
pub struct GameModel {
    pub state: GameState,
    pub score: int,
    pub player: PlayerModel,
    pub enemies: Seq<Body>,
    pub bullets: Seq<Body>,
    pub bubbles: Seq<EffectModel>,
    pub enemy_bullets: Seq<Body>,
    pub grid: Grid,
    pub enemy_spawn_timer: nat,
    pub selected_menu_option: nat,
    pub selected_window_size: nat,
    pub window_sizes: Seq<(u32, u32)>,
    pub window_width: int,
    pub window_height: int,
    pub block_size: int,
}

/// The enemy that the timer spawns into a roster of `count` enemies. Its place depends
/// on the count alone: each one stands `SPAWN_SPACING` further right than the one
/// before. Its velocity is always the same.
pub open spec fn spawned_enemy(count: nat) -> Body {
    Body { x: SPAWN_OFFSET + SPAWN_SPACING * count, y: SPAWN_OFFSET as int, vx: SPAWN_SPEED as int, vy: 0 }
}

/// A draw makes an enemy fire.
pub open spec fn fires(roll: u32) -> bool {
    roll < FIRE_THRESHOLD
}

/// The projectile an enemy fires: it starts where the enemy is and flies the way the
/// enemy walks, to the left if the enemy stands still.
pub open spec fn shot_from(e: Body, bs: int) -> Body {
    Body {
        x: e.x,
        y: e.y,
        vx: if e.vx > 0 {
            shot_speed(bs)
        } else {
            -shot_speed(bs)
        },
        vy: 0,
    }
}

/// Enemy `i` fires on the draws `rolls`: draw `i` exists and says so.
pub open spec fn fires_at(rolls: Seq<u32>, i: int) -> bool {
    0 <= i < rolls.len() && fires(rolls[i])
}

/// The projectiles that a roster fires, in the order of the enemies: enemy `i` fires if
/// draw `i` says so, and an enemy without a draw does not fire.
pub open spec fn volley(enemies: Seq<Body>, rolls: Seq<u32>, bs: int) -> Seq<Body>
    decreases enemies.len(),
{
    if enemies.len() == 0 {
        Seq::empty()
    } else {
        let before = volley(enemies.drop_last(), rolls, bs);
        if fires_at(rolls, enemies.len() - 1) {
            before.push(shot_from(enemies.last(), bs))
        } else {
            before
        }
    }
}

/// One tick of an enemy on `grid`.
pub open spec fn enemy_mover(grid: Grid, bs: int) -> spec_fn(Body) -> Body {
    |e: Body| enemy_step(grid, bs, e)
}

/// The enemy is inside the world or within its slack.
pub open spec fn enemy_stays(bs: int) -> spec_fn(Body) -> bool {
    |e: Body| !far_outside_world(e.x, e.y, bs)
}

/// One tick of a projectile.
pub open spec fn glider() -> spec_fn(Body) -> Body {
    |b: Body| glide(b)
}

/// The projectile is inside the world.
pub open spec fn projectile_stays(bs: int) -> spec_fn(Body) -> bool {
    |b: Body| !outside_world(b.x, b.y, bs)
}

/// One tick of `dt` microseconds of a hit effect.
pub open spec fn effect_mover(dt: nat) -> spec_fn(EffectModel) -> EffectModel {
    |e: EffectModel| e.step(dt)
}

/// The hit effect has not played through.
pub open spec fn effect_stays() -> spec_fn(EffectModel) -> bool {
    |e: EffectModel| !e.expired
}

/// The hit effect that an enemy leaves where it was struck.
pub open spec fn hit_effect(bs: int) -> spec_fn(Body) -> EffectModel {
    |e: Body| EffectModel::fresh(e.x, e.y, 0, -effect_rise(bs))
}

/// Where the player stands when an attempt starts: the middle of the window.
pub open spec fn player_spawn(window_width: int, window_height: int) -> (int, int) {
    (toward_zero(window_width, 2), toward_zero(window_height, 2))
}

/// The bullet that the player fires: it leaves above the player's feet and flies the
/// way the player faces.
pub open spec fn bullet_from(p: PlayerModel, bs: int) -> Body {
    Body {
        x: p.body.x,
        y: p.body.y - muzzle_height(bs),
        vx: if p.view_right {
            shot_speed(bs)
        } else {
            -shot_speed(bs)
        },
        vy: 0,
    }
}

impl GameModel {
    /// What every operation keeps: a valid window and the block size that belongs to
    /// it, a score that is not negative, well-formed animations, menu selections that
    /// exist, and valid windows on offer.
    pub open spec fn wf(self) -> bool {
        &&& valid_window(self.window_width, self.window_height)
        &&& self.block_size == block_size_of(self.window_width)
        &&& all_windows_valid(self.window_sizes)
        &&& 0 <= self.score
        &&& self.player.wf()
        &&& all_effects_wf(self.bubbles)
        &&& self.selected_menu_option < MENU_OPTIONS
        &&& self.selected_window_size < self.window_sizes.len()
    }

    /// The session can be advanced on machine integers: every body is within the
    /// coordinate limit, the roster and the score have room to grow.
    pub open spec fn within_limits(self) -> bool {
        &&& self.player.body.in_range()
        &&& all_in_range(self.enemies)
        &&& all_in_range(self.bullets)
        &&& all_in_range(self.enemy_bullets)
        &&& all_effects_in_range(self.bubbles)
        &&& self.enemies.len() <= MAX_ENEMIES
        &&& self.score <= SCORE_LIMIT
    }

    /// The player has moved by one tick.
    pub open spec fn with_player_moved(self, dt: nat) -> GameModel {
        GameModel { player: self.player.step(self.grid, self.block_size, dt), ..self }
    }

    /// The spawn timer has run for `dt` microseconds: where it runs out, one enemy
    /// joins the roster and the timer starts again.
    pub open spec fn with_spawn(self, dt: nat) -> GameModel {
        if dt >= self.enemy_spawn_timer {
            GameModel {
                enemies: self.enemies.push(spawned_enemy(self.enemies.len())),
                enemy_spawn_timer: SPAWN_INTERVAL as nat,
                ..self
            }
        } else {
            GameModel { enemy_spawn_timer: (self.enemy_spawn_timer - dt) as nat, ..self }
        }
    }

    /// Every enemy has moved by one tick; those that left the world are gone.
    pub open spec fn with_enemies_moved(self) -> GameModel {
        GameModel {
            enemies: advance_and_keep(
                self.enemies,
                enemy_mover(self.grid, self.block_size),
                enemy_stays(self.block_size),
            ),
            ..self
        }
    }

    /// Every bullet has moved by one tick; those that left the world are gone.
    pub open spec fn with_bullets_moved(self) -> GameModel {
        GameModel {
            bullets: advance_and_keep(self.bullets, glider(), projectile_stays(self.block_size)),
            ..self
        }
    }

    /// Every hit effect has moved by one tick; those that played through are gone.
    pub open spec fn with_effects_moved(self, dt: nat) -> GameModel {
        GameModel {
            bubbles: advance_and_keep(self.bubbles, effect_mover(dt), effect_stays()),
            ..self
        }
    }

    /// The first half of a tick: player, spawn timer, enemies, bullets and hit effects,
    /// in this order.
    pub open spec fn moved(self, dt: nat) -> GameModel {
        self.with_player_moved(dt).with_spawn(dt).with_enemies_moved().with_bullets_moved().with_effects_moved(
            dt,
        )
    }

    /// The enemies have fired as the draws say, one draw for each enemy.
    pub open spec fn with_volley(self, rolls: Seq<u32>) -> GameModel {
        GameModel {
            enemy_bullets: self.enemy_bullets + volley(self.enemies, rolls, self.block_size),
            ..self
        }
    }

    /// Every enemy projectile has moved by one tick; those that left the world are gone.
    pub open spec fn with_enemy_bullets_moved(self) -> GameModel {
        GameModel {
            enemy_bullets: advance_and_keep(
                self.enemy_bullets,
                glider(),
                projectile_stays(self.block_size),
            ),
            ..self
        }
    }

    /// One tick of all objects: the first half, then the enemies' fire, then the flight
    /// of their projectiles, those just fired among them.
    pub open spec fn objects_updated(self, dt: nat, rolls: Seq<u32>) -> GameModel {
        self.moved(dt).with_volley(rolls).with_enemy_bullets_moved()
    }

    /// An enemy or an enemy's projectile reaches the player.
    pub open spec fn player_struck(self) -> bool {
        any_reaches(self.enemies, self.player.body.x, self.player.body.y, self.block_size)
            || any_reaches(
            self.enemy_bullets,
            self.player.body.x,
            self.player.body.y,
            self.block_size,
        )
    }

    /// The session after its collisions are resolved. Where the player is struck the
    /// session is over and nothing else changes. Otherwise the bullets are paired off
    /// against the enemies, each enemy struck counts for the score and leaves a hit
    /// effect, and the bullets that are left are paired off against the enemies'
    /// projectiles.
    pub open spec fn collided(self) -> GameModel {
        if self.player_struck() {
            GameModel { state: GameState::GameOver, ..self }
        } else {
            let hits = pair_off(self.bullets, self.enemies, self.block_size);
            let cancelled = pair_off(hits.bullets, self.enemy_bullets, self.block_size);
            GameModel {
                score: self.score + KILL_SCORE * hits.struck.len(),
                enemies: hits.targets,
                bullets: cancelled.bullets,
                bubbles: self.bubbles + hits.struck.map_values(hit_effect(self.block_size)),
                enemy_bullets: cancelled.targets,
                ..self
            }
        }
    }

    /// The session after one tick of `dt` microseconds with the draws `rolls`: in play
    /// the objects move and the collisions are resolved, in every other state nothing
    /// happens.
    pub open spec fn ticked(self, dt: nat, rolls: Seq<u32>) -> GameModel {
        if self.state == GameState::Play {
            self.objects_updated(dt, rolls).collided()
        } else {
            self
        }
    }

    /// The session at the start of an attempt: no score, the player at rest in the
    /// middle of the window, the first roster as the window's size places it, nothing
    /// in flight and a full spawn timer. The grid, the window, the block size, the
    /// state and the menu are kept.
    pub open spec fn restarted(self) -> GameModel {
        GameModel {
            score: 0,
            player: PlayerModel::standing_at(
                player_spawn(self.window_width, self.window_height).0,
                player_spawn(self.window_width, self.window_height).1,
            ),
            enemies: initial_roster(self.window_width, self.window_height, self.block_size),
            bullets: Seq::empty(),
            bubbles: Seq::empty(),
            enemy_bullets: Seq::empty(),
            enemy_spawn_timer: SPAWN_INTERVAL as nat,
            ..self
        }
    }

    /// The session with the window of the selected size: the size is stored in world
    /// units, and the block size follows the new width.
    pub open spec fn resized(self) -> GameModel {
        let size = in_units(self.window_sizes[self.selected_window_size as int]);
        GameModel {
            window_width: size.0,
            window_height: size.1,
            block_size: block_size_of(size.0),
            ..self
        }
    }

    /// The session after an event in the menu.
    pub open spec fn handled_in_menu(self, event: InputEvent) -> GameModel {
        match event {
            InputEvent::StartPressed | InputEvent::ConfirmPressed => GameModel {
                state: GameState::Play,
                ..self.restarted()
            },
            InputEvent::MenuUp => if self.selected_menu_option > 0 {
                GameModel {
                    selected_menu_option: (self.selected_menu_option - 1) as nat,
                    ..self
                }
            } else {
                self
            },
            InputEvent::MenuDown => if self.selected_menu_option + 1 < MENU_OPTIONS {
                GameModel { selected_menu_option: self.selected_menu_option + 1, ..self }
            } else {
                self
            },
            InputEvent::MenuLeft => if self.selected_menu_option == 1 && self.selected_window_size
                > 0 {
                GameModel {
                    selected_window_size: (self.selected_window_size - 1) as nat,
                    ..self
                }
            } else {
                self
            },
            InputEvent::MenuRight => if self.selected_menu_option == 1 && self.selected_window_size
                + 1 < self.window_sizes.len() {
                GameModel { selected_window_size: self.selected_window_size + 1, ..self }
            } else {
                self
            },
            InputEvent::ResizeChosen => self.resized(),
            _ => self,
        }
    }

    /// The session after an event in play.
    pub open spec fn handled_in_play(self, event: InputEvent) -> GameModel {
        let p = self.player;
        match event {
            InputEvent::FirePressed => GameModel {
                bullets: self.bullets.push(bullet_from(p, self.block_size)),
                ..self
            },
            InputEvent::MoveLeftPressed => GameModel {
                player: PlayerModel {
                    body: Body { vx: -walk_speed(self.block_size), ..p.body },
                    view_right: false,
                    ..p
                },
                ..self
            },
            InputEvent::MoveRightPressed => GameModel {
                player: PlayerModel {
                    body: Body { vx: walk_speed(self.block_size), ..p.body },
                    view_right: true,
                    ..p
                },
                ..self
            },
            InputEvent::JumpPressed => if p.body.vy == 0 {
                GameModel {
                    player: PlayerModel {
                        body: Body { vy: -jump_speed(self.block_size), ..p.body },
                        ..p
                    },
                    ..self
                }
            } else {
                self
            },
            InputEvent::MoveLeftReleased => if p.body.vx < 0 {
                GameModel { player: PlayerModel { body: Body { vx: 0, ..p.body }, ..p }, ..self }
            } else {
                self
            },
            InputEvent::MoveRightReleased => if p.body.vx > 0 {
                GameModel { player: PlayerModel { body: Body { vx: 0, ..p.body }, ..p }, ..self }
            } else {
                self
            },
            _ => self,
        }
    }

    /// The session after an event. In the menu, start and confirm begin an attempt,
    /// the navigation events move the selections and the chosen window size is taken
    /// over; in play the events steer the player;
    /// when the session is over only start is heard, and leads back to the menu. An
    /// event that means nothing in the state changes nothing.
    pub open spec fn handled(self, event: InputEvent) -> GameModel {
        match self.state {
            GameState::Menu => self.handled_in_menu(event),
            GameState::Play => self.handled_in_play(event),
            GameState::GameOver => if event == InputEvent::StartPressed {
                GameModel { state: GameState::Menu, ..self.restarted() }
            } else {
                self
            },
        }
    }

    /// What the host is asked to do after an event: in the menu, to start the music
    /// when start begins an attempt, to give the window the selected size, or to end
    /// the program; nothing in any other state.
    pub open spec fn action_for(self, event: InputEvent) -> Action {
        if self.state != GameState::Menu {
            Action::Nothing
        } else if event == InputEvent::StartPressed {
            Action::StartMusic
        } else if event == InputEvent::ResizeChosen {
            Action::ResizeWindow(
                self.window_sizes[self.selected_window_size as int].0,
                self.window_sizes[self.selected_window_size as int].1,
            )
        } else if event == InputEvent::QuitChosen {
            Action::Quit
        } else {
            Action::Nothing
        }
    }
}

} // verus!
