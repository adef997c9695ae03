//! The player: a body with a facing, a movement state and a walking animation.

use crate::animator::{Animator, AnimatorModel};
use crate::body::Body;
use crate::game::Game;
use crate::grid::Grid;
use crate::kinematics::{is_blocked_sideways, player_body_step, settle_at};
use crate::model::GameModel;
use crate::scale::valid_block_size;
use vstd::prelude::*;

verus! {

/// Number of frames in the walking animation.
pub const PLAYER_FRAMES: usize = 4;

/// What the player is doing, as its velocity shows it.
#[derive(Clone, Copy, Debug, PartialEq, Eq, Structural)]
pub enum PlayerState {
    Idle,
    WalkingRight,
    WalkingLeft,
    Jumping,
}

/// The player.
#[derive(Clone, Copy, Debug, PartialEq, Eq)]
pub struct Player {
    pub pos: (i64, i64),
    pub velocity: (i64, i64),
    pub view_right: bool,
    pub animator: Animator,
    pub player_state: PlayerState,
}

/// The mathematical model of a `Player`.
pub struct PlayerModel {
    pub body: Body,
    pub view_right: bool,
    pub animator: AnimatorModel,
    pub state: PlayerState,
}

impl View for Player {
    type V = PlayerModel;

    open spec fn view(&self) -> PlayerModel {
        PlayerModel {
            body: Body {
                x: self.pos.0 as int,
                y: self.pos.1 as int,
                vx: self.velocity.0 as int,
                vy: self.velocity.1 as int,
            },
            view_right: self.view_right,
            animator: self.animator@,
            state: self.player_state,
        }
    }
}

/// The movement state that a velocity shows: rising is jumping whatever the horizontal
/// velocity; otherwise the sign of the horizontal velocity decides.
pub open spec fn movement_state(vx: int, vy: int) -> PlayerState {
    if vy < 0 {
        PlayerState::Jumping
    } else if vx > 0 {
        PlayerState::WalkingRight
    } else if vx < 0 {
        PlayerState::WalkingLeft
    } else {
        PlayerState::Idle
    }
}

/// The state is one of the two walking states.
pub open spec fn is_walking(state: PlayerState) -> bool {
    state == PlayerState::WalkingRight || state == PlayerState::WalkingLeft
}

impl PlayerModel {
    /// A player standing still at `(x, y)`, facing right, at the first frame.
    pub open spec fn standing_at(x: int, y: int) -> PlayerModel {
        PlayerModel {
            body: Body { x, y, vx: 0, vy: 0 },
            view_right: true,
            animator: AnimatorModel { timer: 0, frame: 0, frame_count: PLAYER_FRAMES as nat },
            state: PlayerState::Idle,
        }
    }

    /// The animation has `PLAYER_FRAMES` frames and its counter is well formed.
    pub open spec fn wf(self) -> bool {
        self.animator.wf() && self.animator.frame_count == PLAYER_FRAMES
    }

    /// The player after one tick of `dt` microseconds: the body moves, the movement
    /// state follows from the velocity it ends with, and the animation runs while that
    /// state is a walking one.
    pub open spec fn step(self, grid: Grid, bs: int, dt: nat) -> PlayerModel {
        let body = player_body_step(grid, bs, self.body);
        let state = movement_state(body.vx, body.vy);
        PlayerModel { body, state, animator: self.animator.step(dt, is_walking(state)), ..self }
    }
}

impl Player {
    /// A player standing still at `(x, y)`.
    pub fn new(x: i64, y: i64) -> (player: Player)
        ensures
            player@ == PlayerModel::standing_at(x as int, y as int),
            player@.wf(),
    {
        Player {
            pos: (x, y),
            velocity: (0, 0),
            view_right: true,
            animator: Animator::new(PLAYER_FRAMES),
            player_state: PlayerState::Idle,
        }
    }

    /// Advances the player by one tick of `dt` microseconds against `grid`.
    pub fn advance(&mut self, grid: &Grid, block_size: i64, dt: u64)
        requires
            old(self)@.wf(),
            old(self)@.body.in_range(),
            valid_block_size(block_size as int),
        ensures
            final(self)@ == old(self)@.step(*grid, block_size as int, dt as nat),
            final(self)@.wf(),
    {
        let falling = self.velocity.1 + block_size / 50;
        if is_blocked_sideways(grid, true, self.pos.0, self.pos.1, self.velocity.0, block_size) {
            self.velocity.0 = 0;
        } else {
            self.pos.0 = self.pos.0 + self.velocity.0;
        }
        let (y, vy) = settle_at(grid, true, self.pos.0, self.pos.1, falling, block_size);
        self.pos.1 = y;
        self.velocity.1 = vy;
        self.player_state = if vy < 0 {
            PlayerState::Jumping
        } else if self.velocity.0 > 0 {
            PlayerState::WalkingRight
        } else if self.velocity.0 < 0 {
            PlayerState::WalkingLeft
        } else {
            PlayerState::Idle
        };
        let walking = match self.player_state {
            PlayerState::WalkingRight | PlayerState::WalkingLeft => true,
            _ => false,
        };
        let _ = self.animator.tick(dt, walking);
    }

    /// Advances the session's player by one tick of `dt` microseconds; nothing else in
    /// the session changes.
    pub fn update(game: &mut Game, dt: u64)
        requires
            old(game)@.player.wf(),
            old(game)@.player.body.in_range(),
            valid_block_size(old(game)@.block_size),
        ensures
            final(game)@ == (GameModel {
                player: old(game)@.player.step(
                    old(game)@.grid,
                    old(game)@.block_size,
                    dt as nat,
                ),
                ..old(game)@
            }),
    {
        game.player.advance(&game.grid, game.block_size, dt);
    }

    /// What the player is doing.
    pub fn state(&self) -> (state: PlayerState)
        ensures
            state == self@.state,
    {
        self.player_state
    }

    /// The frame of the walking animation that is shown.
    pub fn current_frame(&self) -> (frame: usize)
        ensures
            frame == self@.animator.frame,
    {
        self.animator.frame
    }
}

} // verus!
