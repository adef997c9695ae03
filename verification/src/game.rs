//! The session: its state machine and the entities it owns.

use crate::body::{all_within, is_in_range};
use crate::bubble::{
    all_effects_in_range, all_effects_wf, effect_models, Bubble, EFFECT_FRAMES,
};
use crate::bullet::{bullet_bodies, Bullet};
use crate::collisions::{any_touches, lemma_pair_off_counts, strike};
use crate::enemy::{create_enemies, enemy_bodies, initial_roster, Enemy};
use crate::enemy_bullet::{enemy_bullet_bodies, EnemyBullet};
use crate::grid::{create_grid, is_occupied, Grid, GridConfig};
use crate::input::{
    key_pressed, key_released, pressed_event, released_event, Action, InputEvent, Key,
};
use crate::model::{
    bullet_from, hit_effect, player_spawn, GameModel, MENU_OPTIONS,
};
use crate::player::{Player, PlayerModel, PLAYER_FRAMES};
use crate::scale::{
    all_windows_valid, block_size_of, in_units, is_valid_window, valid_block_size,
    valid_window, FRAME_INTERVAL, KILL_SCORE, MAX_ENEMIES, SCORE_LIMIT, SPAWN_INTERVAL,
    UNITS_PER_PIXEL,
};
use crate::utils::{lemma_moved_keeps_limits, update_objects, update_objects_with};
use vstd::prelude::*;

verus! {

/// The states of a session.
#[derive(Clone, Copy, Debug, PartialEq, Eq, Structural)]
pub enum GameState {
    Menu,
    Play,
    GameOver,
}

/// A session and everything it owns.
pub struct Game {
    pub state: GameState,
    pub score: i32,
    pub player: Player,
    pub enemies: Vec<Enemy>,
    pub bullets: Vec<Bullet>,
    pub bubbles: Vec<Bubble>,
    pub enemy_bullets: Vec<EnemyBullet>,
    pub grid: Grid,
    pub enemy_spawn_timer: u64,
    pub selected_menu_option: usize,
    pub selected_window_size: usize,
    pub window_sizes: Vec<(u32, u32)>,
    pub window_width: i64,
    pub window_height: i64,
    pub block_size: i64,
}

impl View for Game {
    type V = GameModel;

    open spec fn view(&self) -> GameModel {
        GameModel {
            state: self.state,
            score: self.score as int,
            player: self.player@,
            enemies: enemy_bodies(self.enemies@),
            bullets: bullet_bodies(self.bullets@),
            bubbles: effect_models(self.bubbles@),
            enemy_bullets: enemy_bullet_bodies(self.enemy_bullets@),
            grid: self.grid,
            enemy_spawn_timer: self.enemy_spawn_timer as nat,
            selected_menu_option: self.selected_menu_option as nat,
            selected_window_size: self.selected_window_size as nat,
            window_sizes: self.window_sizes@,
            window_width: self.window_width as int,
            window_height: self.window_height as int,
            block_size: self.block_size as int,
        }
    }
}

/// Why a session could not be made.
#[derive(Clone, Copy, Debug, PartialEq, Eq, Structural)]
pub enum LevelError {
    /// The window's width gives no valid block size, or its height is not positive or
    /// is larger than `MAX_WINDOW_HEIGHT`.
    BadWindowSize,
    /// A line of the level reaches outside the grid.
    LineOutsideGrid,
}

/// The window sizes the menu offers, in pixels.
pub open spec fn offered_window_sizes() -> Seq<(u32, u32)> {
    seq![(800u32, 480u32), (1024u32, 768u32), (1280u32, 720u32), (1920u32, 1080u32)]
}

impl GameModel {
    /// A session in the menu, ready for its first attempt on `grid` in a window of the
    /// given size.
    pub open spec fn fresh(grid: Grid, window_width: int, window_height: int) -> GameModel {
        (GameModel {
            state: GameState::Menu,
            score: 0,
            player: PlayerModel::standing_at(0, 0),
            enemies: Seq::empty(),
            bullets: Seq::empty(),
            bubbles: Seq::empty(),
            enemy_bullets: Seq::empty(),
            grid,
            enemy_spawn_timer: 0,
            selected_menu_option: 0,
            selected_window_size: 0,
            window_sizes: offered_window_sizes(),
            window_width,
            window_height,
            block_size: block_size_of(window_width),
        }).restarted()
    }
}

/// Adds the hit effect of every struck enemy to `bubbles`.
#[verifier::loop_isolation(false)]
pub fn add_hit_effects(bubbles: &mut Vec<Bubble>, struck: &Vec<Enemy>, block_size: i64)
    requires
        valid_block_size(block_size as int),
    ensures
        effect_models(final(bubbles)@) == effect_models(old(bubbles)@) + enemy_bodies(
            struck@,
        ).map_values(hit_effect(block_size as int)),
        all_effects_wf(effect_models(old(bubbles)@)) ==> all_effects_wf(
            effect_models(final(bubbles)@),
        ),
{
    let ghost start = bubbles@;
    let ghost bodies = enemy_bodies(struck@);
    let ghost effect = hit_effect(block_size as int);
    let mut i: usize = 0;
    assert(effect_models(bubbles@) =~= effect_models(start) + bodies.take(0).map_values(effect));
    while i < struck.len()
        invariant
            i <= struck@.len(),
            effect_models(bubbles@) == effect_models(start) + bodies.take(i as int).map_values(
                effect,
            ),
            all_effects_wf(effect_models(start)) ==> all_effects_wf(effect_models(bubbles@)),
        decreases struck@.len() - i,
    {
        let enemy = struck[i];
        let bubble = Bubble::new(enemy.pos, (0, -(block_size / 25)));
        let ghost shorter = bubbles@;
        bubbles.push(bubble);
        proof {
            assert(bodies[i as int] == enemy@);
            assert(bubble@ == effect(bodies[i as int]));
            assert(effect_models(bubbles@) =~= effect_models(shorter).push(bubble@));
            assert(bodies.take(i + 1).map_values(effect) =~= bodies.take(i as int).map_values(
                effect,
            ).push(effect(bodies[i as int])));
        }
        i += 1;
    }
    assert(bodies.take(i as int) =~= bodies);
}

/// Tells whether every hit effect has a well-formed animation.
pub fn effects_well_formed(bubbles: &Vec<Bubble>) -> (ok: bool)
    ensures
        ok == all_effects_wf(effect_models(bubbles@)),
{
    let ghost models = effect_models(bubbles@);
    let mut i: usize = 0;
    while i < bubbles.len()
        invariant
            i <= bubbles@.len(),
            models == effect_models(bubbles@),
            forall|k: int| 0 <= k < i ==> (#[trigger] models[k]).wf(),
        decreases bubbles@.len() - i,
    {
        let animator = bubbles[i].animator;
        assert(models[i as int] == bubbles@[i as int]@);
        if !(animator.frame < animator.frame_count && animator.timer <= FRAME_INTERVAL
            && animator.frame_count == EFFECT_FRAMES) {
            return false;
        }
        i += 1;
    }
    true
}

/// Tells whether every hit effect is within the coordinate limit.
pub fn effects_within(bubbles: &Vec<Bubble>) -> (ok: bool)
    ensures
        ok == all_effects_in_range(effect_models(bubbles@)),
{
    let ghost models = effect_models(bubbles@);
    let mut i: usize = 0;
    while i < bubbles.len()
        invariant
            i <= bubbles@.len(),
            models == effect_models(bubbles@),
            forall|k: int| 0 <= k < i ==> (#[trigger] models[k]).body.in_range(),
        decreases bubbles@.len() - i,
    {
        let bubble = bubbles[i];
        assert(models[i as int] == bubble@);
        if !is_in_range(bubble.pos, bubble.velocity) {
            return false;
        }
        i += 1;
    }
    true
}

/// Tells whether every window size on offer, given in pixels, is valid.
pub fn windows_valid(sizes: &Vec<(u32, u32)>) -> (ok: bool)
    ensures
        ok == all_windows_valid(sizes@),
{
    let mut i: usize = 0;
    while i < sizes.len()
        invariant
            i <= sizes@.len(),
            forall|k: int|
                0 <= k < i ==> valid_window(in_units(#[trigger] sizes@[k]).0, in_units(sizes@[k]).1),
        decreases sizes@.len() - i,
    {
        let size = sizes[i];
        if !is_valid_window(UNITS_PER_PIXEL * (size.0 as i64), UNITS_PER_PIXEL * (size.1 as i64)) {
            return false;
        }
        i += 1;
    }
    true
}

impl Game {
    /// Tells whether the session is well formed. Every operation keeps a session so.
    pub fn is_well_formed(&self) -> (ok: bool)
        ensures
            ok == self@.wf(),
    {
        let animator = self.player.animator;
        let scale_fits = is_valid_window(self.window_width, self.window_height)
            && self.block_size == self.window_width / 32 && windows_valid(&self.window_sizes);
        let player_fits = animator.frame < animator.frame_count && animator.timer
            <= FRAME_INTERVAL && animator.frame_count == PLAYER_FRAMES;
        let effects_fit = effects_well_formed(&self.bubbles);
        let menu_fits = self.selected_menu_option < MENU_OPTIONS && self.selected_window_size
            < self.window_sizes.len();
        scale_fits && 0 <= self.score && player_fits && effects_fit && menu_fits
    }

    /// Tells whether the session can be advanced by a tick on machine integers.
    pub fn is_within_limits(&self) -> (ok: bool)
        ensures
            ok == self@.within_limits(),
    {
        let player_fits = is_in_range(self.player.pos, self.player.velocity);
        let enemies_fit = all_within(&self.enemies);
        let bullets_fit = all_within(&self.bullets);
        let enemy_bullets_fit = all_within(&self.enemy_bullets);
        let effects_fit = effects_within(&self.bubbles);
        assert(self@.enemies.len() == self.enemies@.len());
        player_fits && enemies_fit && bullets_fit && enemy_bullets_fit && effects_fit
            && self.enemies.len() <= MAX_ENEMIES && self.score <= SCORE_LIMIT
    }

    /// Makes a session for the level `config` in a window of the given size, counted
    /// in world units. The block size is a thirty-second of the width. The session
    /// starts in the menu, set up for its first attempt: the player in the middle of
    /// the window, the first roster placed by the window's size. A window that is not
    /// valid or a line outside the grid is refused.
    pub fn new(config: &GridConfig, window_width: i64, window_height: i64) -> (made: Result<
        Game,
        LevelError,
    >)
        ensures
            match made {
                Ok(game) => {
                    &&& valid_window(window_width as int, window_height as int)
                    &&& config.fits()
                    &&& game@ == GameModel::fresh(
                        game.grid,
                        window_width as int,
                        window_height as int,
                    )
                    &&& forall|cx: int, cy: int| #[trigger]
                        is_occupied(game.grid, cx, cy) == config.covers(cx, cy)
                    &&& game@.wf()
                    &&& game@.within_limits()
                },
                Err(LevelError::BadWindowSize) => !valid_window(
                    window_width as int,
                    window_height as int,
                ),
                Err(LevelError::LineOutsideGrid) => valid_window(
                    window_width as int,
                    window_height as int,
                ) && !config.fits(),
            },
    {
        if !is_valid_window(window_width, window_height) {
            return Err(LevelError::BadWindowSize);
        }
        if !config.is_valid() {
            return Err(LevelError::LineOutsideGrid);
        }
        let mut window_sizes: Vec<(u32, u32)> = Vec::new();
        window_sizes.push((800, 480));
        window_sizes.push((1024, 768));
        window_sizes.push((1280, 720));
        window_sizes.push((1920, 1080));
        assert(window_sizes@ =~= offered_window_sizes());
        let mut game = Game {
            state: GameState::Menu,
            score: 0,
            player: Player::new(0, 0),
            enemies: Vec::new(),
            bullets: Vec::new(),
            bubbles: Vec::new(),
            enemy_bullets: Vec::new(),
            grid: create_grid(config),
            enemy_spawn_timer: 0,
            selected_menu_option: 0,
            selected_window_size: 0,
            window_sizes,
            window_width,
            window_height,
            block_size: window_width / 32,
        };
        proof {
            assert(enemy_bodies(game.enemies@) =~= Seq::empty());
            assert(bullet_bodies(game.bullets@) =~= Seq::empty());
            assert(effect_models(game.bubbles@) =~= Seq::empty());
            assert(enemy_bullet_bodies(game.enemy_bullets@) =~= Seq::empty());
        }
        game.reset();
        Ok(game)
    }

    /// Sets the session up for a new attempt: no score, the player at rest in the
    /// middle of the window, the first roster as the window's size places it, nothing
    /// in flight, a full spawn timer. The grid is not touched.
    pub fn reset(&mut self)
        ensures
            final(self)@ == old(self)@.restarted(),
            final(self).score == 0,
            final(self)@.player == PlayerModel::standing_at(
                player_spawn(old(self)@.window_width, old(self)@.window_height).0,
                player_spawn(old(self)@.window_width, old(self)@.window_height).1,
            ),
            final(self)@.enemies == initial_roster(
                old(self)@.window_width,
                old(self)@.window_height,
                old(self)@.block_size,
            ),
            final(self).bullets@.len() == 0,
            final(self).enemy_bullets@.len() == 0,
            final(self).bubbles@.len() == 0,
            final(self).grid == old(self).grid,
            final(self).state == old(self).state,
            final(self).window_width == old(self).window_width,
            final(self).window_height == old(self).window_height,
            valid_window(old(self)@.window_width, old(self)@.window_height) && old(self)@.block_size
                == block_size_of(old(self)@.window_width) ==> final(self)@.within_limits(),
            old(self)@.wf() ==> final(self)@.wf(),
    {
        self.score = 0;
        self.player = Player::new(self.window_width / 2, self.window_height / 2);
        self.enemies = create_enemies(self.window_width, self.window_height, self.block_size);
        self.bullets = Vec::new();
        self.bubbles = Vec::new();
        self.enemy_bullets = Vec::new();
        self.enemy_spawn_timer = SPAWN_INTERVAL;
        proof {
            assert(bullet_bodies(self.bullets@) =~= Seq::empty());
            assert(effect_models(self.bubbles@) =~= Seq::empty());
            assert(enemy_bullet_bodies(self.enemy_bullets@) =~= Seq::empty());
        }
    }

    /// Resolves the collisions of a tick, after every object has moved.
    pub fn handle_collisions(&mut self)
        requires
            valid_block_size(old(self)@.block_size),
            0 <= old(self)@.score,
            old(self)@.score + KILL_SCORE * old(self)@.enemies.len() <= i32::MAX,
        ensures
            final(self)@ == old(self)@.collided(),
            old(self)@.wf() ==> final(self)@.wf(),
    {
        let bs = self.block_size;
        if any_touches(self.player.pos, &self.enemies, bs) || any_touches(
            self.player.pos,
            &self.enemy_bullets,
            bs,
        ) {
            self.state = GameState::GameOver;
            return ;
        }
        proof {
            lemma_pair_off_counts(self@.bullets, self@.enemies, bs as int);
        }
        let (kept, struck) = strike(&self.bullets, &mut self.enemies, bs);
        self.score = self.score + KILL_SCORE * (struck.len() as i32);
        add_hit_effects(&mut self.bubbles, &struck, bs);
        let (left, _) = strike(&kept, &mut self.enemy_bullets, bs);
        self.bullets = left;
    }

    /// Runs one tick of `dt` microseconds with the enemies firing as the draws `rolls`
    /// say. In play every object moves and the collisions are resolved; in the menu
    /// and when the session is over nothing happens.
    pub fn update_with(&mut self, dt: u64, rolls: &Vec<u32>)
        requires
            old(self)@.state == GameState::Play ==> old(self)@.wf() && old(self)@.within_limits(),
        ensures
            final(self)@ == old(self)@.ticked(dt as nat, rolls@),
            old(self)@.wf() ==> final(self)@.wf(),
    {
        match self.state {
            GameState::Play => {
                proof {
                    lemma_moved_keeps_limits(self@, dt as nat);
                }
                update_objects_with(self, dt, rolls);
                self.handle_collisions();
            },
            _ => {},
        }
    }

    /// Runs one tick of `dt` microseconds. In play every object moves, with one draw
    /// for each enemy deciding whether it fires, and the collisions are resolved; in
    /// the menu and when the session is over nothing happens. Whatever is drawn, the
    /// session ends as `update_with` would leave it for those draws.
    pub fn update(&mut self, dt: u64)
        requires
            old(self)@.state == GameState::Play ==> old(self)@.wf() && old(self)@.within_limits(),
        ensures
            exists|rolls: Seq<u32>|
                rolls.len() == old(self)@.moved(dt as nat).enemies.len() && final(self)@
                    == #[trigger] old(self)@.ticked(dt as nat, rolls),
            old(self)@.wf() ==> final(self)@.wf(),
    {
        let ghost start = self@;
        match self.state {
            GameState::Play => {
                proof {
                    lemma_moved_keeps_limits(start, dt as nat);
                }
                update_objects(self, dt);
                let ghost rolls = choose|rolls: Seq<u32>|
                    rolls.len() == start.moved(dt as nat).enemies.len() && self@
                        == #[trigger] start.objects_updated(dt as nat, rolls);
                self.handle_collisions();
                assert(self@ == start.ticked(dt as nat, rolls));
            },
            _ => {
                assert(self@ == start.ticked(dt as nat, Seq::new(
                    start.moved(dt as nat).enemies.len(),
                    |i: int| 0u32,
                )));
            },
        }
    }

    /// Takes an event and says what the host is to do. An event that means nothing in
    /// the session's state is ignored.
    pub fn handle_input(&mut self, event: InputEvent) -> (action: Action)
        requires
            old(self)@.wf(),
            old(self)@.state == GameState::Play && event == InputEvent::FirePressed ==> old(
                self,
            )@.player.body.in_range(),
        ensures
            final(self)@ == old(self)@.handled(event),
            action == old(self)@.action_for(event),
            final(self)@.wf(),
    {
        let bs = self.block_size;
        match self.state {
            GameState::Menu => match event {
                InputEvent::StartPressed => {
                    self.reset();
                    self.state = GameState::Play;
                    Action::StartMusic
                },
                InputEvent::ConfirmPressed => {
                    self.reset();
                    self.state = GameState::Play;
                    Action::Nothing
                },
                InputEvent::ResizeChosen => {
                    let size = self.window_sizes[self.selected_window_size];
                    assert(valid_window(in_units(size).0, in_units(size).1));
                    let width = UNITS_PER_PIXEL * (size.0 as i64);
                    self.window_width = width;
                    self.window_height = UNITS_PER_PIXEL * (size.1 as i64);
                    self.block_size = width / 32;
                    Action::ResizeWindow(size.0, size.1)
                },
                InputEvent::QuitChosen => Action::Quit,
                InputEvent::MenuUp => {
                    if self.selected_menu_option > 0 {
                        self.selected_menu_option = self.selected_menu_option - 1;
                    }
                    Action::Nothing
                },
                InputEvent::MenuDown => {
                    if self.selected_menu_option + 1 < MENU_OPTIONS {
                        self.selected_menu_option = self.selected_menu_option + 1;
                    }
                    Action::Nothing
                },
                InputEvent::MenuLeft => {
                    if self.selected_menu_option == 1 && self.selected_window_size > 0 {
                        self.selected_window_size = self.selected_window_size - 1;
                    }
                    Action::Nothing
                },
                InputEvent::MenuRight => {
                    if self.selected_menu_option == 1 && self.selected_window_size
                        < self.window_sizes.len() - 1 {
                        self.selected_window_size = self.selected_window_size + 1;
                    }
                    Action::Nothing
                },
                _ => Action::Nothing,
            },
            GameState::Play => {
                match event {
                    InputEvent::FirePressed => {
                        let speed = bs / 3;
                        let velocity = if self.player.view_right {
                            (speed, 0)
                        } else {
                            (-speed, 0)
                        };
                        let bullet = Bullet {
                            pos: (self.player.pos.0, self.player.pos.1 - bs * 11 / 10),
                            velocity,
                        };
                        let ghost flying = self.bullets@;
                        self.bullets.push(bullet);
                        proof {
                            assert(bullet@ == bullet_from(old(self)@.player, bs as int));
                            assert(bullet_bodies(self.bullets@) =~= bullet_bodies(flying).push(
                                bullet@,
                            ));
                        }
                    },
                    InputEvent::MoveLeftPressed => {
                        self.player.velocity.0 = -(bs / 5);
                        self.player.view_right = false;
                    },
                    InputEvent::MoveRightPressed => {
                        self.player.velocity.0 = bs / 5;
                        self.player.view_right = true;
                    },
                    InputEvent::JumpPressed => {
                        if self.player.velocity.1 == 0 {
                            self.player.velocity.1 = -(bs * 5 / 12);
                        }
                    },
                    InputEvent::MoveLeftReleased => {
                        if self.player.velocity.0 < 0 {
                            self.player.velocity.0 = 0;
                        }
                    },
                    InputEvent::MoveRightReleased => {
                        if self.player.velocity.0 > 0 {
                            self.player.velocity.0 = 0;
                        }
                    },
                    _ => {},
                }
                Action::Nothing
            },
            GameState::GameOver => {
                match event {
                    InputEvent::StartPressed => {
                        self.state = GameState::Menu;
                        self.reset();
                    },
                    _ => {},
                }
                Action::Nothing
            },
        }
    }

    /// Takes a key press: the key is turned into the event it means in the
    /// session's state, and the event is handled.
    pub fn key_down_event(&mut self, key: Key) -> (action: Action)
        requires
            old(self)@.wf(),
            old(self)@.state == GameState::Play && key == Key::Space ==> old(
                self,
            )@.player.body.in_range(),
        ensures
            final(self)@ == match pressed_event(old(self)@.state, old(self)@.selected_menu_option, key) {
                Some(event) => old(self)@.handled(event),
                None => old(self)@,
            },
            action == match pressed_event(old(self)@.state, old(self)@.selected_menu_option, key) {
                Some(event) => old(self)@.action_for(event),
                None => Action::Nothing,
            },
            final(self)@.wf(),
    {
        match key_pressed(self.state, self.selected_menu_option, key) {
            Some(event) => self.handle_input(event),
            None => Action::Nothing,
        }
    }

    /// Takes a key release: in play, letting go of the key of the direction the
    /// player walks in stops the player.
    pub fn key_up_event(&mut self, key: Key)
        requires
            old(self)@.wf(),
        ensures
            final(self)@ == match released_event(old(self)@.state, key) {
                Some(event) => old(self)@.handled(event),
                None => old(self)@,
            },
            final(self)@.wf(),
    {
        match key_released(self.state, key) {
            Some(event) => {
                let _ = self.handle_input(event);
            },
            None => {},
        }
    }
}

} // verus!
