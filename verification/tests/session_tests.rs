use bobble_clone::bubble::Bubble;
use bobble_clone::bullet::Bullet;
use bobble_clone::enemy::{create_enemies, Enemy};
use bobble_clone::enemy_bullet::EnemyBullet;
use bobble_clone::game::{Game, GameState};
use bobble_clone::grid::{create_grid, level_one, GridConfig};
use bobble_clone::input::{key_pressed, key_released, Action, InputEvent, Key};
use bobble_clone::player::{Player, PlayerState};

// a window of 800 by 480 pixels, in thousandths of a pixel
const WIDTH: i64 = 800_000;
const HEIGHT: i64 = 480_000;
const BS: i64 = 25_000;

fn session() -> Game {
    Game::new(&level_one(), WIDTH, HEIGHT).unwrap()
}

fn open_session() -> Game {
    let config = GridConfig { vertical_lines: vec![], horizontal_lines: vec![] };
    Game::new(&config, WIDTH, HEIGHT).unwrap()
}

fn playing() -> Game {
    let mut game = session();
    let _ = game.handle_input(InputEvent::StartPressed);
    game
}

fn playing_in_the_open() -> Game {
    let mut game = open_session();
    let _ = game.handle_input(InputEvent::StartPressed);
    game
}

fn first_roster() -> Vec<Enemy> {
    vec![
        Enemy::new((100_000, 240_000), (1_666, 3_571)),
        Enemy::new((200_000, 0), (3_125, 0)),
        Enemy::new((200_000, 0), (-1_666, 0)),
    ]
}

fn snapshot(
    game: &Game,
) -> (GameState, i32, Player, Vec<Enemy>, Vec<Bullet>, Vec<Bubble>, Vec<EnemyBullet>, u64, (i64, i64, i64))
{
    (
        game.state,
        game.score,
        game.player,
        game.enemies.clone(),
        game.bullets.clone(),
        game.bubbles.clone(),
        game.enemy_bullets.clone(),
        game.enemy_spawn_timer,
        (game.window_width, game.window_height, game.block_size),
    )
}

#[test]
fn new_session_starts_in_menu() {
    let game = session();
    assert_eq!(game.state, GameState::Menu);
    assert_eq!(game.score, 0);
    assert_eq!(game.player, Player::new(400_000, 240_000));
    assert_eq!(game.player.velocity, (0, 0));
    assert_eq!(game.enemies, first_roster());
    assert_eq!(game.enemies, create_enemies(WIDTH, HEIGHT, BS));
    assert!(game.bullets.is_empty() && game.bubbles.is_empty() && game.enemy_bullets.is_empty());
    assert_eq!(game.enemy_spawn_timer, 10_000_000);
    assert_eq!(game.selected_menu_option, 0);
    assert_eq!(game.selected_window_size, 0);
    assert_eq!(game.window_sizes, vec![(800, 480), (1024, 768), (1280, 720), (1920, 1080)]);
    assert_eq!((game.window_width, game.window_height), (WIDTH, HEIGHT));
    assert_eq!(game.block_size, BS);
    assert_eq!(game.grid, create_grid(&level_one()));
}

#[test]
fn new_session_is_placed_by_its_window() {
    let game = Game::new(&level_one(), 1_920_000, 1_080_000).unwrap();
    assert_eq!(game.block_size, 60_000);
    assert_eq!(game.player.pos, (960_000, 540_000));
    assert_eq!(game.enemies, create_enemies(1_920_000, 1_080_000, 60_000));
    assert_eq!(game.enemies[0], Enemy::new((240_000, 540_000), (4_000, 8_571)));
    assert_eq!(game.enemies[1], Enemy::new((480_000, 0), (7_500, 0)));
}

#[test]
fn reset_gives_a_clean_attempt() {
    let mut game = playing();
    game.score = 130;
    game.player.pos = (123_000, 45_000);
    game.player.velocity = (5_000, -3_000);
    game.player.view_right = false;
    game.enemies.push(Enemy::new((1, 2), (3, 4)));
    game.bullets.push(Bullet { pos: (1, 1), velocity: (16, 0) });
    game.enemy_bullets.push(EnemyBullet { pos: (1, 1), velocity: (16, 0) });
    game.bubbles.push(Bubble::new((1, 1), (0, -2)));
    game.enemy_spawn_timer = 17;
    let grid = game.grid;
    game.reset();
    assert_eq!(game.score, 0);
    assert_eq!(game.player.pos, (400_000, 240_000));
    assert_eq!(game.player.velocity, (0, 0));
    assert_eq!(game.player, Player::new(400_000, 240_000));
    assert_eq!(game.enemies.len(), 3);
    assert_eq!(game.enemies, first_roster());
    assert!(game.bullets.is_empty());
    assert!(game.enemy_bullets.is_empty());
    assert!(game.bubbles.is_empty());
    assert_eq!(game.enemy_spawn_timer, 10_000_000);
    assert_eq!(game.grid, grid);
    assert_eq!(game.state, GameState::Play);
    assert_eq!((game.window_width, game.window_height, game.block_size), (WIDTH, HEIGHT, BS));
    assert!(game.is_well_formed() && game.is_within_limits());
}

#[test]
fn reset_replaces_any_roster() {
    let mut empty = playing();
    empty.enemies.clear();
    empty.reset();
    assert_eq!(empty.enemies, first_roster());
    let mut crowded = playing();
    crowded.enemies = (0..7).map(|i| Enemy::new((i, i), (0, 0))).collect();
    crowded.reset();
    assert_eq!(crowded.enemies, first_roster());
}

#[test]
fn reset_puts_the_player_where_the_constructor_did() {
    let fresh = session();
    let mut game = playing();
    game.player.pos = (1, 1);
    game.reset();
    assert_eq!(game.player, fresh.player);
    assert_eq!(game.enemies, fresh.enemies);
}

#[test]
fn menu_to_play_then_gravity_then_fire() {
    let mut game = open_session();
    assert_eq!(game.state, GameState::Menu);
    let action = game.handle_input(InputEvent::ConfirmPressed);
    assert_eq!(action, Action::Nothing);
    assert_eq!(game.state, GameState::Play);
    assert_eq!(game.score, 0);
    assert_eq!(game.player.pos, (400_000, 240_000));
    // one tick with nothing below the player
    game.update(16_667);
    assert_eq!(game.state, GameState::Play);
    assert_eq!(game.player.velocity.1, 500);
    assert_eq!(game.player.pos, (400_000, 240_500));
    // firing while airborne and moving right
    let _ = game.handle_input(InputEvent::MoveRightPressed);
    let _ = game.handle_input(InputEvent::FirePressed);
    assert_eq!(game.bullets, vec![Bullet { pos: (400_000, 240_500 - 27_500), velocity: (8_333, 0) }]);
    assert!(game.bullets[0].velocity.0 > 0);
    assert!(game.bullets[0].pos.1 < game.player.pos.1);
}

#[test]
fn player_rests_on_the_platform_it_starts_on() {
    let mut game = playing();
    game.update_with(16_667, &vec![]);
    assert_eq!(game.player.pos, (400_000, 240_000));
    assert_eq!(game.player.velocity, (0, 0));
    assert_eq!(game.player.state(), PlayerState::Idle);
    assert_eq!(game.state, GameState::Play);
}

#[test]
fn start_in_menu_begins_play_and_asks_for_music() {
    let mut game = session();
    game.score = 50;
    let action = game.key_down_event(Key::Space);
    assert_eq!(action, Action::StartMusic);
    assert_eq!(game.state, GameState::Play);
    assert_eq!(game.score, 0);
}

#[test]
fn grid_never_changes() {
    let mut game = session();
    let grid = create_grid(&level_one());
    assert_eq!(game.grid, grid);
    let _ = game.key_down_event(Key::Space);
    for tick in 0..600 {
        assert!(game.is_well_formed());
        if game.state == GameState::Play {
            assert!(game.is_within_limits());
        }
        game.update(16_667);
        assert_eq!(game.grid, grid);
        let key = [Key::Left, Key::Space, Key::Up, Key::Right, Key::Return, Key::Down][tick % 6];
        if tick % 3 == 0 {
            let _ = game.key_down_event(key);
        } else {
            game.key_up_event(key);
        }
        assert_eq!(game.grid, grid);
    }
    game.reset();
    assert_eq!(game.grid, grid);
}

#[test]
fn tick_does_nothing_outside_play() {
    let mut game = session();
    let before = snapshot(&game);
    game.update(16_667);
    game.update(20_000_000);
    assert_eq!(snapshot(&game), before);
}

#[test]
fn tick_in_play_ends_when_player_is_struck() {
    let mut game = playing();
    game.enemies = vec![Enemy::new((395_000, 235_000), (0, 0))];
    game.update(16_667);
    assert_eq!(game.state, GameState::GameOver);
}

#[test]
fn session_over_is_frozen_until_restart() {
    let mut game = playing();
    game.score = 30;
    game.enemies = vec![Enemy::new((395_000, 235_000), (0, 0)), Enemy::new((150_000, 150_000), (2, 0))];
    game.bullets = vec![Bullet { pos: (50_000, 50_000), velocity: (8_333, 0) }];
    game.update(16_667);
    assert_eq!(game.state, GameState::GameOver);
    let frozen = snapshot(&game);
    for _ in 0..10 {
        game.update(16_667);
    }
    game.update(20_000_000);
    assert_eq!(snapshot(&game), frozen);
    for key in [Key::Left, Key::Right, Key::Up, Key::Down, Key::Return] {
        assert_eq!(game.key_down_event(key), Action::Nothing);
        game.key_up_event(key);
    }
    for event in [
        InputEvent::FirePressed,
        InputEvent::JumpPressed,
        InputEvent::MoveLeftPressed,
        InputEvent::MoveRightPressed,
        InputEvent::MoveLeftReleased,
        InputEvent::MoveRightReleased,
        InputEvent::ConfirmPressed,
        InputEvent::MenuUp,
        InputEvent::MenuDown,
        InputEvent::MenuLeft,
        InputEvent::MenuRight,
        InputEvent::ResizeChosen,
        InputEvent::QuitChosen,
    ] {
        assert_eq!(game.handle_input(event), Action::Nothing);
    }
    assert_eq!(snapshot(&game), frozen);
}

#[test]
fn restart_leads_to_menu_with_a_clean_attempt() {
    let mut game = playing();
    game.score = 30;
    game.state = GameState::GameOver;
    game.bullets = vec![Bullet { pos: (100, 100), velocity: (16, 0) }];
    let action = game.key_down_event(Key::Space);
    assert_eq!(action, Action::Nothing);
    assert_eq!(game.state, GameState::Menu);
    assert_eq!(game.score, 0);
    assert_eq!(game.player, Player::new(400_000, 240_000));
    assert_eq!(game.enemies, first_roster());
    assert!(game.bullets.is_empty());
}

#[test]
fn fire_in_menu_is_ignored() {
    let mut game = session();
    let before = snapshot(&game);
    for event in [
        InputEvent::FirePressed,
        InputEvent::JumpPressed,
        InputEvent::MoveLeftPressed,
        InputEvent::MoveRightPressed,
        InputEvent::MoveLeftReleased,
        InputEvent::MoveRightReleased,
    ] {
        assert_eq!(game.handle_input(event), Action::Nothing);
    }
    assert_eq!(snapshot(&game), before);
}

#[test]
fn walking_keys_set_velocity_and_facing() {
    let mut game = playing();
    let _ = game.key_down_event(Key::Left);
    assert_eq!(game.player.velocity.0, -5_000);
    assert!(!game.player.view_right);
    let _ = game.key_down_event(Key::Right);
    assert_eq!(game.player.velocity.0, 5_000);
    assert!(game.player.view_right);
    // letting go of the other direction changes nothing
    game.key_up_event(Key::Left);
    assert_eq!(game.player.velocity.0, 5_000);
    game.key_up_event(Key::Right);
    assert_eq!(game.player.velocity.0, 0);
    assert!(game.player.view_right);
    let _ = game.key_down_event(Key::Left);
    game.key_up_event(Key::Right);
    assert_eq!(game.player.velocity.0, -5_000);
    game.key_up_event(Key::Left);
    assert_eq!(game.player.velocity.0, 0);
}

#[test]
fn jump_needs_no_vertical_velocity() {
    let mut game = playing_in_the_open();
    let _ = game.key_down_event(Key::Up);
    assert_eq!(game.player.velocity.1, -10_416);
    let _ = game.key_down_event(Key::Up);
    assert_eq!(game.player.velocity.1, -10_416);
    game.player.velocity.1 = 3;
    let _ = game.handle_input(InputEvent::JumpPressed);
    assert_eq!(game.player.velocity.1, 3);
    game.update(16_667);
    assert_eq!(game.player.velocity.1, 503);
    assert_eq!(game.player.pos.1, 240_503);
}

#[test]
fn jump_rises_and_shows_jumping() {
    let mut game = playing();
    let _ = game.handle_input(InputEvent::JumpPressed);
    game.update(16_667);
    assert_eq!(game.player.velocity.1, -9_916);
    assert_eq!(game.player.pos.1, 230_084);
    assert_eq!(game.player.state(), PlayerState::Jumping);
}

#[test]
fn fire_leaves_above_the_feet_the_way_the_player_faces() {
    let mut game = playing();
    let _ = game.key_down_event(Key::Space);
    assert_eq!(game.bullets, vec![Bullet { pos: (400_000, 212_500), velocity: (8_333, 0) }]);
    let _ = game.key_down_event(Key::Left);
    let _ = game.key_down_event(Key::Space);
    assert_eq!(game.bullets[1], Bullet { pos: (400_000, 212_500), velocity: (-8_333, 0) });
    assert_eq!(game.bullets.len(), 2);
    let mut coarse = Game::new(&level_one(), 1600, 960).unwrap();
    let _ = coarse.handle_input(InputEvent::StartPressed);
    let _ = coarse.handle_input(InputEvent::FirePressed);
    assert_eq!(coarse.bullets, vec![Bullet { pos: (800, 480 - 55), velocity: (16, 0) }]);
}

#[test]
fn keys_mean_what_the_state_says() {
    assert_eq!(key_pressed(GameState::Menu, 0, Key::Space), Some(InputEvent::StartPressed));
    assert_eq!(key_pressed(GameState::Menu, 0, Key::Return), Some(InputEvent::ConfirmPressed));
    assert_eq!(key_pressed(GameState::Menu, 0, Key::Up), Some(InputEvent::MenuUp));
    assert_eq!(key_pressed(GameState::Menu, 0, Key::Down), Some(InputEvent::MenuDown));
    assert_eq!(key_pressed(GameState::Menu, 0, Key::Left), Some(InputEvent::MenuLeft));
    assert_eq!(key_pressed(GameState::Menu, 0, Key::Right), Some(InputEvent::MenuRight));
    assert_eq!(key_pressed(GameState::Play, 0, Key::Space), Some(InputEvent::FirePressed));
    assert_eq!(key_pressed(GameState::Play, 0, Key::Up), Some(InputEvent::JumpPressed));
    assert_eq!(key_pressed(GameState::Play, 0, Key::Left), Some(InputEvent::MoveLeftPressed));
    assert_eq!(key_pressed(GameState::Play, 0, Key::Right), Some(InputEvent::MoveRightPressed));
    assert_eq!(key_pressed(GameState::Play, 0, Key::Down), None);
    assert_eq!(key_pressed(GameState::Play, 0, Key::Return), None);
    assert_eq!(key_pressed(GameState::GameOver, 0, Key::Space), Some(InputEvent::StartPressed));
    assert_eq!(key_pressed(GameState::GameOver, 0, Key::Return), None);
    assert_eq!(key_pressed(GameState::GameOver, 0, Key::Left), None);
    assert_eq!(key_pressed(GameState::Menu, 1, Key::Return), Some(InputEvent::ResizeChosen));
    assert_eq!(key_pressed(GameState::Menu, 2, Key::Return), Some(InputEvent::QuitChosen));
    assert_eq!(key_pressed(GameState::Menu, 3, Key::Return), None);
    assert_eq!(key_pressed(GameState::Menu, 2, Key::Space), Some(InputEvent::StartPressed));
    assert_eq!(key_pressed(GameState::Play, 1, Key::Return), None);
    assert_eq!(key_released(GameState::Play, Key::Left), Some(InputEvent::MoveLeftReleased));
    assert_eq!(key_released(GameState::Play, Key::Right), Some(InputEvent::MoveRightReleased));
    assert_eq!(key_released(GameState::Play, Key::Space), None);
    assert_eq!(key_released(GameState::Menu, Key::Left), None);
    assert_eq!(key_released(GameState::GameOver, Key::Right), None);
}

#[test]
fn menu_selection_stays_within_its_entries() {
    let mut game = session();
    let _ = game.key_down_event(Key::Up);
    assert_eq!(game.selected_menu_option, 0);
    let _ = game.key_down_event(Key::Down);
    assert_eq!(game.selected_menu_option, 1);
    let _ = game.key_down_event(Key::Down);
    let _ = game.key_down_event(Key::Down);
    assert_eq!(game.selected_menu_option, 2);
    let _ = game.key_down_event(Key::Up);
    assert_eq!(game.selected_menu_option, 1);
    assert_eq!(game.state, GameState::Menu);
}

#[test]
fn window_size_is_chosen_on_the_second_entry_only() {
    let mut game = session();
    let _ = game.key_down_event(Key::Right);
    assert_eq!(game.selected_window_size, 0);
    let _ = game.key_down_event(Key::Down);
    let _ = game.key_down_event(Key::Left);
    assert_eq!(game.selected_window_size, 0);
    for expected in [1, 2, 3, 3] {
        let _ = game.key_down_event(Key::Right);
        assert_eq!(game.selected_window_size, expected);
    }
    let _ = game.key_down_event(Key::Left);
    assert_eq!(game.selected_window_size, 2);
    let _ = game.key_down_event(Key::Down);
    let _ = game.key_down_event(Key::Left);
    assert_eq!(game.selected_window_size, 2);
    // moving the selection alone leaves the window as it is
    assert_eq!((game.window_width, game.window_height, game.block_size), (WIDTH, HEIGHT, BS));
}

#[test]
fn confirm_acts_on_the_selected_entry() {
    let mut game = session();
    let _ = game.key_down_event(Key::Down);
    assert_eq!(game.key_down_event(Key::Return), Action::ResizeWindow(800, 480));
    let _ = game.key_down_event(Key::Right);
    let _ = game.key_down_event(Key::Right);
    assert_eq!(game.key_down_event(Key::Return), Action::ResizeWindow(1280, 720));
    assert_eq!(game.state, GameState::Menu);
    let _ = game.key_down_event(Key::Down);
    assert_eq!(game.key_down_event(Key::Return), Action::Quit);
    assert_eq!(game.state, GameState::Menu);
    let _ = game.key_down_event(Key::Up);
    let _ = game.key_down_event(Key::Up);
    assert_eq!(game.key_down_event(Key::Return), Action::Nothing);
    assert_eq!(game.state, GameState::Play);
    // the menu's selections outlive the attempt
    assert_eq!(game.selected_window_size, 2);
}

#[test]
fn chosen_window_size_is_stored_with_its_block_size() {
    let mut game = session();
    let before = snapshot(&game);
    game.selected_window_size = 2;
    assert_eq!(game.handle_input(InputEvent::ResizeChosen), Action::ResizeWindow(1280, 720));
    assert_eq!(game.window_width, 1_280_000);
    assert_eq!(game.window_height, 720_000);
    assert_eq!(game.block_size, 40_000);
    assert!(game.is_well_formed());
    // nothing else has changed yet
    assert_eq!(game.player, before.2);
    assert_eq!(game.enemies, before.3);
    assert_eq!(game.state, GameState::Menu);
    // the next attempt is placed by the new window
    let _ = game.handle_input(InputEvent::StartPressed);
    assert_eq!(game.player.pos, (640_000, 360_000));
    assert_eq!(game.enemies, create_enemies(1_280_000, 720_000, 40_000));
    assert_eq!(game.enemies[0].pos, (160_000, 360_000));
    game.selected_window_size = 3;
    // in play the choice is ignored
    assert_eq!(game.handle_input(InputEvent::ResizeChosen), Action::Nothing);
    assert_eq!(game.block_size, 40_000);
}

#[test]
fn confirm_begins_play_whatever_the_menu_shows() {
    let mut game = session();
    game.selected_menu_option = 2;
    game.selected_window_size = 1;
    game.score = 5;
    assert_eq!(game.handle_input(InputEvent::ConfirmPressed), Action::Nothing);
    assert_eq!(game.state, GameState::Play);
    assert_eq!(game.score, 0);
    assert_eq!(game.selected_menu_option, 2);
    let mut other = session();
    assert_eq!(other.handle_input(InputEvent::ResizeChosen), Action::ResizeWindow(800, 480));
    assert_eq!(other.handle_input(InputEvent::QuitChosen), Action::Quit);
    assert_eq!(other.state, GameState::Menu);
    let mut play = playing();
    assert_eq!(play.handle_input(InputEvent::QuitChosen), Action::Nothing);
    assert_eq!(play.handle_input(InputEvent::ResizeChosen), Action::Nothing);
    assert_eq!(play.state, GameState::Play);
}

#[test]
fn score_grows_by_ten_for_each_enemy_in_a_tick() {
    let mut game = playing();
    game.enemies = vec![Enemy::new((150_000, 50_000), (0, 0)), Enemy::new((600_000, 50_000), (0, 0))];
    game.bullets = vec![
        Bullet { pos: (140_000, 50_000), velocity: (8_333, 0) },
        Bullet { pos: (590_000, 50_000), velocity: (8_333, 0) },
    ];
    game.update(0);
    assert_eq!(game.score, 20);
    assert!(game.enemies.is_empty());
    assert!(game.bullets.is_empty());
    assert_eq!(game.bubbles.len(), 2);
    assert_eq!(game.state, GameState::Play);
}

#[test]
fn limits_are_told_before_a_tick() {
    let mut game = playing();
    assert!(game.is_within_limits());
    game.player.pos.1 = -1_152_921_504_606_846_977;
    assert!(!game.is_within_limits());
    game.player.pos.1 = -1_152_921_504_606_846_976;
    assert!(game.is_within_limits());
    game.score = 2_000_000_001;
    assert!(!game.is_within_limits());
    game.score = 2_000_000_000;
    game.bullets.push(Bullet { pos: (0, 0), velocity: (1_152_921_504_606_846_977, 0) });
    assert!(!game.is_within_limits());
    game.bullets.clear();
    game.bubbles.push(Bubble::new((i64::MAX, 0), (0, 0)));
    assert!(!game.is_within_limits());
    assert!(game.is_well_formed());
    game.bubbles[0].animator.frame = 8;
    assert!(!game.is_well_formed());
    game.bubbles.clear();
    assert!(game.is_well_formed());
    game.block_size = BS + 1;
    assert!(!game.is_well_formed());
    game.block_size = BS;
    game.window_height = 0;
    assert!(!game.is_well_formed());
    game.window_height = HEIGHT;
    game.window_sizes.push((40_000, 480));
    assert!(!game.is_well_formed());
    let _ = game.window_sizes.pop();
    game.selected_menu_option = 3;
    assert!(!game.is_well_formed());
    game.selected_menu_option = 2;
    assert!(game.is_well_formed());
    game.score = -1;
    assert!(!game.is_well_formed());
}
