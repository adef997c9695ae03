use bobble_clone::bubble::Bubble;
use bobble_clone::bullet::Bullet;
use bobble_clone::enemy::Enemy;
use bobble_clone::enemy_bullet::EnemyBullet;
use bobble_clone::game::{Game, GameState};
use bobble_clone::grid::{level_one, GridConfig};
use bobble_clone::input::Key;
use bobble_clone::player::Player;
use bobble_clone::scale::{FIRE_THRESHOLD, SPAWN_INTERVAL};
use bobble_clone::utils::{
    advance_objects, draw_rolls, fire_enemy_bullets, maybe_fire, move_bubbles, move_bullets,
    move_enemies, move_enemy_bullets, run_spawn_timer, update_objects,
};

const BS: i64 = 50;

fn open_session() -> Game {
    let config = GridConfig { vertical_lines: vec![], horizontal_lines: vec![] };
    let mut game = Game::new(&config, 32 * BS, 18 * BS).unwrap();
    game.state = GameState::Play;
    game.enemies.clear();
    game
}

#[test]
fn bullet_moves_in_a_straight_line() {
    let mut bullet = Bullet { pos: (100, 100), velocity: (16, -3) };
    bullet.update();
    assert_eq!(bullet.pos, (116, 97));
    assert_eq!(bullet.velocity, (16, -3));
    let mut shot = EnemyBullet { pos: (100, 100), velocity: (-16, 0) };
    shot.update();
    shot.update();
    assert_eq!(shot.pos, (68, 100));
}

#[test]
fn bullet_ignores_tiles() {
    let mut game = Game::new(&level_one(), 32 * BS, 18 * BS).unwrap();
    // across the left wall, columns 0 and 1
    game.bullets.push(Bullet { pos: (120, 100), velocity: (-16, 0) });
    for _ in 0..7 {
        move_bullets(&mut game);
    }
    assert_eq!(game.bullets, vec![Bullet { pos: (8, 100), velocity: (-16, 0) }]);
    move_bullets(&mut game);
    assert!(game.bullets.is_empty());
}

#[test]
fn bullet_off_screen_on_each_side() {
    assert!(!Bullet { pos: (0, 0), velocity: (0, 0) }.is_off_screen(BS));
    assert!(!Bullet { pos: (1600, 900), velocity: (0, 0) }.is_off_screen(BS));
    assert!(Bullet { pos: (-1, 10), velocity: (0, 0) }.is_off_screen(BS));
    assert!(Bullet { pos: (1601, 10), velocity: (0, 0) }.is_off_screen(BS));
    assert!(Bullet { pos: (10, -1), velocity: (0, 0) }.is_off_screen(BS));
    assert!(Bullet { pos: (10, 901), velocity: (0, 0) }.is_off_screen(BS));
    assert!(!EnemyBullet { pos: (1600, 900), velocity: (0, 0) }.is_off_screen(BS));
    assert!(EnemyBullet { pos: (1601, 900), velocity: (0, 0) }.is_off_screen(BS));
    assert!(EnemyBullet { pos: (3, -1), velocity: (0, 0) }.is_off_screen(BS));
}

#[test]
fn bullet_is_removed_in_the_tick_it_leaves() {
    let mut game = open_session();
    game.bullets = vec![
        Bullet { pos: (1590, 100), velocity: (16, 0) },
        Bullet { pos: (100, 100), velocity: (16, 0) },
        Bullet { pos: (5, 100), velocity: (-16, 0) },
        Bullet { pos: (100, 895), velocity: (0, 10) },
        Bullet { pos: (200, 5), velocity: (0, -10) },
        Bullet { pos: (1584, 100), velocity: (16, 0) },
    ];
    move_bullets(&mut game);
    assert_eq!(
        game.bullets,
        vec![
            Bullet { pos: (116, 100), velocity: (16, 0) },
            Bullet { pos: (1600, 100), velocity: (16, 0) },
        ]
    );
    move_bullets(&mut game);
    assert_eq!(game.bullets, vec![Bullet { pos: (132, 100), velocity: (16, 0) }]);
}

#[test]
fn enemy_projectile_is_removed_in_the_tick_it_leaves() {
    let mut game = open_session();
    game.enemy_bullets = vec![
        EnemyBullet { pos: (10, 100), velocity: (-16, 0) },
        EnemyBullet { pos: (20, 100), velocity: (-16, 0) },
    ];
    move_enemy_bullets(&mut game);
    assert_eq!(game.enemy_bullets, vec![EnemyBullet { pos: (4, 100), velocity: (-16, 0) }]);
    move_enemy_bullets(&mut game);
    assert!(game.enemy_bullets.is_empty());
}

#[test]
fn enemies_move_and_those_off_screen_leave() {
    let mut game = open_session();
    game.enemies = vec![
        Enemy::new((100, 100), (2, 0)),
        Enemy::new((1750, 100), (0, 0)),
        Enemy::new((300, -40), (0, 0)),
        Enemy::new((1595, 100), (10, 0)),
    ];
    move_enemies(&mut game);
    assert_eq!(
        game.enemies,
        vec![Enemy::new((102, 101), (2, 1)), Enemy::new((1595, 101), (-10, 1))]
    );
}

#[test]
fn spawn_timer_counts_down() {
    let mut game = open_session();
    assert_eq!(game.enemy_spawn_timer, SPAWN_INTERVAL);
    run_spawn_timer(&mut game, 16_667);
    assert_eq!(game.enemy_spawn_timer, 9_983_333);
    assert!(game.enemies.is_empty());
    run_spawn_timer(&mut game, 9_983_332);
    assert_eq!(game.enemy_spawn_timer, 1);
    assert!(game.enemies.is_empty());
}

#[test]
fn spawn_timer_spawns_at_zero_and_restarts() {
    let mut game = open_session();
    game.enemy_spawn_timer = 500;
    run_spawn_timer(&mut game, 500);
    assert_eq!(game.enemy_spawn_timer, 10_000_000);
    assert_eq!(game.enemies, vec![Enemy::new((100_000, 100_000), (1_000, 0))]);
    game.enemy_spawn_timer = 3;
    run_spawn_timer(&mut game, 1_000_000);
    assert_eq!(game.enemy_spawn_timer, 10_000_000);
    assert_eq!(game.enemies[1], Enemy::new((150_000, 100_000), (1_000, 0)));
}

#[test]
fn spawn_position_depends_on_roster_size() {
    let mut game = Game::new(&level_one(), 800_000, 480_000).unwrap();
    game.reset();
    assert_eq!(game.enemies.len(), 3);
    game.enemy_spawn_timer = 0;
    run_spawn_timer(&mut game, 0);
    assert_eq!(game.enemies.len(), 4);
    assert_eq!(game.enemies[3], Enemy::new((250_000, 100_000), (1_000, 0)));
    // the place depends on the count alone, not on the window
    let mut wide = Game::new(&level_one(), 1_920_000, 1_080_000).unwrap();
    wide.enemy_spawn_timer = 0;
    run_spawn_timer(&mut wide, 0);
    assert_eq!(wide.enemies[3], Enemy::new((250_000, 100_000), (1_000, 0)));
}

#[test]
fn enemy_fires_below_threshold_only() {
    let enemy = Enemy::new((300, 400), (5, 2));
    assert_eq!(FIRE_THRESHOLD, 21_474_836);
    assert!(maybe_fire(&enemy, 0, BS).is_some());
    assert!(maybe_fire(&enemy, 21_474_835, BS).is_some());
    assert!(maybe_fire(&enemy, 21_474_836, BS).is_none());
    assert!(maybe_fire(&enemy, u32::MAX, BS).is_none());
}

#[test]
fn projectile_flies_the_way_the_enemy_walks() {
    let right = maybe_fire(&Enemy::new((300, 400), (5, 2)), 0, BS).unwrap();
    assert_eq!(right, EnemyBullet { pos: (300, 400), velocity: (16, 0) });
    let left = maybe_fire(&Enemy::new((300, 400), (-1, 2)), 0, BS).unwrap();
    assert_eq!(left, EnemyBullet { pos: (300, 400), velocity: (-16, 0) });
    let still = maybe_fire(&Enemy::new((7, 9), (0, 0)), 0, 25_000).unwrap();
    assert_eq!(still, EnemyBullet { pos: (7, 9), velocity: (-8_333, 0) });
}

#[test]
fn each_enemy_fires_on_its_own_draw() {
    let mut game = open_session();
    game.enemies = vec![
        Enemy::new((100, 100), (2, 0)),
        Enemy::new((200, 100), (2, 0)),
        Enemy::new((300, 100), (-2, 0)),
    ];
    game.enemy_bullets = vec![EnemyBullet { pos: (1, 1), velocity: (16, 0) }];
    fire_enemy_bullets(&mut game, &vec![0, u32::MAX, 5]);
    assert_eq!(
        game.enemy_bullets,
        vec![
            EnemyBullet { pos: (1, 1), velocity: (16, 0) },
            EnemyBullet { pos: (100, 100), velocity: (16, 0) },
            EnemyBullet { pos: (300, 100), velocity: (-16, 0) },
        ]
    );
    assert_eq!(game.enemies.len(), 3);
}

#[test]
fn hit_effect_rises_and_expires_after_eight_frames() {
    let mut bubble = Bubble::new((100, 100), (3, -2));
    assert!(!bubble.is_expired());
    for n in 1..=7 {
        bubble.update(100_000);
        assert_eq!(bubble.pos, (100, 100 - 2 * n));
        assert_eq!(bubble.animator.frame, n as usize);
        assert!(!bubble.is_expired());
    }
    bubble.update(99_999);
    assert!(!bubble.is_expired());
    bubble.update(1);
    assert!(bubble.is_expired());
    assert_eq!(bubble.animator.frame, 0);
    assert_eq!(bubble.pos, (100, 82));
}

#[test]
fn expired_effects_leave_the_session() {
    let mut game = open_session();
    game.bubbles = vec![Bubble::new((100, 100), (0, -2)), Bubble::new((200, 100), (0, -2))];
    game.bubbles[0].animator.frame = 7;
    move_bubbles(&mut game, 100_000);
    assert_eq!(game.bubbles.len(), 1);
    assert_eq!(game.bubbles[0].pos, (200, 98));
    assert_eq!(game.bubbles[0].animator.frame, 1);
}

#[test]
fn first_half_of_tick_moves_everything_in_order() {
    let mut game = open_session();
    game.player = Player::new(800, 100);
    game.enemies = vec![Enemy::new((100, 100), (2, 0))];
    game.bullets = vec![Bullet { pos: (500, 500), velocity: (16, 0) }];
    game.bubbles = vec![Bubble::new((100, 100), (0, -2))];
    game.enemy_bullets = vec![EnemyBullet { pos: (50, 50), velocity: (16, 0) }];
    game.enemy_spawn_timer = 10;
    advance_objects(&mut game, 16_667);
    assert_eq!(game.player.pos, (800, 101));
    assert_eq!(game.player.velocity, (0, 1));
    // in a world this small the spawned enemy appears beyond the slack and is gone
    assert_eq!(game.enemies, vec![Enemy::new((102, 101), (2, 1))]);
    assert_eq!(game.enemy_spawn_timer, 10_000_000);
    assert_eq!(game.bullets, vec![Bullet { pos: (516, 500), velocity: (16, 0) }]);
    assert_eq!(game.bubbles[0].pos, (100, 98));
    assert_eq!(game.bubbles[0].animator.timer, 16_667);
    // the enemies' projectiles wait for the second half
    assert_eq!(game.enemy_bullets, vec![EnemyBullet { pos: (50, 50), velocity: (16, 0) }]);
}

#[test]
fn one_draw_is_made_for_each_enemy() {
    assert_eq!(draw_rolls(0).len(), 0);
    assert_eq!(draw_rolls(7).len(), 7);
    let many = draw_rolls(4_000);
    assert_eq!(many.len(), 4_000);
    // draws differ from one another
    assert!(many.iter().any(|&roll| roll != many[0]));
}

#[test]
fn whole_tick_ends_as_some_draws_say() {
    for _ in 0..200 {
        let mut game = open_session();
        game.player = Player::new(800, 100);
        game.enemies = (0..40).map(|i| Enemy::new((100 + 10 * i, 100), (2, 0))).collect();
        game.enemy_bullets = vec![EnemyBullet { pos: (1590, 50), velocity: (16, 0) }];
        assert!(game.is_well_formed() && game.is_within_limits());
        update_objects(&mut game, 16_667);
        assert_eq!(game.enemies.len(), 40);
        assert_eq!(game.player.pos, (800, 101));
        assert!(game.enemy_bullets.len() <= 40);
        for (i, enemy) in game.enemies.iter().enumerate() {
            assert_eq!(*enemy, Enemy::new((102 + 10 * i as i64, 101), (2, 1)));
        }
        // a projectile fired in this tick has flown once from where its enemy stands
        for shot in &game.enemy_bullets {
            assert_eq!(shot.velocity, (16, 0));
            assert_eq!(shot.pos.1, 101);
            assert_eq!((shot.pos.0 - 16 - 102) % 10, 0);
        }
        assert!(game.is_well_formed());
    }
}

#[test]
fn enemies_fire_about_five_times_in_a_thousand() {
    let mut fired = 0;
    for _ in 0..50 {
        let mut game = open_session();
        game.player = Player::new(800, 100);
        game.enemies = (0..1_000).map(|i| Enemy::new((100 + i, 100), (2, 0))).collect();
        update_objects(&mut game, 0);
        fired += game.enemy_bullets.len();
    }
    // 50_000 draws at 0.005: 250 expected
    assert!(fired > 150 && fired < 350, "fired {}", fired);
}

#[test]
fn key_press_in_play_leaves_objects_alone() {
    let mut game = open_session();
    game.enemies = vec![Enemy::new((100, 100), (2, 0))];
    let _ = game.key_down_event(Key::Left);
    assert_eq!(game.enemies, vec![Enemy::new((100, 100), (2, 0))]);
    assert!(game.bullets.is_empty());
}
