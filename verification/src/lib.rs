//! Tile-grid kinematics and collision resolution for a side-scrolling platformer.
//!
//! A session owns one player, rosters of enemies and projectiles, hit effects and a
//! static occupancy grid, and is in one of three states: menu, play, over. In play
//! every tick moves the objects against the grid, lets the spawn timer and the
//! enemies add new ones, and resolves the collisions between them.
//!
//! All quantities are integers. Positions and velocities are counted in world units.
//! A session is made for a window of a given size in world units; the block size, a
//! thirty-second of the window's width, says how many units make one tile. Speeds,
//! offsets and thresholds are fixed fractions of the block size, rounded toward zero:
//! gravity is a fiftieth of it, so at block sizes under 50 nothing falls, and from 50
//! on every fraction is positive ([`scale`] lists each of them). The menu's window
//! sizes are in pixels and count as 1000 units each, which gives the usual window of
//! 800 by 480 pixels a block size of 25 000. Time is counted in microseconds.
//!
//! Every type has a mathematical model, its view, and every executable function
//! says in its contract what it does to the models. [`model`] holds the model of a
//! whole session and of everything that changes it; [`theorems`] holds what follows
//! for every session.
//!
//! Some rules, for the record:
//! - A body that is rejected sideways stops if it is the player and turns round
//!   otherwise; vertically every body stops where it lands. Nothing bounces upward.
//! - The animation timer keeps counting while its owner does not walk, up to the
//!   frame interval, where it holds.
//! - A bullet strikes at most one target in a tick: the first it touches, in the
//!   order of the roster.
//! - A hit effect plays its animation once and is gone.
//! - The only draws of chance are those that make enemies fire. Every function that
//!   depends on them has a twin that takes the draws as an argument.

pub mod animator;
pub mod body;
pub mod bubble;
pub mod bullet;
pub mod collisions;
pub mod enemy;
pub mod enemy_bullet;
pub mod game;
pub mod grid;
pub mod input;
pub mod kinematics;
pub mod model;
pub mod player;
pub mod scale;
pub mod seqs;
pub mod theorems;
pub mod ticking;
pub mod utils;
