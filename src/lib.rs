//! Game logic of a small 2D arcade shooter, on an integer model of the plane.
//!
//! Lengths are measured in milli-pixels and time in milliseconds, so a speed
//! given in pixels per second moves an entity by `speed * dt_ms` units.
//! The host engine samples input, renders and runs the frame loop; this crate
//! decides what every frame does to the player, the projectiles and the HUD.

pub mod arith;
pub mod game;
pub mod geometry;
pub mod hud;
pub mod movement;
pub mod pointer;
pub mod shot;
pub mod wrap;

pub use arith::floor_sqrt;
pub use game::{FrameError, FrameInput, Game};
pub use geometry::{
    screen_to_world_coords, world_to_screen_coords, Point, COORD_LIMIT, UNITS_PER_PIXEL,
};
pub use hud::{decimal_string, fps_text, shot_count_text};
pub use movement::{direction_step, key_direction, player_movement, Keys, PLAYER_SPEED};
pub use pointer::MousePos;
pub use shot::{advance_bullet, aim_direction, fire_edge, shot_velocity, Bullet, BULLET_SPEED};
pub use wrap::wrap_position;
