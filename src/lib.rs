//! BumbleBees: the simulation core of a wave-based arcade shooter.
//!
//! Positions are integers in thousandths of a pixel (see
//! [`constants::PIXEL`]), time is counted in milliseconds and speeds in
//! pixels per second, so that every per-frame transition is exact and can be
//! stated and proved.
pub mod bullet;
pub mod collision;
pub mod constants;
pub mod enemy;
pub mod game;
pub mod player;
pub mod wave;

pub use bullet::Bullet;
pub use collision::{check_collision, process_collisions};
pub use enemy::{Enemy, EnemyType};
pub use game::{GameState, Input, Simulation, TickReport};
pub use wave::generate_wave;
