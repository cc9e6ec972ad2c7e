//! Simulation core of a small top-down arcade game: a player dodges and
//! parries the projectiles thrown by waves of enemies.
//!
//! Every quantity is an integer. Lengths are in thousandths of an arena
//! unit, times in milliseconds, the health of enemies and the damage of
//! projectiles in thousandths of a point. The arena is a square of 800
//! units; y grows downward.
//!
//! [`level::Level`] owns the game and runs its tick. What a tick makes of
//! the game is stated by relations between the game before and after it;
//! they hold whatever the clock reads and the random draws give. The
//! functions that take a reading or a draw as an argument say exactly what
//! they return for it.

pub mod vectors;
pub mod collision;
pub mod steering;
pub mod powers;
pub mod limbs;
pub mod clock;
pub mod random;
pub mod animation;
pub mod charge;
pub mod waves;
pub mod player;
pub mod enemy;
pub mod level;
