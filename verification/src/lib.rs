//! Game rules for a physics sandbox in which the player fires heavy
//! projectiles into stacks of cubes: level ordering and progression,
//! the firing decision, gravity presets, level layouts and the
//! sound-sample bookkeeping.

pub mod firing;
pub mod game;
pub mod gravity;
pub mod text;
pub mod layout;
pub mod levels;
pub mod noise;
pub mod palette;
pub mod progress;
pub mod random;
pub mod retime;
pub mod sound;
