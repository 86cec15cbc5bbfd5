//! The rules of a tile-based platformer in which a snowman melts in the sun:
//! level files and their validation, the world that a level builds, the melt
//! stages, the movement controller and the respawn and progression machine.
//!
//! Lengths, speeds and times are whole millionths of a world unit or of a
//! second (see [`math::UNIT`]); nothing here is floating point.

pub mod camera;
pub mod day_night;
pub mod debug;
pub mod instruction_screen;
pub mod levels;
pub mod math;
pub mod player;
pub mod text;
pub mod timer;
pub mod win;
