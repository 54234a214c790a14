//! The verified core of a small 2D game engine: key codes, integer points, colors, the
//! registry of active components and global variables behind the engine's command
//! context, the texture table, the window's event dispatch, and video frame packing.
//! Rendering, windowing, timing and floating-point geometry live in the runtime that
//! drives this core.
pub mod assets;
pub mod attributes;
pub mod commands;
pub mod components;
pub mod events;
pub mod math;
pub mod physics;
pub mod prelude;
pub mod util;
pub mod video;

pub use commands::{Commands, Engine};
