//! Core rules of a top-down 2D survival game, verified.
//!
//! The world is modelled on integers: positions, sizes and velocities are
//! carried in tenths of a world pixel, time in milliseconds, health in tenths
//! of a health point, and unit directions in thousandths. Every per-frame
//! rule (velocity integration, box collision resolution, line-of-sight
//! occlusion, target selection, inventory arithmetic, timers) is an ordinary
//! function with a contract; the rendering front end applies the records
//! these functions return.

pub mod animals;
pub mod blocks;
pub mod components;
pub mod construct;
pub mod entities;
pub mod environment;
pub mod geom;
pub mod interaction;
pub mod inventory_ui;
pub mod items;
pub mod menu;
pub mod physics;
pub mod player;
pub mod rng;
pub mod timer;
pub mod turret;
pub mod weapons;
pub mod zombie;

pub use geom::Vec2i;
pub use geom::Vec3i;
