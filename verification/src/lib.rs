//! A first-person raycasting engine over a two-dimensional grid map,
//! computed entirely in fixed-point integer arithmetic.

pub mod fixed;
pub mod trig;
pub mod input;
pub mod frame;
pub mod grid;
pub mod cast;
pub mod ray_caster;
