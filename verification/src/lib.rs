//! Decision core of a desktop-region compositor: a borderless window shows
//! the part of the screen that lies behind it, passed through a selectable
//! post-processing effect.
//!
//! Everything here is plain data in, plain data out. The window shell owns
//! the operating-system and GPU objects; it feeds events to this crate and
//! carries out the actions it gets back.

pub mod capture;
pub mod commands;
pub mod effects;
pub mod extend;
pub mod frame;
pub mod geometry;
pub mod imaging;
pub mod programs;
pub mod resources;
pub mod screenshot;
pub mod session;
pub mod tiles;
pub mod window;
