//! A visual entity engine for an 8x8 illuminated pad grid.
//!
//! Control events spawn, edit and retire animated entities; once per tick
//! the compositor says, for every cell, which contributions are summed.
//! Real-valued quantities are held in fixed point so that every rule of
//! the engine is stated and proved over integers.

pub mod fixed;
pub mod distance;
pub mod animation;
pub mod config;
pub mod entity;
pub mod table;
pub mod events;
pub mod scene;
pub mod compositor;
pub mod wire;
pub mod ports;
pub mod status;
