//! A verified core for a 2D tile-world simulation: a player-controlled
//! actor moves over a camera-scrolled tile map, colliding with static
//! solid tiles, while a door and a looping background run their own
//! timers, and a small set of values is exchanged with a host
//! environment through a thread-confined context and a shared state.
//!
//! All world coordinates are integers in millipixels (one thousandth of
//! a pixel), so movement, collision and camera arithmetic are exact.
//! Rendering, input sampling and host I/O live outside this crate and
//! hand it plain values.

pub mod animation;
pub mod arith;
pub mod camera;
pub mod context;
pub mod door;
pub mod geometry;
pub mod grid;
pub mod player;
pub mod shared;
