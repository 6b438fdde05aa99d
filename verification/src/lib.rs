//! A small 2D physics library: point-mass "blobs" tethered to a grappling
//! hook by a spring, subject to gravity, damping, and rigid-wall
//! collisions inside a fixed rectangular arena.
//!
//! The per-tick step integrates spring, gravity, and damping acceleration
//! with semi-implicit Euler, reflects velocity off the arena walls, and
//! advances the hook's travel/anchor/detach state machine; a container
//! drives any number of independent blobs and routes input events.
//!
//! All quantities are fixed-point numbers: an `i64` holding the value in
//! thousandths of a world unit (see [`fixed::SCALE`]). Arithmetic
//! saturates at a generous cap (see [`fixed::CAP`]), so every simulation
//! step is total and the simulation never halts mid-run.

pub mod blob;
pub mod config;
pub mod fixed;
pub mod hook;
pub mod sim;
pub mod vec2;
pub mod walls;
