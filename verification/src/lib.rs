//! Hexagonal grid geometry and level construction.
//!
//! The crate models a half-hex coordinate system with a zero-sum invariant,
//! derives world-space positions and beveled hexagonal prism mesh buffers
//! from it in fixed-point arithmetic, classifies tiles from bounded random
//! draws, and assembles a rectangular board of cells together with one
//! placement request per cell, all sharing a single generated mesh.

mod arith;
mod entropy;
pub mod geometry;
pub mod hex;
pub mod level;
pub mod prng;
pub mod tile;
