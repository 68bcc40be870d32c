//! A classic snake arcade game, verified.
//!
//! The playing field is a fixed 600x400 arena. The player steers a growing
//! chain of square cells; the head advances one step per movement tick, and
//! eating the berry lengthens the chain, raises the score, and speeds the
//! game up. The round ends when the head leaves the arena or runs into the
//! chain, and a retry restores the initial state.
//!
//! The library holds the full game rules: the geometry of the arena and the
//! overlap test ([`geometry`]), the authoritative game state with its tick
//! update, berry, wall and self-collision resolution ([`game`]), and proofs
//! of the rules' general properties ([`laws`]). Rendering, key input and the
//! random number source live outside the library and talk to it through
//! plain values.

pub mod game;
pub mod geometry;
pub mod laws;
