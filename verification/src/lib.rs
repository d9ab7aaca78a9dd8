//! A terminal Stratego-style board engine: coordinates, tiles, legal-move
//! generation, combat resolution, fog-of-war rendering and army setup.

pub mod board;
pub mod coord;
pub mod error;
pub mod piece;
pub mod render;
pub mod rules;
pub mod session;
pub mod setup;
pub mod tile;
