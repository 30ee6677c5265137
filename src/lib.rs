//! A generic board model: a square grid of slots, each holding zero or one element.

pub mod text;
pub mod spaces;
pub mod space;
pub mod board;
