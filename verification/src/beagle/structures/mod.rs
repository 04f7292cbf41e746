//! What the studies work on.

pub mod base;
pub mod individual;
