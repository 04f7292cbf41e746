//! The experiment side: individuals, which are variants of a deployment
//! that a study simulates and compares, and what a study keeps about
//! itself.

pub mod individual_factory;
pub mod structures;
pub mod studies;
