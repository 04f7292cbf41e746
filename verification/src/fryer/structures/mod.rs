//! The documents that the deployment compiler reads and writes.
//!
//! - `raw`: the declarative description of the clusters;
//! - `fried`: the deployment, one entry per node;
//! - `common`: what both have in common;
//! - `platform`: the network platform of the simulator.

pub mod common;
pub mod fried;
pub mod platform;
pub mod raw;
