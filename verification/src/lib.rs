//! Per-node protocol engine of a simulated federated-learning fleet, together
//! with the deployment compiler that prepares the fleet's configuration.
//!
//! Each simulated node runs one middleware instance (bootstrap, registration
//! and broadcast routing) and one role instance (aggregator or trainer). Both
//! are reactive state machines: an event comes in, at most one derived event
//! goes out, and tasks for the simulator are queued. Every transition is
//! specified by a mathematical step function over the machine's view, and the
//! executable code is proved to follow it.

pub mod protocol;
pub mod motherboard;
pub mod moms;
pub mod roles;
pub mod fryer;
pub mod text;
pub mod copies;
pub mod search;
pub mod random;
pub mod beagle;
