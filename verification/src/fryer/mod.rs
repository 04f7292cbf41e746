//! The deployment compiler: it turns a declarative description of clusters
//! into the concrete list of named nodes, and into the description of the
//! network platform that the simulator runs them on.

pub mod fryer;
pub mod platformer;
pub mod profiles_handler;
pub mod structures;
