//! Automated migration of a key server cluster from one set of servers to another.

pub mod connector;
pub mod decision;
pub mod decision_laws;
pub mod hash;
pub mod laws;
pub mod node;
pub mod node_map;
pub mod node_set;
pub mod session;
pub mod snapshot;
pub mod state;
pub mod trigger;
pub mod value_laws;
