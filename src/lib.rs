//! A store of independently identified graphs, each built up by atomic
//! mutations that report what changed.

pub mod graph;
pub mod laws;
pub mod store;
