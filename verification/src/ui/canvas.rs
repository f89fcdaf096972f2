//! The graph of placed components and what is drawn between them.

pub mod edge;
pub mod events;
pub mod graph;
pub mod invariants;
pub mod node;
pub mod nodebar;
pub mod traversal;
