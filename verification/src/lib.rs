//! A multibody dynamics model assembled as a graph of connected components
//! (a base, bodies and joints), and its resolution into an ordered system
//! that a dynamics solver can consume.

pub mod multibody;
pub mod scalar;
pub mod ui;
