//! What the core shares with the user interface around it: edit buffers,
//! the graph of placed components, and the decisions taken on pointer
//! events.

pub mod canvas;
pub mod commands;
pub mod dummies;
pub mod modals;
pub mod mouse;
pub mod names;
