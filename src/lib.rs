//! Status aggregation and interactive control for a set of supervised bot
//! processes: the snapshot builder, the action catalogue and the
//! dashboard's state machine, each with its contract.

pub mod actions;
pub mod app;
pub mod laws;
pub mod process;
pub mod state;
pub mod text;
