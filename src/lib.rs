//! Hot-reloadable WebAssembly entry point: the generation lifecycle of a
//! compiled unit and the decisions of the watcher that drives its reloads.

pub mod generation;
pub mod lifecycle;
pub mod runtime;
pub mod state;
pub mod watch;
