//! Launch orchestration core of a game-client launcher: the catalog data
//! model, mod-source path resolution, progress/output event routing and the
//! single-session supervisor state machine.

pub mod catalog;
pub mod events;
pub mod resolver;
pub mod session;
