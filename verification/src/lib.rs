//! A developer-workflow launcher library: an incremental fuzzy picker over a
//! growing candidate set, and an idempotent convergence engine that makes
//! external goals (a cloned repository, a terminal-multiplexer session) hold.

pub mod app;
pub mod dep;
pub mod engine;
pub mod ext;
pub mod fuzzy;
pub mod picker;
pub mod pr;
pub mod repo;
pub mod repos;
pub mod resource;
pub mod tmux;
pub mod view;
