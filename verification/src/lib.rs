//! A local task runner: layered configuration of actions and pipelines,
//! and the planning of their execution through a shell, a batch
//! interpreter or a container build.
//!
//! The library neither reads files nor starts processes. A host hands it
//! the text of a configuration and the directory it works in, and gets a
//! [`config::TopLevelConfiguration`] from [`parsing::new_top_level`]. It
//! hands the actions of that configuration to [`executor::exec_actions`]
//! and gets a plan for each; a [`progress::Execution`] then tells it which
//! file to write or which command to run next, takes what the command
//! wrote, and keeps the log of each action.
//!
//! Every function has a contract over the mathematical models of the
//! values it works on; what holds of every configuration that is built is
//! proved in [`guarantees`].

pub mod config;
pub mod dialect;
pub mod document;
pub mod errors;
pub mod executor;
pub mod guarantees;
pub mod loglevel;
pub mod parsing;
pub mod path;
pub mod progress;
pub mod string_map;
pub mod text;
pub mod watcher;
