//! Lifecycle management for dynamically loaded plugins that observe the
//! administrative actions of a job-queue dashboard, together with the rules
//! by which the dashboard reads and rewrites its queues.

pub mod directory;
pub mod effect;
pub mod loader;
pub mod manager;
pub mod plugin;
pub mod resque;

pub use crate::manager::PluginManager;
pub use crate::plugin::{Action, Instance, Plugin};
