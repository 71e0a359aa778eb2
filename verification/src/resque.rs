//! The dashboard's view of a Resque installation: which commands it sends to
//! the store, in which order, and what it makes of the answers.
//!
//! Nothing here talks to a store. Every operation is split into the commands
//! to send and the reading of the replies, so that a host can carry the
//! commands over whatever connection it has.

pub mod command;
pub mod failed;
pub mod json;
pub mod queue;
pub mod stats;
pub mod workers;
