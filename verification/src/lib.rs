//! Relay of messages between Discord and Slack channels that have been
//! linked: the events that are relayed, the store that correlates channels
//! and messages of the two platforms, the reading of what Slack pushes, the
//! delivery to Discord, and the commands that link and unlink channels.
//!
//! Nothing here talks to a network. Each operation is worked out as the
//! commands and calls to make, in order, and what comes back decides how it
//! goes on; the caller makes them. The queues between reading and delivery
//! are tokio's.

pub mod bridge;
pub mod commands;
pub mod dispatch;
pub mod event;
pub mod identity;
pub mod ingest;
pub mod runs;
pub mod store;
pub mod text;
