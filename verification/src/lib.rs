//! A minimal chat relay: a shared append-only message log, per-user unread
//! accounting, and the choice of which live connections to notify.

pub mod error;
pub mod message;
pub mod log;
pub mod session;
pub mod registry;
pub mod state;
pub mod coordinator;
