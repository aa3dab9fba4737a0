//! Synchronized video playback sessions: an in-memory store of live sessions,
//! a versioned conflict-resolution rule for client updates, and a write-back
//! scheduler that batches dirty sessions into durable storage.

pub mod auth;
mod clock;
pub mod filestore;
pub mod protocol;
pub mod record;
pub mod scheduler;
pub mod store;
pub mod text;
pub mod upload;
