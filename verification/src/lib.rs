//! Keeps one DNS record of a provider pointed at this machine's public address.

pub mod client;
pub mod config;
pub mod laws;
pub mod reconciler;
pub mod record;
pub mod shutdown;
