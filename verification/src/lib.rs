//! Client-side bootstrap layer for a remote configuration-and-discovery
//! registry: it resolves which configuration key to fetch, decodes the
//! fetched payload into the application's configuration model, registers
//! the running instance for discovery, and applies live log-level changes.

pub mod bootstrap;
pub mod logging;
pub mod profile;
pub mod registrar;
pub mod types;
pub mod yaml;
