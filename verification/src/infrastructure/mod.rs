//! What the ledger needs from its surroundings.

pub mod config;

pub use config::Config;
