//! The use cases, the values they exchange with their callers, and the store
//! they rely on.

pub mod dto;
pub mod ports;
pub mod services;
