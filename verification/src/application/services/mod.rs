pub mod account_service;

pub use account_service::{AccountService, AccountServiceError};
