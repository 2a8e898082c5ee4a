pub mod account;

pub use account::Account;
