pub mod account_repository;

pub use account_repository::LocalAccountRepository;
