//! A small ledger: named accounts in a currency, each holding a balance in
//! minor units, with guarded deposits and withdrawals.

pub mod application;
pub mod domain;
pub mod infrastructure;
pub mod storage;
