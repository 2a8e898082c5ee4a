//! The business rules: the account entity, what identifies and dates it, and
//! the failures its operations report.

pub mod clock;
pub mod entities;
pub mod errors;
pub mod identity;
pub mod names;
