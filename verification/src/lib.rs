//! A minimal account-registry library: addresses register a wallet record,
//! may protect it with a password digest, rotate that password, and query a
//! locally tracked balance. Every operation checks that the caller acts on
//! the account bound to its own identity.

pub mod contract;
pub mod laws;
pub mod msg;
pub mod state;
