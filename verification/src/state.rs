//! What is kept on the ledger.

pub mod release;
