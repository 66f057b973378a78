//! An authority-gated ledger that binds content fingerprints to issuance
//! timestamps, kept in fixed-layout storage slots that a host supplies.

pub mod error;
pub mod host;
pub mod instruction;
pub mod laws;
pub mod layout;
pub mod processor;
pub mod record;
pub mod slot;
