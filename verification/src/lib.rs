//! Administrative control plane for a token-like asset: a role-based
//! authority ledger, a time-locked token escrow, a delayed upgrade
//! scheduler, and a listing configuration record, each verified against an
//! explicit contract.
//!
//! The host environment loads each persisted record, resolves the signing
//! caller, and reads the trusted clock; the functions here take those as
//! plain values, validate every precondition before any mutation, and
//! either produce the complete new record or report the first failing check
//! with the record untouched.

pub mod account;
pub mod error;
pub mod metadata;
pub mod pump_fun;
pub mod security;
pub mod token_economy;
pub mod upgradable;
