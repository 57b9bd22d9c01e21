//! Verified core of a minimal on-chain record store.
//!
//! The store keeps AI-generated metadata (summary, tags, category, confidence
//! score) keyed by a transaction hash and a submitting identity, together with
//! a global registry whose counter grows by exactly one per stored record.
//! The modules below give the data model, the deterministic address
//! derivation, the validation rules and the store/initialize operations, each
//! with a contract that pins its behaviour down.

pub mod addressing;
pub mod identity;
pub mod laws;
pub mod records;
pub mod store;
