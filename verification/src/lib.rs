//! Authorization core of a fungible-token ledger.
//!
//! The crate decides, for every state-changing ledger operation (mint, burn,
//! transfer, approve, freeze, admin change), whether the caller has proven the
//! right to perform it.  It combines a tagged identity/authorization model, a
//! nonce-based replay-protection registry, a domain-separated message codec
//! whose encoding is proved injective, and a signature/threshold verifier
//! built on Ed25519 and SHA-256.

pub mod admin;
pub mod allowance;
pub mod balance;
pub mod codec;
pub mod contract;
pub mod cryptography;
pub mod errors;
pub mod hashing;
pub mod host;
pub mod laws;
pub mod metadata;
pub mod nonce;
pub mod public_types;
pub mod signing;
pub mod storage_types;
pub mod testutils;
