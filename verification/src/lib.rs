//! A minimal custodial vault for a single fungible reward token.
//!
//! The vault is created either by accepting a caller-supplied asset of the
//! expected kind, or by minting a fresh bounded supply for itself; afterwards
//! its balance only ever decreases, through `claim_reward`.

pub mod arena;
pub mod vault;
