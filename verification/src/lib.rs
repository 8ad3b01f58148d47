//! A fungible-token ledger: balances, delegated allowances, minting, and a
//! fee/staking policy record, all backed by overflow-checked arithmetic.
//!
//! The host environment owns record storage, key derivation and signature
//! verification; it hands each operation the records it touches and is
//! responsible for serializing operations that share a record. Every state
//! transition here is total over its stated preconditions: it either applies
//! all of its mutations or, on a reported error, none of them.

pub mod counter;
pub mod erc20_token;
pub mod identity;
pub mod ledger_model;
pub mod token_quest;
