//! Custodial wallet ledger core.
//!
//! Users hold a balance in a default wallet, can fund it from an external
//! payment provider, and can transfer funds peer to peer. The heart of the
//! crate is the ledger engine: the primitive that mutates a wallet's balance
//! and appends one immutable transaction record, atomically. On top of it sit
//! the peer-to-peer transfer orchestrator and the funding webhook processor,
//! the only places balances change.
//!
//! All amounts and balances are fixed-point money values held in minor
//! currency units (two fractional digits, so 100 units = 1.00).

pub mod account;
pub mod config;
pub mod dto;
pub mod email;
pub mod engine;
mod ext;
pub mod funding;
pub mod ledger;
pub mod paystack;
pub mod signature;
pub mod store;
pub mod transfer;
