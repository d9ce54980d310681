//! Collateralized-minting reconciliation engine for a Bitcoin-backed
//! stablecoin minter.
//!
//! The library models the balance-update state machine: UTXO discovery and
//! deduplication, per-account single-flight guarding, deterministic
//! sub-account derivation, collateral-ratio computation, and the multi-step,
//! partial-failure-aware minting and redemption orchestration. External
//! collaborators (the UTXO oracle, the exchange-rate oracle, and the ledger
//! services) are driven by a thin host layer; every decision the engine takes
//! between those calls is verified here.

pub mod bytes;
pub mod collateral;
pub mod deriver;
pub mod engine;
pub mod errors;
pub mod guard;
pub mod management;
pub mod orchestrator;
pub mod outcall;
pub mod provider;
pub mod runes;
pub mod seqs;
pub mod service;
pub mod store;
pub mod transfers;
pub mod types;
