//! The account-state machine of a bonding-curve token exchange.
//!
//! A platform registers a treasury, sellers launch tokens with a valuation
//! and a supply, a custodial vault holds the part of the issue that is for
//! sale, and buyers exchange native currency for tokens at a price that every
//! trade moves. This crate holds what decides: the reading of instructions,
//! the byte layout of the three records, the derivation of custody
//! addresses, and the operations themselves, which take the accounts as they
//! stand and say what to invoke and what to store.

pub mod address;
pub mod bytes;
pub mod custody;
pub mod derivation;
pub mod error;
pub mod holders;
pub mod instruction;
pub mod pricing;
pub mod processor;
pub mod runtime;
pub mod state;
pub mod wire;
