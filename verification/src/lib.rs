//! A verified model of the XOXNO / ESDT NFT marketplace smart contract.
//!
//! The contract storage is held in [`storage::Marketplace`]; every endpoint is a
//! method that takes the call context (caller, block timestamp, payments, the
//! facts the chain answers) and returns the outgoing actions (transfers, calls to
//! other contracts, events) that the chain must perform.
//!
//! An endpoint that fails leaves the storage as it found it, as the chain
//! does when it reverts a failed transaction.
use vstd::prelude::*;

pub mod admin;
pub mod auction;
pub mod collections;
pub mod common;
pub mod creator;
pub mod dex;
pub mod errors;
pub mod events;
pub mod helpers;
pub mod init;
pub mod invariants;
pub mod laws;
pub mod marketplace_main;
pub mod offer_index;
pub mod offers;
pub mod outcomes;
pub mod payouts;
pub mod pools;
pub mod records;
pub mod storage;
pub mod views;
pub mod wrapping;

verus! {

} // verus!
