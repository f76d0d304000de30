//! Accounting and verification core of a crowdfunding ledger.
//!
//! A campaign collects pledges against a funding target within a time
//! window and ends either in success, after which its owner withdraws the
//! raised total once, or in failure, after which each donor is refunded once.
//! Each operation decides, applies its change to the record and returns the
//! custody transfer the host must carry out; the host keeps the new state only
//! if that transfer succeeds, and a rejected operation changes nothing. Rewards of a successful campaign are claimed with
//! Merkle inclusion proofs against a root committed by the owner.

pub mod campaign;
pub mod error;
pub mod ledger;
pub mod merkle;
pub mod state;
