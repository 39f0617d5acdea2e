//! An escrow of fungible tokens released by a one-time passcode.
//!
//! A sender locks an amount of a token under a payment identifier; the
//! receiver claims it by presenting the passcode whose commitment was stored
//! at creation, or the sender takes it back by cancelling. The state machine
//! and its guards are verified here; the host's storage, signatures, clock
//! and token ledger are collaborators whose answers the caller hands in.

pub mod escrow;
pub mod rules;
pub mod service;
pub mod laws;
