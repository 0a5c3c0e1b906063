//! Conflict-resolution and reputation engine for time-locked payment agreements.
//!
//! A payer locks value for a payee in an agreement ([`escrow`]). The payer may release
//! it, anyone may release it once its window has elapsed, or the payer may dispute it
//! for a fee that grows with the payer's dispute history ([`reputation`]). A verifier's
//! signed quality score ([`signature`]), or the consensus of several oracles
//! ([`consensus`], [`registry`]), decides the refund share ([`settlement`]), and both
//! parties' trust ledgers take in the outcome. Staked agent identities live in
//! [`agent`].
//!
//! The engine holds no clock and moves no funds: every operation takes the current
//! time and returns what is to be transferred and published ([`events`]).
pub mod address;
pub mod error;
pub mod events;
pub mod settlement;
pub mod consensus;
pub mod reputation;
pub mod registry;
pub mod signature;
pub mod token_mints;
pub mod agent;
pub mod escrow;
