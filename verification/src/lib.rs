//! A parimutuel prediction-market ledger.
//!
//! Users escrow funds against one of a fixed set of mutually exclusive
//! outcomes of a question with a deadline; after the deadline a designated
//! authority declares the winning outcome, and holders of winning positions
//! receive a pro-rata, floor-divided share of the total escrowed pool.
//!
//! The crate is the accounting and settlement engine only: the market state
//! machine, the per-outcome pool and per-user position bookkeeping, and the
//! payout computation. Custody of the escrowed value, identity verification,
//! and the clock are external collaborators; callers hand in the current time
//! and move value according to the amounts this engine returns.

pub mod sums;
pub mod errors;
pub mod market;
pub mod position;
pub mod engine;
pub mod ledger;
pub mod store;
