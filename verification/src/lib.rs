//! A staged liquidity-unwind engine.
//!
//! A seller deposits a fixed total of an asset into a holding balance and has
//! it released in bounded, time-gated tranches. Each release pays a tenth of
//! the released tranche as a reward to the keeper who triggered it, and pays a
//! caller-proposed counter-asset amount out of a settlement reserve to the
//! seller. A companion rule turns a price reading and a holder count into a
//! periodic supply-shrink signal.
//!
//! The engine works on plain values: balances are `u64` amounts, identities
//! are `u64` ids, and the clock and price oracle are inputs handed in by the
//! caller. The hosting environment that provides real balances, the clock and
//! the oracle drives the engine from outside.

pub mod engine;
pub mod laws;
pub mod state;
