//! Invariant-preserving core of a constant-product exchange pair.
//!
//! The crate computes how liquidity provision, quoting and reserve updates
//! are priced and validated for a single trading pair, under integer-only
//! arithmetic: overflow-checked 128-bit helpers and an integer square root,
//! the proportional quote, the liquidity-share minting rules, the
//! time-weighted price accumulators, and the pair/factory lifecycle
//! decisions. Durable storage, asset custody and signing are external
//! collaborators: callers hand this crate plain values and carry out the
//! transfers it decides on.

pub mod errors;
pub mod math;
pub mod quote;
pub mod liquidity;
pub mod state;
pub mod oracle;
pub mod lifecycle;
