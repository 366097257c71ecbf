//! The two durable records of the exchange: the factory singleton and one
//! pair record per traded asset pair.
//!
//! Identities (assets, authorities, record addresses) are opaque to the
//! core: only equality of them matters, so they are carried as plain
//! 64-bit values chosen by the storage layer. The value 0 stands for "no
//! identity", as for a factory without a fee recipient.

use vstd::prelude::*;

verus! {

/// Global configuration and bookkeeping, one per deployment.
#[derive(Clone, Copy, Debug, PartialEq, Eq, Structural)]
pub struct Factory {
    /// Identity permitted to change the fee configuration.
    pub authority: u64,
    /// Count of pairs created, incremented exactly once per successful
    /// creation.
    pub pair_count: u64,
    /// Identity receiving protocol-fee shares; 0 while none is set.
    pub fee_to: u64,
    /// Whether protocol-fee accrual is enabled.
    pub fee_on: bool,
}

/// One trading pair: its two assets, its custodied reserves as of the last
/// update, and its oracle accumulators.
#[derive(Clone, Copy, Debug, PartialEq, Eq, Structural)]
pub struct Pair {
    /// The factory that created this pair.
    pub factory: u64,
    /// First underlying asset, fixed at creation.
    pub token_0: u64,
    /// Second underlying asset, fixed at creation; differs from `token_0`.
    pub token_1: u64,
    /// Custodied balance of `token_0` as of the last update.
    pub reserve_0: u64,
    /// Custodied balance of `token_1` as of the last update.
    pub reserve_1: u64,
    /// Timestamp of the last reserve update, in unix-epoch seconds.
    pub block_timestamp_last: u64,
    /// Accumulated time-weighted price of `token_0` in units of `token_1`.
    pub price_0_cumulative_last: u64,
    /// Accumulated time-weighted price of `token_1` in units of `token_0`.
    pub price_1_cumulative_last: u64,
    /// Snapshot of reserve_0 * reserve_1 taken when protocol fees were
    /// last relevant; 0 while no snapshot exists. Held widened to 128
    /// bits so the product is never truncated.
    pub k_last: u128,
    /// Witness for re-deriving the pair's storage address.
    pub bump: u8,
    /// Witness for re-deriving the share mint's storage address.
    pub lp_bump: u8,
}

impl Pair {
    /// The pair's structural invariant: its assets differ.
    pub open spec fn wf(self) -> bool {
        self.token_0 != self.token_1
    }
}

/// Creates the factory record: no pairs yet, no fee recipient, fees off.
pub fn initialize_factory(authority: u64) -> (f: Factory)
    ensures
        f.authority == authority,
        f.pair_count == 0,
        f.fee_to == 0,
        !f.fee_on,
{
    Factory { authority, pair_count: 0, fee_to: 0, fee_on: false }
}

} // verus!
