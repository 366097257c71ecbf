use vstd::prelude::*;

verus! {

/// The failure kinds that pair operations surface to their callers.
///
/// Every validation failure aborts the whole operation before any state is
/// mutated; no failure is silently recovered. The last five kinds are
/// reserved for the deferred swap and liquidity-removal operations and are
/// not raised by anything in this crate.
#[derive(Clone, Copy, Debug, PartialEq, Eq, Structural)]
pub enum PairError {
    /// The two assets of a pair must differ.
    IdenticalTokens,
    /// The current time is past the caller-supplied deadline.
    Expired,
    /// A zero amount was passed into quoting.
    InsufficientAmount,
    /// A zero reserve was passed into quoting.
    InsufficientLiquidity,
    /// The optimal counter-amount violates the caller's bound on asset 0.
    InsufficientAAmount,
    /// The optimal counter-amount violates the caller's bound on asset 1.
    InsufficientBAmount,
    /// The computed share count is zero, or below the locked minimum.
    InsufficientLiquidityMinted,
    /// A widened multiply or divide left the representable range, or a
    /// divisor was zero.
    Overflow,
    /// Reserved for liquidity removal.
    InsufficientLiquidityBurned,
    /// Reserved for swaps.
    InsufficientOutputAmount,
    /// Reserved for swaps.
    InsufficientInputAmount,
    /// Reserved for swaps.
    KError,
    /// Reserved for callers that require pre-sorted assets.
    TokensNotSorted,
}

} // verus!
