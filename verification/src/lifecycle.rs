//! The pair lifecycle: creation of a pair record and the two halves of a
//! deposit. A deposit is decided first — `add_liquidity` validates the
//! request against the pre-transfer reserves and the pre-mint share supply
//! and fixes the amounts and the shares — and settled after the caller has
//! carried out the transfers, when `settle_deposit` stores the
//! authoritative vault balances and the fee snapshot.

use vstd::prelude::*;
use crate::errors::PairError;
use crate::liquidity::{compute_liquidity, liquidity_spec};
use crate::oracle::{update_reserves, update_ok, updated_pair};
use crate::quote::{quote, quote_spec};
use crate::state::{Factory, Pair};

verus! {

/// Notification that a pair was created.
#[derive(Clone, Copy, Debug, PartialEq, Eq, Structural)]
pub struct PairCreated {
    pub factory: u64,
    pub token_0: u64,
    pub token_1: u64,
    pub pair: u64,
    pub pair_count: u64,
}

/// Notification that a deposit was settled.
#[derive(Clone, Copy, Debug, PartialEq, Eq, Structural)]
pub struct LiquidityAdded {
    pub sender: u64,
    pub amount_0: u64,
    pub amount_1: u64,
    pub liquidity: u64,
}

/// A validated deposit: the amounts the caller must transfer into the
/// pair's vaults and the shares to mint to the depositor.
#[derive(Clone, Copy, Debug, PartialEq, Eq, Structural)]
pub struct DepositPlan {
    pub amount_0: u64,
    pub amount_1: u64,
    pub liquidity: u64,
}

/// The record a new pair starts from: the given identities and witnesses,
/// everything else zero.
pub open spec fn fresh_pair(
    factory_id: u64,
    token_0: u64,
    token_1: u64,
    bump: u8,
    lp_bump: u8,
) -> Pair {
    Pair {
        factory: factory_id,
        token_0,
        token_1,
        reserve_0: 0,
        reserve_1: 0,
        block_timestamp_last: 0,
        price_0_cumulative_last: 0,
        price_1_cumulative_last: 0,
        k_last: 0,
        bump,
        lp_bump,
    }
}

/// Creates a pair of two distinct assets: initialises its record, counts
/// it in the factory, and reports the creation event.
///
/// The caller must then mint `MINIMUM_LIQUIDITY` shares to the pool's own
/// vault under the pair's authority, permanently locking the share floor.
/// `factory_id` and `pair_id` are the storage identities of the factory
/// and of the new record. When the assets are identical the factory is
/// left untouched and no record is produced.
pub fn create_pair(
    factory: &mut Factory,
    factory_id: u64,
    pair_id: u64,
    token_0: u64,
    token_1: u64,
    bump: u8,
    lp_bump: u8,
) -> (r: Result<(Pair, PairCreated), PairError>)
    requires
        old(factory).pair_count < u64::MAX,
    ensures
        token_0 == token_1 ==> r == Err::<(Pair, PairCreated), PairError>(
            PairError::IdenticalTokens,
        ) && *final(factory) == *old(factory),
        token_0 != token_1 ==> {
            &&& *final(factory) == (Factory { pair_count: (old(factory).pair_count + 1) as u64, ..*old(factory) })
            &&& r == Ok::<(Pair, PairCreated), PairError>(
                (
                    fresh_pair(factory_id, token_0, token_1, bump, lp_bump),
                    PairCreated {
                        factory: factory_id,
                        token_0,
                        token_1,
                        pair: pair_id,
                        pair_count: (old(factory).pair_count + 1) as u64,
                    },
                ),
            )
        },
        r is Ok ==> r->Ok_0.0.wf(),
{
    if token_0 == token_1 {
        return Err(PairError::IdenticalTokens);
    }
    let pair = Pair {
        factory: factory_id,
        token_0,
        token_1,
        reserve_0: 0,
        reserve_1: 0,
        block_timestamp_last: 0,
        price_0_cumulative_last: 0,
        price_1_cumulative_last: 0,
        k_last: 0,
        bump,
        lp_bump,
    };
    factory.pair_count = factory.pair_count + 1;
    let event = PairCreated {
        factory: factory_id,
        token_0,
        token_1,
        pair: pair_id,
        pair_count: factory.pair_count,
    };
    Ok((pair, event))
}

/// The amounts a deposit settles on, as a total function of the reserves
/// and the caller's desired amounts and minimums.
///
/// An empty pool takes the desired amounts as they stand; they set the
/// initial price. Otherwise the pool quotes the counter-amount for the
/// desired asset-0 amount and, when that overshoots the desired asset-1
/// amount, quotes the other way round; the result is the larger feasible
/// deposit consistent with the desired amounts and the minimums.
pub open spec fn deposit_amounts_spec(
    reserve_0: u64,
    reserve_1: u64,
    amount_0_desired: u64,
    amount_1_desired: u64,
    amount_0_min: u64,
    amount_1_min: u64,
) -> Result<(u64, u64), PairError> {
    if reserve_0 == 0 && reserve_1 == 0 {
        Ok((amount_0_desired, amount_1_desired))
    } else {
        match quote_spec(amount_0_desired, reserve_0, reserve_1) {
            Err(e) => Err(e),
            Ok(amount_1_optimal) => if amount_1_optimal <= amount_1_desired {
                if amount_1_optimal >= amount_1_min {
                    Ok((amount_0_desired, amount_1_optimal))
                } else {
                    Err(PairError::InsufficientBAmount)
                }
            } else {
                match quote_spec(amount_1_desired, reserve_1, reserve_0) {
                    Err(e) => Err(e),
                    Ok(amount_0_optimal) => if amount_0_optimal > amount_0_desired {
                        Err(PairError::InsufficientAAmount)
                    } else if amount_0_optimal < amount_0_min {
                        Err(PairError::InsufficientAAmount)
                    } else {
                        Ok((amount_0_optimal, amount_1_desired))
                    },
                }
            },
        }
    }
}

/// Law: a successful deposit into a funded pool preserves the reserve
/// ratio up to one rounding unit. The amounts the plan settles on keep
/// the cross products amount_0 * reserve_1 and amount_1 * reserve_0
/// within one unit's worth of each other — strictly between -reserve_1
/// and reserve_0 — so adding them to the reserves moves the price by
/// less than one unit of either asset.
pub proof fn lemma_deposit_preserves_ratio(
    reserve_0: u64,
    reserve_1: u64,
    amount_0_desired: u64,
    amount_1_desired: u64,
    amount_0_min: u64,
    amount_1_min: u64,
)
    requires
        !(reserve_0 == 0 && reserve_1 == 0),
        deposit_amounts_spec(
            reserve_0,
            reserve_1,
            amount_0_desired,
            amount_1_desired,
            amount_0_min,
            amount_1_min,
        ) is Ok,
    ensures
        ({
            let (amount_0, amount_1) = deposit_amounts_spec(
                reserve_0,
                reserve_1,
                amount_0_desired,
                amount_1_desired,
                amount_0_min,
                amount_1_min,
            )->Ok_0;
            -(reserve_1 as int) < amount_0 * reserve_1 - amount_1 * reserve_0 < reserve_0
        }),
{
    let quoted_1 = quote_spec(amount_0_desired, reserve_0, reserve_1);
    if quoted_1 is Ok && quoted_1->Ok_0 <= amount_1_desired {
        // The plan is (amount_0_desired, quote of it).
        crate::quote::lemma_quote_preserves_ratio(amount_0_desired, reserve_0, reserve_1);
    } else {
        // The plan is (reverse quote of amount_1_desired, amount_1_desired).
        crate::quote::lemma_quote_preserves_ratio(amount_1_desired, reserve_1, reserve_0);
    }
}

/// What `add_liquidity` decides, as a total function of the pair state,
/// the share supply, the request and the clock.
pub open spec fn deposit_plan_spec(
    reserve_0: u64,
    reserve_1: u64,
    lp_supply: u64,
    amount_0_desired: u64,
    amount_1_desired: u64,
    amount_0_min: u64,
    amount_1_min: u64,
    deadline: u64,
    now: u64,
) -> Result<DepositPlan, PairError> {
    if now > deadline {
        Err(PairError::Expired)
    } else {
        match deposit_amounts_spec(
            reserve_0,
            reserve_1,
            amount_0_desired,
            amount_1_desired,
            amount_0_min,
            amount_1_min,
        ) {
            Err(e) => Err(e),
            Ok((amount_0, amount_1)) => match liquidity_spec(
                amount_0,
                amount_1,
                reserve_0,
                reserve_1,
                lp_supply,
            ) {
                Err(e) => Err(e),
                Ok(liquidity) => Ok(DepositPlan { amount_0, amount_1, liquidity }),
            },
        }
    }
}

/// Validates a deposit request and fixes what it moves: the amounts of the
/// two assets, sized to preserve the reserve ratio, and the shares minted
/// for them, computed from the pre-transfer reserves and the pre-mint
/// share supply.
///
/// Nothing is mutated here: the caller transfers the planned amounts into
/// the vaults, mints the planned shares to the depositor, and only then
/// settles the pair with `settle_deposit`. A failure abandons the whole
/// deposit before any transfer is issued.
pub fn add_liquidity(
    pair: &Pair,
    lp_supply: u64,
    amount_0_desired: u64,
    amount_1_desired: u64,
    amount_0_min: u64,
    amount_1_min: u64,
    deadline: u64,
    now: u64,
) -> (r: Result<DepositPlan, PairError>)
    ensures
        r == deposit_plan_spec(
            pair.reserve_0,
            pair.reserve_1,
            lp_supply,
            amount_0_desired,
            amount_1_desired,
            amount_0_min,
            amount_1_min,
            deadline,
            now,
        ),
{
    if now > deadline {
        return Err(PairError::Expired);
    }
    let reserve_0: u64 = pair.reserve_0;
    let reserve_1: u64 = pair.reserve_1;
    let (amount_0, amount_1): (u64, u64) = if reserve_0 == 0 && reserve_1 == 0 {
        (amount_0_desired, amount_1_desired)
    } else {
        let amount_1_optimal: u64 = match quote(amount_0_desired, reserve_0, reserve_1) {
            Ok(v) => v,
            Err(e) => { return Err(e) },
        };
        if amount_1_optimal <= amount_1_desired {
            if amount_1_optimal < amount_1_min {
                return Err(PairError::InsufficientBAmount);
            }
            (amount_0_desired, amount_1_optimal)
        } else {
            let amount_0_optimal: u64 = match quote(amount_1_desired, reserve_1, reserve_0) {
                Ok(v) => v,
                Err(e) => { return Err(e) },
            };
            if amount_0_optimal > amount_0_desired {
                return Err(PairError::InsufficientAAmount);
            }
            if amount_0_optimal < amount_0_min {
                return Err(PairError::InsufficientAAmount);
            }
            (amount_0_optimal, amount_1_desired)
        }
    };
    let liquidity: u64 = match compute_liquidity(amount_0, amount_1, reserve_0, reserve_1, lp_supply) {
        Ok(v) => v,
        Err(e) => { return Err(e) },
    };
    Ok(DepositPlan { amount_0, amount_1, liquidity })
}

/// The pair after a settled deposit: the oracle update applied, and the
/// fee snapshot refreshed to the product of the new reserves when fees
/// are enabled.
pub open spec fn settled_pair(
    factory: Factory,
    pair: Pair,
    balance_0: u64,
    balance_1: u64,
    now: u64,
) -> Pair {
    let updated = updated_pair(pair, balance_0, balance_1, now);
    if factory.fee_on {
        Pair { k_last: (balance_0 * balance_1) as u128, ..updated }
    } else {
        updated
    }
}

/// Settles a deposit after the transfers and the share mint: stores the
/// vaults' authoritative post-transfer balances through the reserve
/// oracle, refreshes the fee snapshot when fees are enabled, and reports
/// the deposit event. On failure the pair is left exactly as it was.
pub fn settle_deposit(
    factory: &Factory,
    pair: &mut Pair,
    plan: &DepositPlan,
    sender: u64,
    balance_0: u64,
    balance_1: u64,
    now: u64,
) -> (r: Result<LiquidityAdded, PairError>)
    ensures
        update_ok(*old(pair), now) ==> {
            &&& *final(pair) == settled_pair(*factory, *old(pair), balance_0, balance_1, now)
            &&& r == Ok::<LiquidityAdded, PairError>(
                LiquidityAdded {
                    sender,
                    amount_0: plan.amount_0,
                    amount_1: plan.amount_1,
                    liquidity: plan.liquidity,
                },
            )
        },
        !update_ok(*old(pair), now) ==> r == Err::<LiquidityAdded, PairError>(PairError::Overflow)
            && *final(pair) == *old(pair),
{
    match update_reserves(pair, balance_0, balance_1, now) {
        Ok(()) => {},
        Err(e) => { return Err(e) },
    }
    if factory.fee_on {
        proof {
            assert(balance_0 * balance_1 <= u128::MAX) by (nonlinear_arith)
                requires
                    balance_0 <= u64::MAX,
                    balance_1 <= u64::MAX,
            ;
        }
        pair.k_last = (balance_0 as u128) * (balance_1 as u128);
    }
    let event = LiquidityAdded {
        sender,
        amount_0: plan.amount_0,
        amount_1: plan.amount_1,
        liquidity: plan.liquidity,
    };
    Ok(event)
}

} // verus!
