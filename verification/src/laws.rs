//! Laws that relate the pool's operations to one another: the anchor points
//! of the fee curve, and the truncation-bounded round trip of a deposit
//! followed by the matching withdrawal.

use vstd::prelude::*;

use crate::pool::{spec_fee_percentage, spec_liquidity_ratio, spec_minted, spec_share};

verus! {

use vstd::arithmetic::div_mod::{
    lemma_div_by_multiple, lemma_div_of0, lemma_div_pos_is_pos, lemma_fundamental_div_mod,
    lemma_mod_bound, lemma_multiply_divide_le,
};
use vstd::arithmetic::mul::{lemma_mul_is_commutative, lemma_mul_nonnegative};

/// The fee curve is anchored at its two configured bounds: an empty base
/// reserve is charged exactly `fee_min`, and a reserve that meets the
/// liquidity target exactly is charged exactly `fee_max`.
pub proof fn lemma_fee_curve_endpoints(liquidity_target: int, fee_min: int, fee_max: int)
    requires
        liquidity_target > 0,
        fee_min <= fee_max,
    ensures
        spec_fee_percentage(0, liquidity_target, fee_min, fee_max) == fee_min,
        spec_fee_percentage(liquidity_target, liquidity_target, fee_min, fee_max) == fee_max,
{
    lemma_div_of0(liquidity_target);
    assert(spec_liquidity_ratio(0, liquidity_target) == 0);
    lemma_div_by_multiple(100, liquidity_target);
    assert(spec_liquidity_ratio(liquidity_target, liquidity_target) == 100);
    lemma_div_by_multiple(fee_max - fee_min, 100);
}

/// Burning the entire outstanding supply pays out a reserve exactly: the
/// proportional share of a full burn is the whole reserve, so a full
/// withdrawal leaves the pool empty.
pub proof fn lemma_full_withdraw_drains(reserve: int, lp_token_supply: int)
    requires
        lp_token_supply > 0,
        reserve >= 0,
    ensures
        spec_share(lp_token_supply, reserve, lp_token_supply) == reserve,
{
    lemma_mul_is_commutative(lp_token_supply, reserve);
    lemma_div_by_multiple(reserve, lp_token_supply);
}

/// Round trip of liquidity: depositing `amount` and then immediately
/// withdrawing exactly the minted claim tokens pays back at most `amount`
/// base tokens, the shortfall being truncation loss only; when the depositor
/// is the sole depositor (the supply was zero, so, with claims and backing
/// matching, the reserve was too), it pays back exactly `amount`.
pub proof fn lemma_deposit_withdraw_round_trip(
    amount: int,
    token_reserve: int,
    lp_token_supply: int,
)
    requires
        amount > 0,
        token_reserve >= 0,
        lp_token_supply >= 0,
        lp_token_supply == 0 ==> token_reserve == 0,
    ensures
        spec_share(
            spec_minted(amount, token_reserve, lp_token_supply),
            token_reserve + amount,
            lp_token_supply + spec_minted(amount, token_reserve, lp_token_supply),
        ) <= amount,
        lp_token_supply == 0 ==> spec_share(
            spec_minted(amount, token_reserve, lp_token_supply),
            token_reserve + amount,
            lp_token_supply + spec_minted(amount, token_reserve, lp_token_supply),
        ) == amount,
{
    let minted = spec_minted(amount, token_reserve, lp_token_supply);
    let reserve_after = token_reserve + amount;
    let supply_after = lp_token_supply + minted;
    if lp_token_supply == 0 {
        assert(minted == amount);
        lemma_div_by_multiple(amount, amount);
        assert(spec_share(amount, amount, amount) == amount);
    } else {
        lemma_mul_nonnegative(amount, lp_token_supply);
        lemma_div_pos_is_pos(amount * lp_token_supply, reserve_after);
        lemma_fundamental_div_mod(amount * lp_token_supply, reserve_after);
        lemma_mod_bound(amount * lp_token_supply, reserve_after);
        assert(reserve_after * minted <= amount * lp_token_supply);
        assert(minted * reserve_after <= supply_after * amount) by (nonlinear_arith)
            requires
                minted >= 0,
                amount > 0,
                lp_token_supply >= 0,
                supply_after == lp_token_supply + minted,
                reserve_after * minted <= amount * lp_token_supply,
        ;
        lemma_multiply_divide_le(minted * reserve_after, supply_after, amount);
    }
}

} // verus!
