//! The pool itself: state, validation, liquidity accounting, the fee curve
//! and the swap engine.

use vstd::prelude::*;

verus! {

use vstd::arithmetic::div_mod::{
    lemma_div_is_ordered, lemma_fundamental_div_mod, lemma_mod_bound, lemma_multiply_divide_le,
};
use vstd::arithmetic::mul::{lemma_mul_inequality, lemma_mul_upper_bound};

/// Why an operation on the pool was refused. Every failure is reported as a
/// value of this type before any state is mutated.
#[derive(Debug, Clone, Copy, PartialEq, Eq, Structural)]
pub enum Errors {
    /// A required positive integer (an operation amount, or a configuration
    /// value at construction) was zero.
    PropertyMustBeGreaterThanZero,
    /// At construction, the configured fee bounds were not strictly ordered.
    FeeMaxMustBeGreaterThanFeeMin,
    /// The operation would pay out more than the pool holds, or burn more
    /// claim tokens than are outstanding.
    InsufficientLiquidity,
    /// A result or an updated reserve would not fit in 64 bits; the pool is
    /// left unchanged instead of wrapping silently.
    ArithmeticOverflow,
}

impl Errors {
    /// A human-readable description of the error.
    pub fn message(&self) -> (r: &'static str)
        ensures
            *self == Errors::PropertyMustBeGreaterThanZero ==> r@ == "Property must be greater than zero"@,
            *self == Errors::FeeMaxMustBeGreaterThanFeeMin ==> r@ == "Fee max must be greater than fee min"@,
            *self == Errors::InsufficientLiquidity ==> r@ == "Insufficient liquidity"@,
            *self == Errors::ArithmeticOverflow ==> r@ == "Arithmetic overflow"@,
    {
        match self {
            Errors::PropertyMustBeGreaterThanZero => "Property must be greater than zero",
            Errors::FeeMaxMustBeGreaterThanFeeMin => "Fee max must be greater than fee min",
            Errors::InsufficientLiquidity => "Insufficient liquidity",
            Errors::ArithmeticOverflow => "Arithmetic overflow",
        }
    }
}

/// The whole-percent ratio of the base reserve to the liquidity target,
/// truncated toward zero. Unbounded above: it exceeds 100 whenever the
/// reserve exceeds the target.
pub open spec fn spec_liquidity_ratio(token_reserve: int, liquidity_target: int) -> int {
    token_reserve * 100 / liquidity_target
}

/// The piecewise-linear fee curve: `fee_min` at an empty reserve, `fee_max`
/// when the reserve meets the target, and climbing without a clamp beyond it.
/// Both divisions truncate, in this order; they are not collapsed into one
/// higher-precision computation.
pub open spec fn spec_fee_percentage(
    token_reserve: int,
    liquidity_target: int,
    fee_min: int,
    fee_max: int,
) -> int {
    fee_min + spec_liquidity_ratio(token_reserve, liquidity_target) * (fee_max - fee_min) / 100
}

/// Claim tokens minted for depositing `amount` into a pool that held
/// `token_reserve` base tokens against `lp_token_supply` outstanding claims.
/// The reserve is credited with `amount` before the ratio is taken, so the
/// denominator is the post-deposit reserve.
pub open spec fn spec_minted(amount: int, token_reserve: int, lp_token_supply: int) -> int {
    if lp_token_supply == 0 {
        amount
    } else {
        amount * lp_token_supply / (token_reserve + amount)
    }
}

/// The proportional share of `reserve` owned by `lp_token_amount` claim
/// tokens out of `lp_token_supply`, truncated toward zero.
pub open spec fn spec_share(lp_token_amount: int, reserve: int, lp_token_supply: int) -> int {
    lp_token_amount * reserve / lp_token_supply
}

/// Gross base-token amount bought by swapping `staked_token_amount` at the
/// fixed exchange rate, before the fee is deducted.
pub open spec fn spec_gross(staked_token_amount: int, price: int) -> int {
    staked_token_amount * price
}

/// The fee retained by a swap: the gross amount scaled by the fee curve as
/// read against the pre-swap reserve, truncated toward zero.
pub open spec fn spec_swap_fee(
    staked_token_amount: int,
    price: int,
    token_reserve: int,
    liquidity_target: int,
    fee_min: int,
    fee_max: int,
) -> int {
    spec_gross(staked_token_amount, price) * spec_fee_percentage(
        token_reserve,
        liquidity_target,
        fee_min,
        fee_max,
    ) / 100
}

/// A single-asset liquidity pool. The four configuration fields are fixed at
/// construction; the two reserves and the claim-token supply change with each
/// successful operation.
#[derive(Debug, Clone, Copy, PartialEq, Eq, Structural)]
pub struct LpPool {
    /// Amount of base token held by the pool.
    pub token_reserve: u64,
    /// Amount of the staked derivative held by the pool.
    pub staked_token_reserve: u64,
    /// Total outstanding claim tokens.
    pub lp_token_supply: u64,
    /// Fixed exchange rate: base units per staked unit.
    pub price: u64,
    /// Inclusive lower bound of the swap fee, in whole percent.
    pub fee_min: u64,
    /// Inclusive upper bound reached when the reserve meets the target.
    pub fee_max: u64,
    /// Base reserve level at which the fee curve reaches `fee_max`.
    pub liquidity_target: u64,
}

impl LpPool {
    /// The configuration invariant established by `init` and never mutated
    /// afterwards: all four configured values are positive and the fee
    /// bounds are strictly ordered.
    pub open spec fn config_wf(self) -> bool {
        &&& self.price > 0
        &&& self.fee_min > 0
        &&& self.fee_max > 0
        &&& self.liquidity_target > 0
        &&& self.fee_min < self.fee_max
    }

    /// The fee curve read against the pool's current state.
    pub open spec fn current_fee_percentage(self) -> int {
        spec_fee_percentage(
            self.token_reserve as int,
            self.liquidity_target as int,
            self.fee_min as int,
            self.fee_max as int,
        )
    }

    /// The configuration fields of `self` and `other` agree.
    pub open spec fn same_config(self, other: LpPool) -> bool {
        &&& self.price == other.price
        &&& self.fee_min == other.fee_min
        &&& self.fee_max == other.fee_max
        &&& self.liquidity_target == other.liquidity_target
    }

    /// Validated construction. Every configuration value must be positive and
    /// the fee bounds strictly ordered; on success both reserves and the
    /// claim-token supply start at zero.
    pub fn init(price: u64, fee_min: u64, fee_max: u64, liquidity_target: u64) -> (r: Result<
        LpPool,
        Errors,
    >)
        ensures
            (price == 0 || fee_min == 0 || fee_max == 0 || liquidity_target == 0) ==> r
                == Err::<LpPool, Errors>(Errors::PropertyMustBeGreaterThanZero),
            (price > 0 && fee_min > 0 && fee_max > 0 && liquidity_target > 0 && fee_min >= fee_max)
                ==> r == Err::<LpPool, Errors>(Errors::FeeMaxMustBeGreaterThanFeeMin),
            (price > 0 && fee_min > 0 && fee_max > 0 && liquidity_target > 0 && fee_min < fee_max)
                ==> {
                &&& r matches Ok(pool)
                &&& pool.token_reserve == 0
                &&& pool.staked_token_reserve == 0
                &&& pool.lp_token_supply == 0
                &&& pool.price == price
                &&& pool.fee_min == fee_min
                &&& pool.fee_max == fee_max
                &&& pool.liquidity_target == liquidity_target
                &&& pool.config_wf()
            },
    {
        if price == 0 || fee_min == 0 || fee_max == 0 || liquidity_target == 0 {
            return Err(Errors::PropertyMustBeGreaterThanZero);
        }
        if fee_min >= fee_max {
            return Err(Errors::FeeMaxMustBeGreaterThanFeeMin);
        }
        Ok(
            LpPool {
                token_reserve: 0,
                staked_token_reserve: 0,
                lp_token_supply: 0,
                price,
                fee_min,
                fee_max,
                liquidity_target,
            },
        )
    }

    /// Deposit `amount` base tokens and mint claim tokens in return. The
    /// reserve is credited before the mint ratio is taken, so the first
    /// deposit into an empty pool mints exactly `amount`, and a later one
    /// mints `floor(amount * supply / (reserve + amount))`. Fails without a
    /// state change on a zero amount, or when the updated reserve or supply
    /// would not fit in 64 bits.
    pub fn add_liquidity(&mut self, amount: u64) -> (r: Result<u64, Errors>)
        ensures
            amount == 0 ==> r == Err::<u64, Errors>(Errors::PropertyMustBeGreaterThanZero)
                && *final(self) == *old(self),
            amount > 0 && old(self).token_reserve + amount > u64::MAX ==> r == Err::<u64, Errors>(
                Errors::ArithmeticOverflow,
            ) && *final(self) == *old(self),
            amount > 0 && old(self).token_reserve + amount <= u64::MAX && old(self).lp_token_supply
                + spec_minted(
                amount as int,
                old(self).token_reserve as int,
                old(self).lp_token_supply as int,
            ) > u64::MAX ==> r == Err::<u64, Errors>(Errors::ArithmeticOverflow) && *final(self)
                == *old(self),
            amount > 0 && old(self).token_reserve == 0 && old(self).lp_token_supply == 0 ==> {
                &&& r == Ok::<u64, Errors>(amount)
                &&& final(self).token_reserve == amount
                &&& final(self).lp_token_supply == amount
            },
            amount > 0 && old(self).token_reserve + amount <= u64::MAX && old(self).lp_token_supply
                + spec_minted(
                amount as int,
                old(self).token_reserve as int,
                old(self).lp_token_supply as int,
            ) <= u64::MAX ==> {
                let minted = spec_minted(
                    amount as int,
                    old(self).token_reserve as int,
                    old(self).lp_token_supply as int,
                );
                &&& r == Ok::<u64, Errors>(minted as u64)
                &&& final(self).token_reserve == old(self).token_reserve + amount
                &&& final(self).staked_token_reserve == old(self).staked_token_reserve
                &&& final(self).lp_token_supply == old(self).lp_token_supply + minted
                &&& final(self).same_config(*old(self))
            },
    {
        if amount == 0 {
            return Err(Errors::PropertyMustBeGreaterThanZero);
        }
        if amount > u64::MAX - self.token_reserve {
            return Err(Errors::ArithmeticOverflow);
        }
        let new_reserve: u64 = self.token_reserve + amount;
        let minted: u64 = if self.lp_token_supply == 0 {
            amount
        } else {
            proof {
                lemma_mul_upper_bound(
                    amount as int,
                    u64::MAX as int,
                    self.lp_token_supply as int,
                    u64::MAX as int,
                );
            }
            let wide: u128 = (amount as u128) * (self.lp_token_supply as u128) / (
            new_reserve as u128);
            proof {
                lemma_mul_inequality(
                    amount as int,
                    new_reserve as int,
                    self.lp_token_supply as int,
                );
                lemma_multiply_divide_le(
                    amount as int * self.lp_token_supply as int,
                    new_reserve as int,
                    self.lp_token_supply as int,
                );
            }
            wide as u64
        };
        if minted > u64::MAX - self.lp_token_supply {
            return Err(Errors::ArithmeticOverflow);
        }
        self.token_reserve = new_reserve;
        self.lp_token_supply = self.lp_token_supply + minted;
        Ok(minted)
    }

    /// Burn `lp_token_amount` claim tokens and pay out the proportional share
    /// of both reserves, each share truncated toward zero against the
    /// pre-burn state. Fails without a state change on a zero amount, or when
    /// more claim tokens would be burned than are outstanding; with exact
    /// integer arithmetic a computed share can never exceed its reserve, so
    /// every burn of at most the outstanding supply succeeds.
    pub fn remove_liquidity(&mut self, lp_token_amount: u64) -> (r: Result<(u64, u64), Errors>)
        ensures
            lp_token_amount == 0 ==> r == Err::<(u64, u64), Errors>(
                Errors::PropertyMustBeGreaterThanZero,
            ) && *final(self) == *old(self),
            lp_token_amount > old(self).lp_token_supply ==> r == Err::<(u64, u64), Errors>(
                Errors::InsufficientLiquidity,
            ) && *final(self) == *old(self),
            0 < lp_token_amount <= old(self).lp_token_supply ==> {
                let token_amount = spec_share(
                    lp_token_amount as int,
                    old(self).token_reserve as int,
                    old(self).lp_token_supply as int,
                );
                let staked_token_amount = spec_share(
                    lp_token_amount as int,
                    old(self).staked_token_reserve as int,
                    old(self).lp_token_supply as int,
                );
                &&& r == Ok::<(u64, u64), Errors>((token_amount as u64, staked_token_amount as u64))
                &&& final(self).token_reserve == old(self).token_reserve - token_amount
                &&& final(self).staked_token_reserve == old(self).staked_token_reserve
                    - staked_token_amount
                &&& final(self).lp_token_supply == old(self).lp_token_supply - lp_token_amount
                &&& final(self).same_config(*old(self))
            },
    {
        if lp_token_amount == 0 {
            return Err(Errors::PropertyMustBeGreaterThanZero);
        }
        if lp_token_amount > self.lp_token_supply {
            return Err(Errors::InsufficientLiquidity);
        }
        proof {
            lemma_mul_upper_bound(
                lp_token_amount as int,
                u64::MAX as int,
                self.token_reserve as int,
                u64::MAX as int,
            );
            lemma_mul_upper_bound(
                lp_token_amount as int,
                u64::MAX as int,
                self.staked_token_reserve as int,
                u64::MAX as int,
            );
        }
        let token_amount_wide: u128 = (lp_token_amount as u128) * (self.token_reserve as u128) / (
        self.lp_token_supply as u128);
        let staked_amount_wide: u128 = (lp_token_amount as u128) * (
        self.staked_token_reserve as u128) / (self.lp_token_supply as u128);
        proof {
            lemma_mul_inequality(
                lp_token_amount as int,
                self.lp_token_supply as int,
                self.token_reserve as int,
            );
            lemma_multiply_divide_le(
                lp_token_amount as int * self.token_reserve as int,
                self.lp_token_supply as int,
                self.token_reserve as int,
            );
            lemma_mul_inequality(
                lp_token_amount as int,
                self.lp_token_supply as int,
                self.staked_token_reserve as int,
            );
            lemma_multiply_divide_le(
                lp_token_amount as int * self.staked_token_reserve as int,
                self.lp_token_supply as int,
                self.staked_token_reserve as int,
            );
        }
        let token_amount: u64 = token_amount_wide as u64;
        let staked_token_amount: u64 = staked_amount_wide as u64;
        // Guards a degenerate state only: a proportional share of at most the
        // whole supply cannot exceed the reserve it is a fraction of, so with
        // exact integer arithmetic this branch is never taken.
        if token_amount > self.token_reserve || staked_token_amount > self.staked_token_reserve {
            return Err(Errors::InsufficientLiquidity);
        }
        self.token_reserve = self.token_reserve - token_amount;
        self.staked_token_reserve = self.staked_token_reserve - staked_token_amount;
        self.lp_token_supply = self.lp_token_supply - lp_token_amount;
        Ok((token_amount, staked_token_amount))
    }

    /// The dynamic swap fee, in whole percent, for the current reserve. A
    /// pure read of the state; the divisions by the target and by 100 both
    /// truncate, in that order. The caller vouches for the construction
    /// invariant on the configuration (the target is positive and the fee
    /// bounds are ordered, as `init` guarantees) and for the result fitting
    /// in 64 bits; `try_calculate_fee_percentage` is the checked entry.
    pub fn calculate_fee_percentage(&self) -> (r: u64)
        requires
            self.liquidity_target > 0,
            self.fee_min <= self.fee_max,
            self.current_fee_percentage() <= u64::MAX,
        ensures
            r == self.current_fee_percentage(),
    {
        let ratio: u128 = (self.token_reserve as u128 * 100) / (self.liquidity_target as u128);
        let delta: u128 = (self.fee_max - self.fee_min) as u128;
        proof {
            lemma_fundamental_div_mod(ratio as int * delta as int, 100);
            lemma_mod_bound(ratio as int * delta as int, 100);
        }
        let scaled: u128 = ratio * delta / 100;
        let fee: u128 = (self.fee_min as u128) + scaled;
        fee as u64
    }

    /// The dynamic swap fee when it is representable: `None` when the
    /// configuration violates the construction invariant it is read through,
    /// or when the percentage does not fit in 64 bits.
    pub fn try_calculate_fee_percentage(&self) -> (r: Option<u64>)
        ensures
            (self.liquidity_target > 0 && self.fee_min <= self.fee_max
                && self.current_fee_percentage() <= u64::MAX) ==> r == Some(
                self.current_fee_percentage() as u64,
            ),
            !(self.liquidity_target > 0 && self.fee_min <= self.fee_max
                && self.current_fee_percentage() <= u64::MAX) ==> r is None,
    {
        if self.liquidity_target == 0 || self.fee_min > self.fee_max {
            return None;
        }
        let ratio: u128 = (self.token_reserve as u128 * 100) / (self.liquidity_target as u128);
        let delta: u128 = (self.fee_max - self.fee_min) as u128;
        let cap: u128 = 100u128 * (u64::MAX as u128) + 99;
        if delta > 0 && ratio > cap / delta {
            proof {
                let q = cap as int / delta as int;
                let rem = cap as int % delta as int;
                lemma_fundamental_div_mod(cap as int, delta as int);
                lemma_mod_bound(cap as int, delta as int);
                assert(ratio as int * delta as int > cap) by (nonlinear_arith)
                    requires
                        delta > 0,
                        ratio as int >= q + 1,
                        cap == delta as int * q + rem,
                        rem < delta,
                ;
                lemma_div_is_ordered(100 * (u64::MAX + 1), ratio as int * delta as int, 100);
            }
            return None;
        }
        proof {
            if delta > 0 {
                let q = cap as int / delta as int;
                let rem = cap as int % delta as int;
                lemma_fundamental_div_mod(cap as int, delta as int);
                lemma_mod_bound(cap as int, delta as int);
                assert(ratio as int * delta as int <= cap) by (nonlinear_arith)
                    requires
                        delta > 0,
                        ratio as int <= q,
                        cap == delta as int * q + rem,
                        rem >= 0,
                ;
            }
        }
        let scaled: u128 = ratio * delta / 100;
        if scaled > (u64::MAX as u128) - (self.fee_min as u128) {
            return None;
        }
        Some(self.calculate_fee_percentage())
    }

    /// Swap `staked_token_amount` staked tokens for base tokens. The gross
    /// amount is the input times the fixed price; the fee, read from the fee
    /// curve against the pre-swap reserve, is retained inside the base
    /// reserve rather than burned, so the reserve drops by the gross amount
    /// while the caller receives the net. Fails without a state change on a
    /// zero input, when the gross amount exceeds the base reserve, or when a
    /// fee percentage, a net amount or the updated staked reserve would not
    /// fit in 64 bits. The caller vouches for the construction invariant on
    /// the configuration, as `init` guarantees it.
    pub fn swap(&mut self, staked_token_amount: u64) -> (r: Result<u64, Errors>)
        requires
            old(self).config_wf(),
        ensures
            staked_token_amount == 0 ==> r == Err::<u64, Errors>(
                Errors::PropertyMustBeGreaterThanZero,
            ) && *final(self) == *old(self),
            staked_token_amount > 0 && spec_gross(
                staked_token_amount as int,
                old(self).price as int,
            ) > old(self).token_reserve ==> r == Err::<u64, Errors>(Errors::InsufficientLiquidity)
                && *final(self) == *old(self),
            staked_token_amount > 0 && spec_gross(
                staked_token_amount as int,
                old(self).price as int,
            ) <= old(self).token_reserve && old(self).current_fee_percentage() > u64::MAX ==> r
                == Err::<u64, Errors>(Errors::ArithmeticOverflow) && *final(self) == *old(self),
            staked_token_amount > 0 && spec_gross(
                staked_token_amount as int,
                old(self).price as int,
            ) <= old(self).token_reserve && old(self).current_fee_percentage() <= u64::MAX ==> {
                let gross = spec_gross(staked_token_amount as int, old(self).price as int);
                let fee = spec_swap_fee(
                    staked_token_amount as int,
                    old(self).price as int,
                    old(self).token_reserve as int,
                    old(self).liquidity_target as int,
                    old(self).fee_min as int,
                    old(self).fee_max as int,
                );
                &&& fee > gross ==> r == Err::<u64, Errors>(Errors::ArithmeticOverflow)
                    && *final(self) == *old(self)
                &&& fee <= gross && old(self).staked_token_reserve + staked_token_amount
                    > u64::MAX ==> r == Err::<u64, Errors>(Errors::ArithmeticOverflow)
                    && *final(self) == *old(self)
                &&& fee <= gross && old(self).staked_token_reserve + staked_token_amount
                    <= u64::MAX ==> {
                    &&& r == Ok::<u64, Errors>((gross - fee) as u64)
                    &&& final(self).token_reserve == old(self).token_reserve - gross
                    &&& final(self).staked_token_reserve == old(self).staked_token_reserve
                        + staked_token_amount
                    &&& final(self).lp_token_supply == old(self).lp_token_supply
                    &&& final(self).same_config(*old(self))
                }
            },
    {
        if staked_token_amount == 0 {
            return Err(Errors::PropertyMustBeGreaterThanZero);
        }
        proof {
            lemma_mul_upper_bound(
                staked_token_amount as int,
                u64::MAX as int,
                self.price as int,
                u64::MAX as int,
            );
        }
        let gross_wide: u128 = (staked_token_amount as u128) * (self.price as u128);
        if gross_wide > self.token_reserve as u128 {
            return Err(Errors::InsufficientLiquidity);
        }
        let gross: u64 = gross_wide as u64;
        let fee_percentage: u64 = match self.try_calculate_fee_percentage() {
            Some(p) => p,
            None => {
                return Err(Errors::ArithmeticOverflow);
            },
        };
        proof {
            lemma_mul_upper_bound(
                gross as int,
                u64::MAX as int,
                fee_percentage as int,
                u64::MAX as int,
            );
        }
        let fee_wide: u128 = (gross as u128) * (fee_percentage as u128) / 100;
        if fee_wide > gross as u128 {
            return Err(Errors::ArithmeticOverflow);
        }
        let fee: u64 = fee_wide as u64;
        if staked_token_amount > u64::MAX - self.staked_token_reserve {
            return Err(Errors::ArithmeticOverflow);
        }
        self.token_reserve = self.token_reserve - gross;
        self.staked_token_reserve = self.staked_token_reserve + staked_token_amount;
        Ok(gross - fee)
    }
}

} // verus!
