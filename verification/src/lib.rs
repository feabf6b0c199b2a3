//! Accounting and pricing engine for a single-asset liquidity pool that
//! pairs a base token with its staked derivative.
//!
//! The pool tracks two reserves and an issued claim-token supply, and offers
//! three state-changing operations (deposit, withdraw, swap) together with a
//! dynamic fee curve that makes the swap cost depend on the current base
//! reserve relative to a configured liquidity target. All arithmetic is
//! integer-only: ratios are computed with widened intermediates and truncated
//! toward zero, and every operation either fully applies its state change or
//! leaves the pool untouched.

pub mod laws;
pub mod pool;
