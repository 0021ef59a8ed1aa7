//! The exchange-rate engine.
//!
//! A rate is a ratio between an amount of staked base token (stSOL) and the
//! amount of wrapper share token (bSOL) it is worth. It is built from one of
//! two sources and never cached:
//!
//! - *pegged*: the external staking protocol's total staked balance and its
//!   total issued staked-token supply. Because one share token is pegged to
//!   one base token, the staked balance counts as share tokens here.
//! - *unpegged*: this protocol's own reserve balance of staked token and its
//!   own issued share-token supply.
//!
//! Conversions use exact rational arithmetic over a 128-bit intermediate
//! product and floor the result, so the protocol never over-pays. A rate
//! whose divisor side is zero is a valid state (nothing issued yet) that the
//! conversions reject explicitly.

use vstd::arithmetic::div_mod::{
    lemma_div_is_ordered, lemma_div_multiples_vanish, lemma_div_pos_is_pos,
    lemma_fundamental_div_mod, lemma_mod_bound,
};
use vstd::arithmetic::mul::{
    lemma_mul_inequality, lemma_mul_is_commutative, lemma_mul_nonnegative, lemma_mul_upper_bound,
};
use vstd::prelude::*;

use crate::error::AnkerError;
use crate::token::{BLamports, Lamports, StLamports};

verus! {

/// A ratio of staked base token to wrapper share token.
#[derive(Clone, Copy, Debug, PartialEq, Eq, Structural)]
pub struct ExchangeRate {
    /// Amount of staked base token (stSOL).
    pub st_sol_amount: StLamports,
    /// Amount of wrapper share token (bSOL) that `st_sol_amount` is worth.
    pub b_sol_amount: BLamports,
}

/// The floored conversion of `amount` units of the `from` side of a rate
/// into units of its `to` side: `amount * to_amount / from_amount`.
pub open spec fn spec_convert(amount: int, from_amount: int, to_amount: int) -> int {
    amount * to_amount / from_amount
}

impl ExchangeRate {
    /// The pegged rate: one share token is pegged to one base token, so the
    /// external protocol's staked base-token balance counts as share tokens,
    /// and its issued staked-token supply as staked tokens.
    pub fn from_solido_pegged(sol_balance: Lamports, st_sol_supply: StLamports) -> (r:
        ExchangeRate)
        ensures
            r.st_sol_amount == st_sol_supply,
            r.b_sol_amount.0 == sol_balance.0,
    {
        ExchangeRate { st_sol_amount: st_sol_supply, b_sol_amount: BLamports(sol_balance.0) }
    }

    /// The unpegged rate: one share token is one `supply`-th of this
    /// protocol's own reserve.
    pub fn from_anker_unpegged(b_sol_supply: BLamports, reserve_balance: StLamports) -> (r:
        ExchangeRate)
        ensures
            r.st_sol_amount == reserve_balance,
            r.b_sol_amount == b_sol_supply,
    {
        ExchangeRate { st_sol_amount: reserve_balance, b_sol_amount: b_sol_supply }
    }

    /// Convert staked base token into wrapper share token, flooring.
    ///
    /// Fails exactly when the rate holds no staked token (division by zero)
    /// or the floored result does not fit the amount type.
    pub fn exchange_st_sol(&self, amount: StLamports) -> (r: Result<BLamports, AnkerError>)
        ensures
            self.st_sol_amount.0 == 0 ==> r == Err::<BLamports, AnkerError>(
                AnkerError::ArithmeticError,
            ),
            self.st_sol_amount.0 > 0 ==> ({
                let q = spec_convert(
                    amount.0 as int,
                    self.st_sol_amount.0 as int,
                    self.b_sol_amount.0 as int,
                );
                if q <= u64::MAX {
                    r == Ok::<BLamports, AnkerError>(BLamports(q as u64))
                } else {
                    r == Err::<BLamports, AnkerError>(AnkerError::ArithmeticError)
                }
            }),
    {
        if self.st_sol_amount.0 == 0 {
            return Err(AnkerError::ArithmeticError);
        }
        proof {
            lemma_mul_upper_bound(
                amount.0 as int,
                u64::MAX as int,
                self.b_sol_amount.0 as int,
                u64::MAX as int,
            );
            lemma_mul_nonnegative(amount.0 as int, self.b_sol_amount.0 as int);
            lemma_div_pos_is_pos(
                amount.0 as int * self.b_sol_amount.0 as int,
                self.st_sol_amount.0 as int,
            );
        }
        let product: u128 = (amount.0 as u128) * (self.b_sol_amount.0 as u128);
        let quotient: u128 = product / (self.st_sol_amount.0 as u128);
        if quotient > (u64::MAX as u128) {
            Err(AnkerError::ArithmeticError)
        } else {
            Ok(BLamports(quotient as u64))
        }
    }

    /// Convert wrapper share token into staked base token, flooring.
    ///
    /// Fails exactly when the rate holds no share token (division by zero)
    /// or the floored result does not fit the amount type.
    pub fn exchange_b_sol(&self, amount: BLamports) -> (r: Result<StLamports, AnkerError>)
        ensures
            self.b_sol_amount.0 == 0 ==> r == Err::<StLamports, AnkerError>(
                AnkerError::ArithmeticError,
            ),
            self.b_sol_amount.0 > 0 ==> ({
                let q = spec_convert(
                    amount.0 as int,
                    self.b_sol_amount.0 as int,
                    self.st_sol_amount.0 as int,
                );
                if q <= u64::MAX {
                    r == Ok::<StLamports, AnkerError>(StLamports(q as u64))
                } else {
                    r == Err::<StLamports, AnkerError>(AnkerError::ArithmeticError)
                }
            }),
    {
        if self.b_sol_amount.0 == 0 {
            return Err(AnkerError::ArithmeticError);
        }
        proof {
            lemma_mul_upper_bound(
                amount.0 as int,
                u64::MAX as int,
                self.st_sol_amount.0 as int,
                u64::MAX as int,
            );
            lemma_mul_nonnegative(amount.0 as int, self.st_sol_amount.0 as int);
            lemma_div_pos_is_pos(
                amount.0 as int * self.st_sol_amount.0 as int,
                self.b_sol_amount.0 as int,
            );
        }
        let product: u128 = (amount.0 as u128) * (self.st_sol_amount.0 as u128);
        let quotient: u128 = product / (self.b_sol_amount.0 as u128);
        if quotient > (u64::MAX as u128) {
            Err(AnkerError::ArithmeticError)
        } else {
            Ok(StLamports(quotient as u64))
        }
    }
}

/// Law: a floored conversion never exceeds what exact rational arithmetic
/// would give, so converting an amount one way and back at one same rate is
/// non-increasing: each direction floors, and flooring never gains value.
pub proof fn lemma_round_trip_non_increasing(rate: ExchangeRate, amount: u64)
    requires
        rate.st_sol_amount.0 > 0,
        rate.b_sol_amount.0 > 0,
    ensures
        spec_convert(
            spec_convert(amount as int, rate.st_sol_amount.0 as int, rate.b_sol_amount.0 as int),
            rate.b_sol_amount.0 as int,
            rate.st_sol_amount.0 as int,
        ) <= amount as int,
{
    let a = amount as int;
    let st = rate.st_sol_amount.0 as int;
    let b = rate.b_sol_amount.0 as int;
    let q1 = a * b / st;
    lemma_mul_nonnegative(a, b);
    lemma_fundamental_div_mod(a * b, st);
    lemma_mod_bound(a * b, st);
    // st * q1 <= a * b, hence q1 * st <= a * b.
    lemma_mul_is_commutative(st, q1);
    lemma_div_is_ordered(q1 * st, a * b, b);
    // (a * b) / b == a.
    lemma_mul_is_commutative(a, b);
    lemma_div_multiples_vanish(a, b);
}

/// Law: at one same rate, a conversion is monotonic in the converted amount.
pub proof fn lemma_convert_monotonic(from_amount: u64, to_amount: u64, a1: u64, a2: u64)
    requires
        from_amount > 0,
        a1 <= a2,
    ensures
        spec_convert(a1 as int, from_amount as int, to_amount as int) <= spec_convert(
            a2 as int,
            from_amount as int,
            to_amount as int,
        ),
{
    lemma_mul_inequality(a1 as int, a2 as int, to_amount as int);
    lemma_div_is_ordered(
        a1 as int * to_amount as int,
        a2 as int * to_amount as int,
        from_amount as int,
    );
}

} // verus!
