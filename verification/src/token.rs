//! Token-amount types.
//!
//! Three discrete, non-negative quantities that are never implicitly
//! interconvertible: `Lamports` (the base token, SOL), `StLamports` (the
//! staked base token, stSOL) and `BLamports` (the wrapper share token, bSOL).
//! Every arithmetic operation is checked: overflow, underflow, or an inexact
//! division yield `None`, never a wrapped value. Conversion between kinds
//! happens only through the exchange-rate engine.

use vstd::prelude::*;

verus! {

/// An amount of the base token (SOL), in its smallest unit.
#[derive(Clone, Copy, Debug, PartialEq, Eq, PartialOrd, Ord, Structural)]
pub struct Lamports(pub u64);

/// An amount of the staked base token (stSOL), in its smallest unit.
#[derive(Clone, Copy, Debug, PartialEq, Eq, PartialOrd, Ord, Structural)]
pub struct StLamports(pub u64);

/// An amount of the wrapper share token (bSOL), in its smallest unit.
#[derive(Clone, Copy, Debug, PartialEq, Eq, PartialOrd, Ord, Structural)]
pub struct BLamports(pub u64);

impl Lamports {
    /// Checked addition of two base-token amounts.
    pub fn checked_add(self, other: Lamports) -> (r: Option<Lamports>)
        ensures
            self.0 + other.0 <= u64::MAX ==> r == Some(Lamports((self.0 + other.0) as u64)),
            self.0 + other.0 > u64::MAX ==> r is None,
    {
        match self.0.checked_add(other.0) {
            Some(v) => Some(Lamports(v)),
            None => None,
        }
    }

    /// Checked subtraction of two base-token amounts.
    pub fn checked_sub(self, other: Lamports) -> (r: Option<Lamports>)
        ensures
            other.0 <= self.0 ==> r == Some(Lamports((self.0 - other.0) as u64)),
            other.0 > self.0 ==> r is None,
    {
        match self.0.checked_sub(other.0) {
            Some(v) => Some(Lamports(v)),
            None => None,
        }
    }

    /// Checked multiplication of a base-token amount by a scalar.
    pub fn mul_scalar(self, scalar: u64) -> (r: Option<Lamports>)
        ensures
            self.0 * scalar <= u64::MAX ==> r == Some(Lamports((self.0 * scalar) as u64)),
            self.0 * scalar > u64::MAX ==> r is None,
    {
        match self.0.checked_mul(scalar) {
            Some(v) => Some(Lamports(v)),
            None => None,
        }
    }
}

impl StLamports {
    /// Checked addition of two staked-token amounts.
    pub fn checked_add(self, other: StLamports) -> (r: Option<StLamports>)
        ensures
            self.0 + other.0 <= u64::MAX ==> r == Some(StLamports((self.0 + other.0) as u64)),
            self.0 + other.0 > u64::MAX ==> r is None,
    {
        match self.0.checked_add(other.0) {
            Some(v) => Some(StLamports(v)),
            None => None,
        }
    }

    /// Checked subtraction of two staked-token amounts.
    pub fn checked_sub(self, other: StLamports) -> (r: Option<StLamports>)
        ensures
            other.0 <= self.0 ==> r == Some(StLamports((self.0 - other.0) as u64)),
            other.0 > self.0 ==> r is None,
    {
        match self.0.checked_sub(other.0) {
            Some(v) => Some(StLamports(v)),
            None => None,
        }
    }

    /// Checked multiplication of a staked-token amount by a scalar.
    pub fn mul_scalar(self, scalar: u64) -> (r: Option<StLamports>)
        ensures
            self.0 * scalar <= u64::MAX ==> r == Some(StLamports((self.0 * scalar) as u64)),
            self.0 * scalar > u64::MAX ==> r is None,
    {
        match self.0.checked_mul(scalar) {
            Some(v) => Some(StLamports(v)),
            None => None,
        }
    }
}

impl BLamports {
    /// Checked addition of two share-token amounts.
    pub fn checked_add(self, other: BLamports) -> (r: Option<BLamports>)
        ensures
            self.0 + other.0 <= u64::MAX ==> r == Some(BLamports((self.0 + other.0) as u64)),
            self.0 + other.0 > u64::MAX ==> r is None,
    {
        match self.0.checked_add(other.0) {
            Some(v) => Some(BLamports(v)),
            None => None,
        }
    }

    /// Checked subtraction of two share-token amounts.
    pub fn checked_sub(self, other: BLamports) -> (r: Option<BLamports>)
        ensures
            other.0 <= self.0 ==> r == Some(BLamports((self.0 - other.0) as u64)),
            other.0 > self.0 ==> r is None,
    {
        match self.0.checked_sub(other.0) {
            Some(v) => Some(BLamports(v)),
            None => None,
        }
    }

    /// Checked multiplication of a share-token amount by a scalar.
    pub fn mul_scalar(self, scalar: u64) -> (r: Option<BLamports>)
        ensures
            self.0 * scalar <= u64::MAX ==> r == Some(BLamports((self.0 * scalar) as u64)),
            self.0 * scalar > u64::MAX ==> r is None,
    {
        match self.0.checked_mul(scalar) {
            Some(v) => Some(BLamports(v)),
            None => None,
        }
    }
}

} // verus!
