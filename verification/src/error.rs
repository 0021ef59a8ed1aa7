//! The error taxonomy of the wrapper protocol.
//!
//! Every failure aborts the whole operation; no error is retried or
//! downgraded. The variants separate validation failures (a supplied account
//! is not the derived one, or is of the wrong token type), arithmetic
//! failures, invalid arguments, and the explicitly unimplemented operation.

use vstd::prelude::*;

verus! {

/// Why an operation was rejected.
#[derive(Clone, Copy, Debug, PartialEq, Eq, Structural)]
pub enum AnkerError {
    /// A zero amount was supplied where a positive one is required.
    InvalidArgument,
    /// The instruction bytes do not decode to any instruction.
    InvalidInstructionData,
    /// The accounts supplied do not belong to the decoded instruction.
    WrongAccountsForInstruction,
    /// The instance account data does not decode to an instance record.
    InvalidInstanceData,
    /// Address derivation itself failed for the stored proof integer.
    InvalidSeeds,
    /// A supplied address does not match the derived instance or authority.
    InvalidDerivedAccount,
    /// The supplied staking-protocol state account is not the configured one.
    InvalidSolidoAccount,
    /// The supplied mint is wrong, has the wrong authority, or a token
    /// account holds the wrong token type.
    InvalidTokenMint,
    /// The supplied reserve account is not the derived one, or its data does
    /// not decode to a token account.
    InvalidReserveAccount,
    /// Overflow or division by zero in an amount conversion.
    ArithmeticError,
    /// The operation is deliberately not implemented.
    Unimplemented,
}

} // verus!
