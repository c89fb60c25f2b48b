//! Failure taxonomy of the ledger.
//!
//! Every error is a local, synchronous, recoverable failure: the operation
//! that reports it aborts with zero mutation, and the caller may resubmit.

use vstd::prelude::*;

verus! {

/// The reason an operation was rejected. No operation that returns one of
/// these has changed any record.
#[derive(Clone, Copy, Debug, PartialEq, Eq, Structural)]
pub enum ErrorCode {
    /// A zero amount was supplied where a positive amount is required.
    InvalidAmount,
    /// A vault-creating deposit was below the required minimum.
    DepositBelowMinimum,
    /// The amount exceeds the vault's available (unlocked) balance.
    InsufficientAvailableBalance,
    /// The amount exceeds the vault's locked balance.
    InsufficientLockedBalance,
    /// The caller is not the vault's owner.
    UnauthorizedOwner,
    /// The caller is not the registry's administrator.
    UnauthorizedAdmin,
    /// The calling program is not on the authorized allow-list.
    UnauthorizedProgram,
    /// The program is already on the allow-list.
    ProgramAlreadyAuthorized,
    /// The program is not on the allow-list.
    ProgramNotAuthorized,
    /// The allow-list is at its fixed capacity.
    MaxAuthorizedProgramsReached,
    /// A checked addition would exceed the 64-bit range.
    ArithmeticOverflow,
    /// A checked subtraction would fall below zero.
    ArithmeticUnderflow,
    /// Source and destination of a transfer are the same vault.
    SameVaultTransfer,
}

} // verus!
