//! A custodial balance ledger.
//!
//! Each participant owns a vault record that tracks a fungible, 64-bit
//! quantity of a single asset, partitioned into a locked and an available
//! sub-balance; a singleton authority registry holds an admin identity and a
//! bounded allow-list of programs permitted to lock and unlock vault funds.
//!
//! Every mutation is all-or-nothing: it either applies in full and preserves
//! the vault invariant `total_balance == locked_balance + available_balance`,
//! or it fails with a tagged [`errors::ErrorCode`] and leaves every field
//! unchanged. The contracts on each operation state both outcomes exactly,
//! and [`laws`] proves the properties that relate operations to one another.

use vstd::prelude::*;

pub mod authority;
pub mod errors;
pub mod identity;
pub mod laws;
pub mod ops;
pub mod vault;

verus! {

/// Maximum number of programs the authority registry may authorize.
pub const MAX_AUTHORIZED_PROGRAMS: usize = 20;

/// Minimum first deposit when a vault is created: one whole token of an
/// asset with six fractional digits.
pub const MIN_DEPOSIT_AMOUNT: u64 = 1_000_000;

/// Fractional digits of the custodied asset.
pub const TOKEN_DECIMALS: u8 = 6;

} // verus!
