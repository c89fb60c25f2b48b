//! The per-owner vault record: a balance state machine.
//!
//! A vault partitions its `total_balance` into a `locked_balance` (reserved
//! by an authorized external program) and an `available_balance` (free for
//! withdrawal or transfer). The record invariant
//! `total_balance == locked_balance + available_balance` holds after every
//! mutation, and every mutation is all-or-nothing: the new field values are
//! computed with checked arithmetic before any field is written, so a
//! rejected operation leaves the record bit-for-bit unchanged.
//!
//! The successful outcome of each operation is a pure function of the old
//! record, written down by the `with_*` spec functions; each executable
//! method's contract says exactly when it succeeds and ties its result to
//! that function.

use vstd::prelude::*;

use crate::errors::ErrorCode;
use crate::identity::Identity;

verus! {

/// One participant's custodial balance record.
///
/// `owner`, `token_account`, `created_at` and `bump` are set at creation and
/// never reassigned; the five 64-bit quantities evolve under the checked
/// operations below.
#[derive(Clone, Copy, Debug, PartialEq, Eq, Structural)]
pub struct CollateralVault {
    /// Identity of the participant who owns this vault.
    pub owner: Identity,
    /// Handle of the external storage account holding the physical funds.
    pub token_account: Identity,
    /// Total custodied quantity.
    pub total_balance: u64,
    /// Portion reserved by an authorized program.
    pub locked_balance: u64,
    /// Portion free for withdrawal or transfer.
    pub available_balance: u64,
    /// Cumulative quantity ever deposited (monotonic; transfers excluded).
    pub total_deposited: u64,
    /// Cumulative quantity ever withdrawn (monotonic; transfers excluded).
    pub total_withdrawn: u64,
    /// Creation timestamp.
    pub created_at: i64,
    /// Derivation tag used for deterministic addressing.
    pub bump: u8,
}

impl CollateralVault {
    /// The record invariant: the total is exactly the locked and the
    /// available portion together.
    pub open spec fn wf(self) -> bool {
        self.total_balance == self.locked_balance + self.available_balance
    }

    /// A deposit of `amount` fits the 64-bit range.
    pub open spec fn can_deposit(self, amount: u64) -> bool {
        &&& self.total_balance + amount <= u64::MAX
        &&& self.total_deposited + amount <= u64::MAX
    }

    /// The record after a successful deposit of `amount`.
    pub open spec fn with_deposit(self, amount: u64) -> CollateralVault {
        CollateralVault {
            total_balance: (self.total_balance + amount) as u64,
            available_balance: (self.available_balance + amount) as u64,
            total_deposited: (self.total_deposited + amount) as u64,
            ..self
        }
    }

    /// A withdrawal of `amount` is covered by the available balance and its
    /// cumulative counter fits the 64-bit range.
    pub open spec fn can_withdraw(self, amount: u64) -> bool {
        &&& amount <= self.available_balance
        &&& self.total_withdrawn + amount <= u64::MAX
    }

    /// The record after a successful withdrawal of `amount`.
    pub open spec fn with_withdraw(self, amount: u64) -> CollateralVault {
        CollateralVault {
            total_balance: (self.total_balance - amount) as u64,
            available_balance: (self.available_balance - amount) as u64,
            total_withdrawn: (self.total_withdrawn + amount) as u64,
            ..self
        }
    }

    /// A lock of `amount` is covered by the available balance.
    pub open spec fn can_lock(self, amount: u64) -> bool {
        amount <= self.available_balance
    }

    /// The record after a successful lock of `amount`.
    pub open spec fn with_lock(self, amount: u64) -> CollateralVault {
        CollateralVault {
            locked_balance: (self.locked_balance + amount) as u64,
            available_balance: (self.available_balance - amount) as u64,
            ..self
        }
    }

    /// An unlock of `amount` is covered by the locked balance.
    pub open spec fn can_unlock(self, amount: u64) -> bool {
        amount <= self.locked_balance
    }

    /// The record after a successful unlock of `amount`.
    pub open spec fn with_unlock(self, amount: u64) -> CollateralVault {
        CollateralVault {
            locked_balance: (self.locked_balance - amount) as u64,
            available_balance: (self.available_balance + amount) as u64,
            ..self
        }
    }

    /// A transfer out of `amount` is covered by the available balance.
    pub open spec fn can_transfer_out(self, amount: u64) -> bool {
        amount <= self.available_balance
    }

    /// The record after a successful outgoing transfer of `amount`.
    pub open spec fn with_transfer_out(self, amount: u64) -> CollateralVault {
        CollateralVault {
            total_balance: (self.total_balance - amount) as u64,
            available_balance: (self.available_balance - amount) as u64,
            ..self
        }
    }

    /// An incoming transfer of `amount` fits the 64-bit range.
    pub open spec fn can_transfer_in(self, amount: u64) -> bool {
        self.total_balance + amount <= u64::MAX
    }

    /// The record after a successful incoming transfer of `amount`.
    pub open spec fn with_transfer_in(self, amount: u64) -> CollateralVault {
        CollateralVault {
            total_balance: (self.total_balance + amount) as u64,
            available_balance: (self.available_balance + amount) as u64,
            ..self
        }
    }

    /// Sets every field of a freshly created vault. The whole initial
    /// deposit starts available; the cumulative counters start at the
    /// initial deposit and zero.
    pub fn initialize(
        &mut self,
        owner: Identity,
        token_account: Identity,
        initial_deposit: u64,
        created_at: i64,
        bump: u8,
    )
        ensures
            *final(self) == (CollateralVault {
                owner,
                token_account,
                total_balance: initial_deposit,
                locked_balance: 0,
                available_balance: initial_deposit,
                total_deposited: initial_deposit,
                total_withdrawn: 0,
                created_at,
                bump,
            }),
            final(self).wf(),
    {
        self.owner = owner;
        self.token_account = token_account;
        self.total_balance = initial_deposit;
        self.locked_balance = 0;
        self.available_balance = initial_deposit;
        self.total_deposited = initial_deposit;
        self.total_withdrawn = 0;
        self.created_at = created_at;
        self.bump = bump;
    }

    /// Credits `amount` to the total and available balances and to the
    /// cumulative deposit counter. Fails with `ArithmeticOverflow`, leaving
    /// the record unchanged, exactly when the total balance or the counter
    /// would exceed the 64-bit range.
    pub fn deposit(&mut self, amount: u64) -> (r: Result<(), ErrorCode>)
        requires
            old(self).wf(),
        ensures
            r is Ok <==> old(self).can_deposit(amount),
            r is Ok ==> *final(self) == old(self).with_deposit(amount),
            r is Err ==> *final(self) == *old(self) && r->Err_0 == ErrorCode::ArithmeticOverflow,
            final(self).wf(),
    {
        let new_total = match self.total_balance.checked_add(amount) {
            Some(v) => v,
            None => { return Err(ErrorCode::ArithmeticOverflow); },
        };
        let new_available = match self.available_balance.checked_add(amount) {
            Some(v) => v,
            None => { return Err(ErrorCode::ArithmeticOverflow); },
        };
        let new_deposited = match self.total_deposited.checked_add(amount) {
            Some(v) => v,
            None => { return Err(ErrorCode::ArithmeticOverflow); },
        };
        self.total_balance = new_total;
        self.available_balance = new_available;
        self.total_deposited = new_deposited;
        Ok(())
    }

    /// Debits `amount` from the total and available balances and credits the
    /// cumulative withdrawal counter. Fails with `ArithmeticUnderflow` when
    /// `amount` exceeds the available balance, and with `ArithmeticOverflow`
    /// when the counter would exceed the 64-bit range; either failure leaves
    /// the record unchanged.
    pub fn withdraw(&mut self, amount: u64) -> (r: Result<(), ErrorCode>)
        requires
            old(self).wf(),
        ensures
            r is Ok <==> old(self).can_withdraw(amount),
            r is Ok ==> *final(self) == old(self).with_withdraw(amount),
            amount > old(self).available_balance ==> r == Err::<(), ErrorCode>(
                ErrorCode::ArithmeticUnderflow,
            ),
            amount <= old(self).available_balance && old(self).total_withdrawn + amount
                > u64::MAX ==> r == Err::<(), ErrorCode>(ErrorCode::ArithmeticOverflow),
            r is Err ==> *final(self) == *old(self),
            final(self).wf(),
    {
        let new_total = match self.total_balance.checked_sub(amount) {
            Some(v) => v,
            None => { return Err(ErrorCode::ArithmeticUnderflow); },
        };
        let new_available = match self.available_balance.checked_sub(amount) {
            Some(v) => v,
            None => { return Err(ErrorCode::ArithmeticUnderflow); },
        };
        let new_withdrawn = match self.total_withdrawn.checked_add(amount) {
            Some(v) => v,
            None => { return Err(ErrorCode::ArithmeticOverflow); },
        };
        self.total_balance = new_total;
        self.available_balance = new_available;
        self.total_withdrawn = new_withdrawn;
        Ok(())
    }

    /// Moves `amount` from the available to the locked balance; the total
    /// balance is unchanged. Fails, leaving the record unchanged, exactly
    /// when `amount` exceeds the available balance: with
    /// `ArithmeticOverflow` when the locked balance would also exceed the
    /// 64-bit range, else with `ArithmeticUnderflow`.
    pub fn lock(&mut self, amount: u64) -> (r: Result<(), ErrorCode>)
        requires
            old(self).wf(),
        ensures
            r is Ok <==> old(self).can_lock(amount),
            r is Ok ==> *final(self) == old(self).with_lock(amount),
            r is Err ==> *final(self) == *old(self),
            amount > old(self).available_balance ==> r == Err::<(), ErrorCode>(
                if old(self).locked_balance + amount > u64::MAX {
                    ErrorCode::ArithmeticOverflow
                } else {
                    ErrorCode::ArithmeticUnderflow
                },
            ),
            final(self).wf(),
    {
        let new_locked = match self.locked_balance.checked_add(amount) {
            Some(v) => v,
            None => { return Err(ErrorCode::ArithmeticOverflow); },
        };
        let new_available = match self.available_balance.checked_sub(amount) {
            Some(v) => v,
            None => { return Err(ErrorCode::ArithmeticUnderflow); },
        };
        self.locked_balance = new_locked;
        self.available_balance = new_available;
        Ok(())
    }

    /// Moves `amount` from the locked back to the available balance; the
    /// total balance is unchanged. Fails with `ArithmeticUnderflow`, leaving
    /// the record unchanged, exactly when `amount` exceeds the locked
    /// balance.
    pub fn unlock(&mut self, amount: u64) -> (r: Result<(), ErrorCode>)
        requires
            old(self).wf(),
        ensures
            r is Ok <==> old(self).can_unlock(amount),
            r is Ok ==> *final(self) == old(self).with_unlock(amount),
            r is Err ==> *final(self) == *old(self) && r->Err_0
                == ErrorCode::ArithmeticUnderflow,
            final(self).wf(),
    {
        let new_locked = match self.locked_balance.checked_sub(amount) {
            Some(v) => v,
            None => { return Err(ErrorCode::ArithmeticUnderflow); },
        };
        let new_available = match self.available_balance.checked_add(amount) {
            Some(v) => v,
            None => { return Err(ErrorCode::ArithmeticOverflow); },
        };
        self.locked_balance = new_locked;
        self.available_balance = new_available;
        Ok(())
    }

    /// Debits `amount` from the total and available balances without
    /// touching the cumulative counters: the outgoing half of a cross-vault
    /// transfer. Fails with `ArithmeticUnderflow`, leaving the record
    /// unchanged, exactly when `amount` exceeds the available balance.
    pub fn transfer_out(&mut self, amount: u64) -> (r: Result<(), ErrorCode>)
        requires
            old(self).wf(),
        ensures
            r is Ok <==> old(self).can_transfer_out(amount),
            r is Ok ==> *final(self) == old(self).with_transfer_out(amount),
            r is Err ==> *final(self) == *old(self) && r->Err_0
                == ErrorCode::ArithmeticUnderflow,
            final(self).wf(),
    {
        let new_total = match self.total_balance.checked_sub(amount) {
            Some(v) => v,
            None => { return Err(ErrorCode::ArithmeticUnderflow); },
        };
        let new_available = match self.available_balance.checked_sub(amount) {
            Some(v) => v,
            None => { return Err(ErrorCode::ArithmeticUnderflow); },
        };
        self.total_balance = new_total;
        self.available_balance = new_available;
        Ok(())
    }

    /// Credits `amount` to the total and available balances without touching
    /// the cumulative counters or the creation minimum: the incoming half of
    /// a cross-vault transfer. Fails with `ArithmeticOverflow`, leaving the
    /// record unchanged, exactly when the total balance would exceed the
    /// 64-bit range.
    pub fn transfer_in(&mut self, amount: u64) -> (r: Result<(), ErrorCode>)
        requires
            old(self).wf(),
        ensures
            r is Ok <==> old(self).can_transfer_in(amount),
            r is Ok ==> *final(self) == old(self).with_transfer_in(amount),
            r is Err ==> *final(self) == *old(self) && r->Err_0
                == ErrorCode::ArithmeticOverflow,
            final(self).wf(),
    {
        let new_total = match self.total_balance.checked_add(amount) {
            Some(v) => v,
            None => { return Err(ErrorCode::ArithmeticOverflow); },
        };
        let new_available = match self.available_balance.checked_add(amount) {
            Some(v) => v,
            None => { return Err(ErrorCode::ArithmeticOverflow); },
        };
        self.total_balance = new_total;
        self.available_balance = new_available;
        Ok(())
    }
}

} // verus!
