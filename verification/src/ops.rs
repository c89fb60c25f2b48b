//! The ledger's operations: authorization gate plus record transition.
//!
//! Each function here is the decision-and-mutation core of one external
//! request. The host environment hands it the attested caller identity and
//! the records the request touches, already located by their deterministic
//! addresses; the physical fund movement, event emission and timestamping
//! stay with the host, which must commit them atomically with the mutation
//! made here.
//!
//! Every function validates before it writes: on any error the records are
//! returned bit-for-bit unchanged, and each contract says exactly which
//! error comes back on which inputs.

use vstd::prelude::*;

use crate::authority::VaultAuthority;
use crate::errors::ErrorCode;
use crate::identity::Identity;
use crate::vault::CollateralVault;
use crate::MAX_AUTHORIZED_PROGRAMS;
use crate::MIN_DEPOSIT_AMOUNT;

verus! {

/// Creates the singleton authority registry with `admin` as its
/// administrator and an empty allow-list.
pub fn initialize_authority(admin: Identity, bump: u8) -> (r: VaultAuthority)
    ensures
        r.admin == admin,
        r.bump == bump,
        r.authorized_programs@ == Seq::<Identity>::empty(),
        r.wf(),
{
    let mut authority = VaultAuthority { admin, authorized_programs: Vec::new(), bump };
    authority.initialize(admin, bump);
    authority
}

/// Creates a vault for `owner` funded with `initial_deposit`.
///
/// Fails with `DepositBelowMinimum` exactly when the first deposit is under
/// [`MIN_DEPOSIT_AMOUNT`]; the minimum applies only here, never to later
/// deposits.
pub fn initialize_vault(
    owner: Identity,
    token_account: Identity,
    initial_deposit: u64,
    created_at: i64,
    bump: u8,
) -> (r: Result<CollateralVault, ErrorCode>)
    ensures
        r is Ok <==> initial_deposit >= MIN_DEPOSIT_AMOUNT,
        r is Err ==> r->Err_0 == ErrorCode::DepositBelowMinimum,
        r is Ok ==> r->Ok_0 == (CollateralVault {
            owner,
            token_account,
            total_balance: initial_deposit,
            locked_balance: 0,
            available_balance: initial_deposit,
            total_deposited: initial_deposit,
            total_withdrawn: 0,
            created_at,
            bump,
        }),
        r is Ok ==> r->Ok_0.wf(),
{
    if initial_deposit < MIN_DEPOSIT_AMOUNT {
        return Err(ErrorCode::DepositBelowMinimum);
    }
    let mut vault = CollateralVault {
        owner,
        token_account,
        total_balance: 0,
        locked_balance: 0,
        available_balance: 0,
        total_deposited: 0,
        total_withdrawn: 0,
        created_at: 0,
        bump: 0,
    };
    vault.initialize(owner, token_account, initial_deposit, created_at, bump);
    Ok(vault)
}

/// Credits `amount` to the caller's own vault.
///
/// Rejects, in this order: a caller other than the vault's owner
/// (`UnauthorizedOwner`), a zero amount (`InvalidAmount`), and a balance or
/// cumulative counter that would leave the 64-bit range
/// (`ArithmeticOverflow`).
pub fn deposit(vault: &mut CollateralVault, caller: Identity, amount: u64) -> (r: Result<
    (),
    ErrorCode,
>)
    requires
        old(vault).wf(),
    ensures
        r is Ok <==> caller == old(vault).owner && amount > 0 && old(vault).can_deposit(amount),
        r is Ok ==> *final(vault) == old(vault).with_deposit(amount),
        caller != old(vault).owner ==> r == Err::<(), ErrorCode>(ErrorCode::UnauthorizedOwner),
        caller == old(vault).owner && amount == 0 ==> r == Err::<(), ErrorCode>(
            ErrorCode::InvalidAmount,
        ),
        caller == old(vault).owner && amount > 0 && !old(vault).can_deposit(amount) ==> r
            == Err::<(), ErrorCode>(ErrorCode::ArithmeticOverflow),
        r is Err ==> *final(vault) == *old(vault),
        final(vault).wf(),
{
    if !(caller == vault.owner) {
        return Err(ErrorCode::UnauthorizedOwner);
    }
    if amount == 0 {
        return Err(ErrorCode::InvalidAmount);
    }
    vault.deposit(amount)
}

/// Debits `amount` from the caller's own vault for withdrawal.
///
/// Rejects, in this order: a caller other than the vault's owner
/// (`UnauthorizedOwner`), a zero amount (`InvalidAmount`), an amount over
/// the available balance (`InsufficientAvailableBalance`), and a cumulative
/// counter that would leave the 64-bit range (`ArithmeticOverflow`).
pub fn withdraw(vault: &mut CollateralVault, caller: Identity, amount: u64) -> (r: Result<
    (),
    ErrorCode,
>)
    requires
        old(vault).wf(),
    ensures
        r is Ok <==> caller == old(vault).owner && amount > 0 && old(vault).can_withdraw(amount),
        r is Ok ==> *final(vault) == old(vault).with_withdraw(amount),
        caller != old(vault).owner ==> r == Err::<(), ErrorCode>(ErrorCode::UnauthorizedOwner),
        caller == old(vault).owner && amount == 0 ==> r == Err::<(), ErrorCode>(
            ErrorCode::InvalidAmount,
        ),
        caller == old(vault).owner && amount > old(vault).available_balance ==> r == Err::<
            (),
            ErrorCode,
        >(ErrorCode::InsufficientAvailableBalance),
        caller == old(vault).owner && 0 < amount <= old(vault).available_balance && old(
            vault,
        ).total_withdrawn + amount > u64::MAX ==> r == Err::<(), ErrorCode>(
            ErrorCode::ArithmeticOverflow,
        ),
        r is Err ==> *final(vault) == *old(vault),
        final(vault).wf(),
{
    if !(caller == vault.owner) {
        return Err(ErrorCode::UnauthorizedOwner);
    }
    if amount == 0 {
        return Err(ErrorCode::InvalidAmount);
    }
    if vault.available_balance < amount {
        return Err(ErrorCode::InsufficientAvailableBalance);
    }
    vault.withdraw(amount)
}

/// Locks `amount` of a vault's available balance on behalf of an external
/// program.
///
/// The capability is the registry: any allow-listed program may lock any
/// vault's funds; the claimed owner is cross-checked against the vault's
/// stored owner as a second factor, not as consent. Rejects, in this order:
/// a program outside the allow-list (`UnauthorizedProgram`), a zero amount
/// (`InvalidAmount`), a claimed owner other than the vault's owner
/// (`UnauthorizedOwner`), and an amount over the available balance
/// (`InsufficientAvailableBalance`).
pub fn lock_collateral(
    authority: &VaultAuthority,
    vault: &mut CollateralVault,
    caller_program: Identity,
    claimed_owner: Identity,
    amount: u64,
) -> (r: Result<(), ErrorCode>)
    requires
        old(vault).wf(),
    ensures
        r is Ok <==> authority.spec_is_authorized(caller_program) && amount > 0 && claimed_owner
            == old(vault).owner && amount <= old(vault).available_balance,
        r is Ok ==> *final(vault) == old(vault).with_lock(amount),
        !authority.spec_is_authorized(caller_program) ==> r == Err::<(), ErrorCode>(
            ErrorCode::UnauthorizedProgram,
        ),
        authority.spec_is_authorized(caller_program) && amount == 0 ==> r == Err::<(), ErrorCode>(
            ErrorCode::InvalidAmount,
        ),
        authority.spec_is_authorized(caller_program) && amount > 0 && claimed_owner != old(
            vault,
        ).owner ==> r == Err::<(), ErrorCode>(ErrorCode::UnauthorizedOwner),
        authority.spec_is_authorized(caller_program) && amount > 0 && claimed_owner == old(
            vault,
        ).owner && amount > old(vault).available_balance ==> r == Err::<(), ErrorCode>(
            ErrorCode::InsufficientAvailableBalance,
        ),
        r is Err ==> *final(vault) == *old(vault),
        final(vault).wf(),
{
    if !authority.is_authorized(&caller_program) {
        return Err(ErrorCode::UnauthorizedProgram);
    }
    if amount == 0 {
        return Err(ErrorCode::InvalidAmount);
    }
    if !(claimed_owner == vault.owner) {
        return Err(ErrorCode::UnauthorizedOwner);
    }
    if vault.available_balance < amount {
        return Err(ErrorCode::InsufficientAvailableBalance);
    }
    vault.lock(amount)
}

/// Releases `amount` of a vault's locked balance on behalf of an external
/// program.
///
/// Rejects, in this order: a program outside the allow-list
/// (`UnauthorizedProgram`), a zero amount (`InvalidAmount`), a claimed
/// owner other than the vault's owner (`UnauthorizedOwner`), and an amount
/// over the locked balance (`InsufficientLockedBalance`).
pub fn unlock_collateral(
    authority: &VaultAuthority,
    vault: &mut CollateralVault,
    caller_program: Identity,
    claimed_owner: Identity,
    amount: u64,
) -> (r: Result<(), ErrorCode>)
    requires
        old(vault).wf(),
    ensures
        r is Ok <==> authority.spec_is_authorized(caller_program) && amount > 0 && claimed_owner
            == old(vault).owner && amount <= old(vault).locked_balance,
        r is Ok ==> *final(vault) == old(vault).with_unlock(amount),
        !authority.spec_is_authorized(caller_program) ==> r == Err::<(), ErrorCode>(
            ErrorCode::UnauthorizedProgram,
        ),
        authority.spec_is_authorized(caller_program) && amount == 0 ==> r == Err::<(), ErrorCode>(
            ErrorCode::InvalidAmount,
        ),
        authority.spec_is_authorized(caller_program) && amount > 0 && claimed_owner != old(
            vault,
        ).owner ==> r == Err::<(), ErrorCode>(ErrorCode::UnauthorizedOwner),
        authority.spec_is_authorized(caller_program) && amount > 0 && claimed_owner == old(
            vault,
        ).owner && amount > old(vault).locked_balance ==> r == Err::<(), ErrorCode>(
            ErrorCode::InsufficientLockedBalance,
        ),
        r is Err ==> *final(vault) == *old(vault),
        final(vault).wf(),
{
    if !authority.is_authorized(&caller_program) {
        return Err(ErrorCode::UnauthorizedProgram);
    }
    if amount == 0 {
        return Err(ErrorCode::InvalidAmount);
    }
    if !(claimed_owner == vault.owner) {
        return Err(ErrorCode::UnauthorizedOwner);
    }
    if vault.locked_balance < amount {
        return Err(ErrorCode::InsufficientLockedBalance);
    }
    vault.unlock(amount)
}

/// Moves `amount` from one vault's available balance into another vault's,
/// as one indivisible unit: either both records change or neither does.
///
/// Vaults are deterministically addressed by their owner, one vault per
/// owner, so two distinct vaults never share an owner and the same-vault
/// check compares owners. Rejects, in this order: a zero amount
/// (`InvalidAmount`), source and destination with the same owner
/// (`SameVaultTransfer`), an amount over the source's available balance
/// (`InsufficientAvailableBalance`), and a destination total that would
/// leave the 64-bit range (`ArithmeticOverflow`). A successful transfer
/// conserves the two totals' sum and leaves the cumulative deposit and
/// withdrawal counters of both vaults untouched.
pub fn transfer_collateral(
    from_vault: &mut CollateralVault,
    to_vault: &mut CollateralVault,
    amount: u64,
) -> (r: Result<(), ErrorCode>)
    requires
        old(from_vault).wf(),
        old(to_vault).wf(),
    ensures
        r is Ok <==> amount > 0 && old(from_vault).owner != old(to_vault).owner && amount <= old(
            from_vault,
        ).available_balance && old(to_vault).total_balance + amount <= u64::MAX,
        r is Ok ==> *final(from_vault) == old(from_vault).with_transfer_out(amount)
            && *final(to_vault) == old(to_vault).with_transfer_in(amount),
        r is Ok ==> final(from_vault).total_balance + final(to_vault).total_balance == old(
            from_vault,
        ).total_balance + old(to_vault).total_balance,
        amount == 0 ==> r == Err::<(), ErrorCode>(ErrorCode::InvalidAmount),
        amount > 0 && old(from_vault).owner == old(to_vault).owner ==> r == Err::<(), ErrorCode>(
            ErrorCode::SameVaultTransfer,
        ),
        amount > 0 && old(from_vault).owner != old(to_vault).owner && amount > old(
            from_vault,
        ).available_balance ==> r == Err::<(), ErrorCode>(ErrorCode::InsufficientAvailableBalance),
        amount > 0 && old(from_vault).owner != old(to_vault).owner && amount <= old(
            from_vault,
        ).available_balance && old(to_vault).total_balance + amount > u64::MAX ==> r == Err::<
            (),
            ErrorCode,
        >(ErrorCode::ArithmeticOverflow),
        r is Err ==> *final(from_vault) == *old(from_vault) && *final(to_vault) == *old(to_vault),
        final(from_vault).wf(),
        final(to_vault).wf(),
{
    if amount == 0 {
        return Err(ErrorCode::InvalidAmount);
    }
    if from_vault.owner == to_vault.owner {
        return Err(ErrorCode::SameVaultTransfer);
    }
    if from_vault.available_balance < amount {
        return Err(ErrorCode::InsufficientAvailableBalance);
    }
    if u64::MAX - amount < to_vault.total_balance {
        return Err(ErrorCode::ArithmeticOverflow);
    }
    from_vault.transfer_out(amount)?;
    to_vault.transfer_in(amount)?;
    Ok(())
}

/// Grants `program_id` the lock/unlock capability.
///
/// Only the registry's administrator may mutate the allow-list
/// (`UnauthorizedAdmin`); the list rejects duplicates
/// (`ProgramAlreadyAuthorized`) and respects its fixed capacity
/// (`MaxAuthorizedProgramsReached`).
pub fn add_authorized_program(
    authority: &mut VaultAuthority,
    caller: Identity,
    program_id: Identity,
) -> (r: Result<(), ErrorCode>)
    requires
        old(authority).wf(),
    ensures
        r is Ok <==> caller == old(authority).admin && !old(authority).spec_is_authorized(
            program_id,
        ) && old(authority).authorized_programs@.len() < MAX_AUTHORIZED_PROGRAMS,
        r is Ok ==> final(authority).authorized_programs@ == old(
            authority,
        ).authorized_programs@.push(program_id),
        caller != old(authority).admin ==> r == Err::<(), ErrorCode>(ErrorCode::UnauthorizedAdmin),
        caller == old(authority).admin && old(authority).spec_is_authorized(program_id) ==> r
            == Err::<(), ErrorCode>(ErrorCode::ProgramAlreadyAuthorized),
        caller == old(authority).admin && !old(authority).spec_is_authorized(program_id) && old(
            authority,
        ).authorized_programs@.len() >= MAX_AUTHORIZED_PROGRAMS ==> r == Err::<(), ErrorCode>(
            ErrorCode::MaxAuthorizedProgramsReached,
        ),
        r is Err ==> *final(authority) == *old(authority),
        final(authority).admin == old(authority).admin,
        final(authority).bump == old(authority).bump,
        final(authority).wf(),
{
    if !(caller == authority.admin) {
        return Err(ErrorCode::UnauthorizedAdmin);
    }
    authority.add_program(program_id)
}

/// Revokes `program_id`'s lock/unlock capability.
///
/// Only the registry's administrator may mutate the allow-list
/// (`UnauthorizedAdmin`); removing a program that is not listed fails with
/// `ProgramNotAuthorized`.
pub fn remove_authorized_program(
    authority: &mut VaultAuthority,
    caller: Identity,
    program_id: Identity,
) -> (r: Result<(), ErrorCode>)
    requires
        old(authority).wf(),
    ensures
        r is Ok <==> caller == old(authority).admin && old(authority).spec_is_authorized(
            program_id,
        ),
        r is Ok ==> final(authority).authorized_programs@ == old(
            authority,
        ).authorized_programs@.remove_value(program_id),
        r is Ok ==> !final(authority).spec_is_authorized(program_id),
        r is Ok ==> final(authority).authorized_programs@.len() == old(
            authority,
        ).authorized_programs@.len() - 1,
        caller != old(authority).admin ==> r == Err::<(), ErrorCode>(ErrorCode::UnauthorizedAdmin),
        caller == old(authority).admin && !old(authority).spec_is_authorized(program_id) ==> r
            == Err::<(), ErrorCode>(ErrorCode::ProgramNotAuthorized),
        r is Err ==> *final(authority) == *old(authority),
        final(authority).admin == old(authority).admin,
        final(authority).bump == old(authority).bump,
        final(authority).wf(),
{
    if !(caller == authority.admin) {
        return Err(ErrorCode::UnauthorizedAdmin);
    }
    authority.remove_program(program_id)
}

} // verus!
