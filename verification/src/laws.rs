//! Laws of the ledger: properties that relate operations to one another.
//!
//! The per-operation guarantees — the record invariant after every
//! mutation, and that every rejection leaves the records bit-for-bit
//! unchanged — are stated on each operation's own contract in [`crate::vault`],
//! [`crate::authority`] and [`crate::ops`]. The proof functions here state
//! the laws that span more than one operation, over the same spec-level
//! transition functions those contracts use.

use vstd::prelude::*;

use crate::authority::VaultAuthority;
use crate::identity::Identity;
use crate::vault::CollateralVault;
use crate::MAX_AUTHORIZED_PROGRAMS;

verus! {

/// Every balance transition preserves the vault invariant: from a record
/// with `total_balance == locked_balance + available_balance`, any deposit,
/// withdrawal, lock, unlock or transfer half that its guard admits leads to
/// a record where the equation holds again. Together with the constructors,
/// which establish the invariant outright, this makes the invariant hold in
/// every reachable state.
pub proof fn lemma_transitions_preserve_invariant(v: CollateralVault, amount: u64)
    requires
        v.wf(),
    ensures
        v.can_deposit(amount) ==> v.with_deposit(amount).wf(),
        v.can_withdraw(amount) ==> v.with_withdraw(amount).wf(),
        v.can_lock(amount) ==> v.with_lock(amount).wf(),
        v.can_unlock(amount) ==> v.with_unlock(amount).wf(),
        v.can_transfer_out(amount) ==> v.with_transfer_out(amount).wf(),
        v.can_transfer_in(amount) ==> v.with_transfer_in(amount).wf(),
{
}

/// Locking `x` and then unlocking the same `x` restores the available and
/// locked balances to their pre-lock values, for any `x` within the
/// available balance at the time of locking; the unlock is admitted because
/// the lock leaves at least `x` locked.
pub proof fn lemma_lock_unlock_round_trip(v: CollateralVault, x: u64)
    requires
        v.wf(),
        x <= v.available_balance,
    ensures
        v.with_lock(x).wf(),
        x <= v.with_lock(x).locked_balance,
        v.with_lock(x).with_unlock(x) == v,
{
}

/// Removing a listed program frees the registry to re-admit it: after the
/// removal the program is no longer listed and the list is strictly under
/// its capacity, which is exactly what a following add of the same identity
/// requires in order to succeed.
pub proof fn lemma_remove_then_add_succeeds(a: VaultAuthority, id: Identity)
    requires
        a.wf(),
        a.spec_is_authorized(id),
    ensures
        !a.authorized_programs@.remove_value(id).contains(id),
        a.authorized_programs@.remove_value(id).len() < MAX_AUTHORIZED_PROGRAMS,
{
    let list = a.authorized_programs@;
    list.index_of_first_ensures(id);
    let first = list.index_of_first(id)->Some_0;
    let removed = list.remove(first);
    list.remove_ensures(first);
    assert forall|k: int| 0 <= k < removed.len() implies #[trigger] removed[k] != id by {
        if k < first {
            assert(removed[k] == list[k]);
        } else {
            assert(removed[k] == list[k + 1]);
            if list[k + 1] == id {
                assert(list[first] == list[k + 1]);
            }
        }
    }
}

} // verus!
