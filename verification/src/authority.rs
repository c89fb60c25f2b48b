//! The singleton authority registry.
//!
//! The registry holds the administrator's identity and a bounded allow-list
//! of program identities that may lock and unlock vault funds. The record
//! invariant keeps the list free of duplicates and within its fixed
//! capacity; membership is a capability, not an ownership relation.

use vstd::prelude::*;

use crate::errors::ErrorCode;
use crate::identity::Identity;
use crate::MAX_AUTHORIZED_PROGRAMS;

verus! {

/// The process-wide authority record: one admin, one allow-list.
#[derive(Clone, Debug, PartialEq, Eq)]
pub struct VaultAuthority {
    /// Identity of the administrator, the only caller allowed to mutate the
    /// allow-list.
    pub admin: Identity,
    /// Programs granted the lock/unlock capability, in insertion order.
    pub authorized_programs: Vec<Identity>,
    /// Derivation tag used for deterministic addressing.
    pub bump: u8,
}

impl VaultAuthority {
    /// The record invariant: no duplicate entries, and the list never
    /// exceeds its fixed capacity.
    pub open spec fn wf(self) -> bool {
        &&& self.authorized_programs@.len() <= MAX_AUTHORIZED_PROGRAMS
        &&& forall|i: int, j: int|
            0 <= i < j < self.authorized_programs@.len() ==> #[trigger] self.authorized_programs@[i]
                != #[trigger] self.authorized_programs@[j]
    }

    /// The allow-list holds `program_id`.
    pub open spec fn spec_is_authorized(self, program_id: Identity) -> bool {
        self.authorized_programs@.contains(program_id)
    }

    /// Sets every field of a freshly created registry: the given admin and
    /// an empty allow-list.
    pub fn initialize(&mut self, admin: Identity, bump: u8)
        ensures
            final(self).admin == admin,
            final(self).bump == bump,
            final(self).authorized_programs@ == Seq::<Identity>::empty(),
            final(self).wf(),
    {
        self.admin = admin;
        self.authorized_programs = Vec::new();
        self.bump = bump;
    }

    /// Reports whether `program_id` holds the lock/unlock capability, by a
    /// linear scan of the allow-list.
    pub fn is_authorized(&self, program_id: &Identity) -> (r: bool)
        ensures
            r == self.spec_is_authorized(*program_id),
    {
        let mut idx: usize = 0;
        while idx < self.authorized_programs.len()
            invariant
                idx <= self.authorized_programs@.len(),
                forall|k: int| 0 <= k < idx ==> self.authorized_programs@[k] != *program_id,
            decreases self.authorized_programs@.len() - idx,
        {
            if self.authorized_programs[idx] == *program_id {
                return true;
            }
            idx += 1;
        }
        false
    }

    /// Appends `program_id` to the allow-list, preserving insertion order.
    /// Fails with `ProgramAlreadyAuthorized` when the program is already
    /// listed, and with `MaxAuthorizedProgramsReached` when the list is at
    /// capacity; either failure leaves the record unchanged.
    pub fn add_program(&mut self, program_id: Identity) -> (r: Result<(), ErrorCode>)
        requires
            old(self).wf(),
        ensures
            r is Ok <==> !old(self).spec_is_authorized(program_id)
                && old(self).authorized_programs@.len() < MAX_AUTHORIZED_PROGRAMS,
            r is Ok ==> final(self).authorized_programs@ == old(self).authorized_programs@.push(
                program_id,
            ),
            old(self).spec_is_authorized(program_id) ==> r == Err::<(), ErrorCode>(
                ErrorCode::ProgramAlreadyAuthorized,
            ),
            !old(self).spec_is_authorized(program_id) && old(self).authorized_programs@.len()
                >= MAX_AUTHORIZED_PROGRAMS ==> r == Err::<(), ErrorCode>(
                ErrorCode::MaxAuthorizedProgramsReached,
            ),
            r is Err ==> *final(self) == *old(self),
            final(self).admin == old(self).admin,
            final(self).bump == old(self).bump,
            final(self).wf(),
    {
        if self.is_authorized(&program_id) {
            return Err(ErrorCode::ProgramAlreadyAuthorized);
        }
        if self.authorized_programs.len() >= MAX_AUTHORIZED_PROGRAMS {
            return Err(ErrorCode::MaxAuthorizedProgramsReached);
        }
        self.authorized_programs.push(program_id);
        proof {
            let new_list = self.authorized_programs@;
            let old_list = old(self).authorized_programs@;
            assert forall|i: int, j: int| 0 <= i < j < new_list.len() implies #[trigger] new_list[i]
                != #[trigger] new_list[j] by {
                if j < old_list.len() {
                } else {
                    assert(new_list[j] == program_id);
                    assert(old_list[i] == new_list[i]);
                    assert(!old_list.contains(program_id));
                }
            }
        }
        Ok(())
    }

    /// Removes `program_id` from the allow-list, shifting later entries
    /// left. Fails with `ProgramNotAuthorized`, leaving the record
    /// unchanged, when the program is not listed.
    pub fn remove_program(&mut self, program_id: Identity) -> (r: Result<(), ErrorCode>)
        requires
            old(self).wf(),
        ensures
            r is Ok <==> old(self).spec_is_authorized(program_id),
            r is Ok ==> final(self).authorized_programs@ == old(
                self,
            ).authorized_programs@.remove_value(program_id),
            r is Ok ==> !final(self).spec_is_authorized(program_id),
            r is Ok ==> final(self).authorized_programs@.len() == old(
                self,
            ).authorized_programs@.len() - 1,
            r is Err ==> *final(self) == *old(self) && r->Err_0 == ErrorCode::ProgramNotAuthorized,
            final(self).admin == old(self).admin,
            final(self).bump == old(self).bump,
            final(self).wf(),
    {
        let len = self.authorized_programs.len();
        let mut idx: usize = 0;
        while idx < len
            invariant
                *self == *old(self),
                old(self).wf(),
                len == self.authorized_programs@.len(),
                idx <= len,
                forall|k: int| 0 <= k < idx ==> self.authorized_programs@[k] != program_id,
            decreases len - idx,
        {
            if self.authorized_programs[idx] == program_id {
                let list = Ghost(self.authorized_programs@);
                self.authorized_programs.remove(idx);
                proof {
                    lemma_remove_first_occurrence(list@, program_id, idx as int);
                    lemma_remove_keeps_distinct(list@, idx as int);
                    assert forall|k: int|
                        0 <= k < self.authorized_programs@.len() implies #[trigger] self
                        .authorized_programs@[k] != program_id by {
                        if k >= idx {
                            assert(self.authorized_programs@[k] == list@[k + 1]);
                            if list@[k + 1] == program_id {
                                assert(list@[idx as int] == list@[k + 1]);
                            }
                        }
                    }
                }
                return Ok(());
            }
            idx += 1;
        }
        Err(ErrorCode::ProgramNotAuthorized)
    }
}

/// When `list[idx]` is the first occurrence of `val`, removing index `idx`
/// is removing the value.
proof fn lemma_remove_first_occurrence(list: Seq<Identity>, val: Identity, idx: int)
    requires
        0 <= idx < list.len(),
        list[idx] == val,
        forall|k: int| 0 <= k < idx ==> list[k] != val,
    ensures
        list.remove_value(val) == list.remove(idx),
{
    list.index_of_first_ensures(val);
    assert(list.contains(val));
    let first = list.index_of_first(val)->Some_0;
    assert(list[first] == val);
    if first < idx {
        assert(list[first] != val);
    }
    if first > idx {
        assert(list[idx] != val);
    }
}

/// Removing an element of a duplicate-free sequence leaves it
/// duplicate-free.
proof fn lemma_remove_keeps_distinct(list: Seq<Identity>, idx: int)
    requires
        0 <= idx < list.len(),
        forall|i: int, j: int| 0 <= i < j < list.len() ==> #[trigger] list[i] != #[trigger] list[j],
    ensures
        forall|i: int, j: int|
            0 <= i < j < list.remove(idx).len() ==> #[trigger] list.remove(idx)[i]
                != #[trigger] list.remove(idx)[j],
{
    let shorter = list.remove(idx);
    list.remove_ensures(idx);
    assert forall|i: int, j: int| 0 <= i < j < shorter.len() implies #[trigger] shorter[i]
        != #[trigger] shorter[j] by {
        let i0: int = if i < idx { i } else { i + 1 };
        let j0: int = if j < idx { j } else { j + 1 };
        assert(shorter[i] == list[i0]);
        assert(shorter[j] == list[j0]);
    }
}

} // verus!
