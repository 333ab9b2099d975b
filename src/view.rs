//! Read-only views of the protocol for its presentation layer.
use crate::bond_note::{BondNote, BondStatus};
use crate::contract::{from_accrual, map_accrual_error, PhoenixBonds};
use crate::errors::BondError;
use crate::types::{Balance, BasisPoint, Duration, Timestamp};
use vstd::prelude::*;

verus! {

/// The accrual controller's parameters and state at one time.
pub struct AccrualInfo {
    pub alpha: Duration,
    pub min_alpha: Duration,
    pub adjust_interval: Duration,
    pub adjust_rate: BasisPoint,
    /// whether the mean age is above the target, so that alpha decays
    pub decreasing: bool,
    pub target_mean_length: Duration,
    pub current_mean_length: Duration,
}

/// The pools, settings and accrual state of the protocol.
pub struct Summary {
    pub owner_id: String,
    pub linear_balance: Balance,
    pub reserve_pool_near_amount: Balance,
    pub pending_pool_near_amount: Balance,
    pub permanent_pool_near_amount: Balance,
    pub treasury_pool_near_amount: Balance,
    pub bootstrap_ends_at: Timestamp,
    pub tau: BasisPoint,
    pub accrual_parameter: AccrualInfo,
}

/// A note with what it is worth now.
pub struct BondNoteInfo {
    pub id: u32,
    pub account_id: String,
    pub bond_amount: Balance,
    pub committed_pnear_amount: Balance,
    pub created_at: Timestamp,
    pub settled_at: Timestamp,
    pub status: BondStatus,
    /// the most claim tokens the note can earn
    pub cap: Balance,
    /// the claim tokens the note has earned
    pub accrued_pnear: Balance,
}

impl BondNoteInfo {
    /// `self` shows `note` at `now`, priced at `price` with a claim-token
    /// supply of `supply`.
    pub open spec fn shows(&self, owner: &PhoenixBonds, note: BondNote, price: int, supply: int, now: int) -> bool {
        &&& self.id == note.id
        &&& self.account_id@ == note.account_id@
        &&& self.bond_amount == note.bond_amount
        &&& self.committed_pnear_amount == note.committed_pnear_amount
        &&& self.created_at == note.created_at
        &&& self.settled_at == note.settled_at
        &&& self.status == note.status
        &&& owner.note_cap_spec(note.bond_amount as int, price, supply) == Some(self.cap as int)
        &&& owner.note_accrued_result(note, price, supply, now) == Ok::<int, BondError>(
            self.accrued_pnear as int,
        )
    }
}

impl PhoenixBonds {
    /// `note` can be shown: its cap and its earnings can be computed.
    pub open spec fn showable(&self, note: BondNote, price: int, supply: int, now: int) -> bool {
        &&& self.note_cap_spec(note.bond_amount as int, price, supply) is Some
        &&& self.note_accrued_result(note, price, supply, now) is Ok
    }

    /// The protocol summary at `now`, priced at `linear_price`.
    pub fn get_summary(&self, linear_price: Balance, now: Timestamp) -> (r: Result<Summary, BondError>)
        requires
            self.wf(),
        ensures
            r is Ok <==> self.reserve_spec(linear_price as int) is Some
                && self.accrual_param.mean_length.mean_result(now as int) is Ok,
            self.accrual_param.mean_length.mean_result(now as int) is Err ==> r is Err
                && r->Err_0 == from_accrual(self.accrual_param.mean_length.mean_result(now as int)->Err_0),
            r is Ok ==> {
                let s = r->Ok_0;
                let m = self.accrual_param.mean_length.mean_result(now as int)->Ok_0;
                &&& s.owner_id@ == self.owner_id@
                &&& s.linear_balance == self.linear_balance
                &&& s.reserve_pool_near_amount == self.reserve_spec(linear_price as int)->0
                &&& s.pending_pool_near_amount == self.pending_pool_near_amount
                &&& s.permanent_pool_near_amount == self.permanent_pool_near_amount
                &&& s.treasury_pool_near_amount == self.treasury_pool_near_amount
                &&& s.bootstrap_ends_at == self.bootstrap_ends_at
                &&& s.tau == self.tau
                &&& s.accrual_parameter.alpha == self.accrual_param.alpha_result(now as int)->Ok_0
                &&& s.accrual_parameter.min_alpha == self.accrual_param.min_alpha
                &&& s.accrual_parameter.adjust_interval == self.accrual_param.adjust_interval
                &&& s.accrual_parameter.adjust_rate == self.accrual_param.adjust_rate
                &&& s.accrual_parameter.decreasing == (m > self.accrual_param.target_mean_length)
                &&& s.accrual_parameter.target_mean_length == self.accrual_param.target_mean_length
                &&& s.accrual_parameter.current_mean_length == m
            },
    {
        let current_mean_length = match self.accrual_param.mean_length.mean(now) {
            Ok(m) => m,
            Err(e) => {
                return Err(map_accrual_error(e));
            },
        };
        let alpha = match self.accrual_param.current_alpha(now) {
            Ok(a) => a,
            Err(e) => {
                return Err(map_accrual_error(e));
            },
        };
        let reserve = match self.reserve_pool_near_amount(linear_price) {
            Some(x) => x,
            None => {
                return Err(BondError::Overflow);
            },
        };
        Ok(Summary {
            owner_id: self.owner_id.clone(),
            linear_balance: self.linear_balance,
            reserve_pool_near_amount: reserve,
            pending_pool_near_amount: self.pending_pool_near_amount,
            permanent_pool_near_amount: self.permanent_pool_near_amount,
            treasury_pool_near_amount: self.treasury_pool_near_amount,
            bootstrap_ends_at: self.bootstrap_ends_at,
            tau: self.tau,
            accrual_parameter: AccrualInfo {
                alpha,
                min_alpha: self.accrual_param.min_alpha,
                adjust_interval: self.accrual_param.adjust_interval,
                adjust_rate: self.accrual_param.adjust_rate,
                decreasing: current_mean_length > self.accrual_param.target_mean_length,
                target_mean_length: self.accrual_param.target_mean_length,
                current_mean_length,
            },
        })
    }

    /// `note` with its cap and earnings at `now`.
    pub fn build_note_info(
        &self,
        note: &BondNote,
        linear_price: Balance,
        pnear_total_supply: Balance,
        now: Timestamp,
    ) -> (r: Result<BondNoteInfo, BondError>)
        requires
            self.wf(),
            note.wf(),
        ensures
            r is Ok <==> self.showable(*note, linear_price as int, pnear_total_supply as int, now as int),
            r is Ok ==> r->Ok_0.shows(
                self,
                *note,
                linear_price as int,
                pnear_total_supply as int,
                now as int,
            ),
    {
        let cap = match self.note_cap(note, linear_price, pnear_total_supply) {
            Some(c) => c,
            None => {
                return Err(BondError::Overflow);
            },
        };
        let accrued_pnear = match self.note_accrued_pnear(
            note,
            linear_price,
            pnear_total_supply,
            now,
        ) {
            Ok(x) => x,
            Err(e) => {
                return Err(e);
            },
        };
        Ok(BondNoteInfo {
            id: note.id,
            account_id: note.account_id.clone(),
            bond_amount: note.bond_amount,
            committed_pnear_amount: note.committed_pnear_amount,
            created_at: note.created_at,
            settled_at: note.settled_at,
            status: note.status,
            cap,
            accrued_pnear,
        })
    }

    /// Note `note_id` of `account_id` with its cap and earnings at `now`.
    pub fn get_bond_note(
        &self,
        account_id: &String,
        note_id: u32,
        linear_price: Balance,
        pnear_total_supply: Balance,
        now: Timestamp,
    ) -> (r: Result<BondNoteInfo, BondError>)
        requires
            self.wf(),
        ensures
            note_id >= self.bond_notes.notes_of(account_id@).len() ==> r == Err::<
                BondNoteInfo,
                BondError,
            >(BondError::NoteNotFound),
            r is Ok <==> note_id < self.bond_notes.notes_of(account_id@).len() && self.showable(
                self.bond_notes.notes_of(account_id@)[note_id as int],
                linear_price as int,
                pnear_total_supply as int,
                now as int,
            ),
            r is Ok ==> r->Ok_0.shows(
                self,
                self.bond_notes.notes_of(account_id@)[note_id as int],
                linear_price as int,
                pnear_total_supply as int,
                now as int,
            ),
    {
        match self.bond_notes.get_user_note(account_id, note_id) {
            None => Err(BondError::NoteNotFound),
            Some(note) => self.build_note_info(&note, linear_price, pnear_total_supply, now),
        }
    }

    /// The number of notes of `account_id`.
    pub fn notes_count(&self, account_id: &String) -> (r: u32)
        requires
            self.wf(),
        ensures
            r == self.bond_notes.notes_of(account_id@).len(),
    {
        self.bond_notes.user_note_len(account_id)
    }

    /// The number of pending notes of `account_id`.
    pub fn pending_notes_count(&self, account_id: &String) -> (r: u32)
        requires
            self.wf(),
        ensures
            r == self.bond_notes.pending_ids_of(account_id@).len(),
    {
        self.bond_notes.user_pending_note_len(account_id)
    }

    /// Up to `limit` pending notes of `account_id`, skipping the first
    /// `offset` of them in the ledger's order of pending ids, each with its
    /// cap and earnings at `now`.
    pub fn list_pending_notes(
        &self,
        account_id: &String,
        linear_price: Balance,
        pnear_total_supply: Balance,
        now: Timestamp,
        offset: u32,
        limit: u32,
    ) -> (r: Result<Vec<BondNoteInfo>, BondError>)
        requires
            self.wf(),
        ensures
            (forall|i: u32|
                #![trigger self.bond_notes.pending_ids_of(account_id@).contains(i)]
                self.bond_notes.pending_ids_of(account_id@).contains(i) ==> self.showable(
                    self.bond_notes.notes_of(account_id@)[i as int],
                    linear_price as int,
                    pnear_total_supply as int,
                    now as int,
                )) ==> r is Ok,
            r is Ok ==> {
                let v = r->Ok_0@;
                let pending = self.bond_notes.pending_ids_of(account_id@).len();
                &&& v.len() == if offset >= pending {
                    0
                } else {
                    vstd::math::min(limit as int, pending - offset)
                }
                &&& forall|k: int|
                    #![trigger v[k]]
                    0 <= k < v.len() ==> {
                        &&& v[k].id == self.bond_notes.pending_id_seq(account_id@)[offset + k]
                        &&& self.bond_notes.pending_ids_of(account_id@).contains(v[k].id)
                        &&& v[k].shows(
                            self,
                            self.bond_notes.notes_of(account_id@)[v[k].id as int],
                            linear_price as int,
                            pnear_total_supply as int,
                            now as int,
                        )
                    }
                &&& forall|a: int, b: int|
                    #![trigger v[a], v[b]]
                    0 <= a < b < v.len() ==> v[a].id != v[b].id
            },
    {
        let ids = self.bond_notes.get_user_pending_note_ids(account_id);
        let ghost pending = self.bond_notes.pending_ids_of(account_id@);
        let ghost order = self.bond_notes.pending_id_seq(account_id@);
        proof {
            ids@.unique_seq_to_set();
        }
        let n = ids.len();
        let mut r: Vec<BondNoteInfo> = Vec::new();
        let mut index: usize = offset as usize;
        let end: usize = if (offset as usize) < n {
            if (limit as usize) < n - offset as usize {
                offset as usize + limit as usize
            } else {
                n
            }
        } else {
            offset as usize
        };
        while index < end
            invariant
                self.wf(),
                n == ids@.len() == pending.len(),
                ids@.no_duplicates(),
                ids@.to_set() == pending,
                ids@ == order,
                order == self.bond_notes.pending_id_seq(account_id@),
                pending == self.bond_notes.pending_ids_of(account_id@),
                offset <= index <= end,
                end <= n || end == offset,
                end == offset + if offset >= n {
                    0
                } else {
                    vstd::math::min(limit as int, n - offset)
                },
                r@.len() == index - offset,
                forall|k: int|
                    #![trigger r@[k]]
                    0 <= k < r@.len() ==> r@[k].id == ids@[offset + k] && pending.contains(
                        r@[k].id,
                    ) && r@[k].shows(
                        self,
                        self.bond_notes.notes_of(account_id@)[r@[k].id as int],
                        linear_price as int,
                        pnear_total_supply as int,
                        now as int,
                    ),
            decreases end - index,
        {
            let id = ids[index];
            proof {
                assert(ids@.to_set().contains(id));
            }
            let note = match self.bond_notes.get_user_note(account_id, id) {
                Some(n) => n,
                None => {
                    return Err(BondError::NoteNotFound);
                },
            };
            let info = match self.build_note_info(&note, linear_price, pnear_total_supply, now) {
                Ok(i) => i,
                Err(e) => {
                    return Err(e);
                },
            };
            r.push(info);
            index = index + 1;
        }
        proof {
            assert forall|a: int, b: int|
                #![trigger r@[a], r@[b]]
                0 <= a < b < r@.len() implies r@[a].id != r@[b].id by {
                assert(ids@[offset + a] != ids@[offset + b]);
            }
        }
        Ok(r)
    }
}

} // verus!
