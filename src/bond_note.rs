//! Bond notes and the per-account ledger of them.
use crate::active_vector::{Active, ActiveVector};
use crate::errors::BondError;
use crate::types::{Balance, Duration, Timestamp};
use vstd::prelude::*;

verus! {

#[derive(Clone, Copy, Debug, PartialEq, Eq, Structural)]
pub enum BondStatus {
    Pending,
    Committed,
    Cancelled,
}

/// One bond: created pending, then committed or cancelled exactly once.
#[derive(Debug)]
pub struct BondNote {
    pub id: u32,
    pub account_id: String,
    pub bond_amount: Balance,
    /// claim tokens minted at commit; 0 otherwise
    pub committed_pnear_amount: Balance,
    pub created_at: Timestamp,
    /// when the note was committed or cancelled; 0 while pending
    pub settled_at: Timestamp,
    pub status: BondStatus,
}

impl BondNote {
    /// A settled note was settled no earlier than it was created.
    pub open spec fn wf(&self) -> bool {
        self.status != BondStatus::Pending ==> self.settled_at >= self.created_at
    }

    /// The age of the note at `ts`: time since creation while pending, and
    /// frozen at settlement afterwards.
    pub open spec fn length_spec(&self, ts: int) -> int {
        if self.status == BondStatus::Pending {
            ts - self.created_at
        } else {
            self.settled_at - self.created_at
        }
    }

    /// A pending note of `bond_amount` created at `created_at`.
    pub fn new(id: u32, account_id: String, bond_amount: Balance, created_at: Timestamp) -> (r:
        BondNote)
        ensures
            r.wf(),
            r.id == id,
            r.account_id@ == account_id@,
            r.bond_amount == bond_amount,
            r.committed_pnear_amount == 0,
            r.created_at == created_at,
            r.settled_at == 0,
            r.status == BondStatus::Pending,
    {
        BondNote {
            id,
            account_id,
            bond_amount,
            committed_pnear_amount: 0,
            created_at,
            settled_at: 0,
            status: BondStatus::Pending,
        }
    }

    /// A field-by-field copy.
    pub fn duplicate(&self) -> (r: BondNote)
        ensures
            r == *self,
    {
        BondNote {
            id: self.id,
            account_id: self.account_id.clone(),
            bond_amount: self.bond_amount,
            committed_pnear_amount: self.committed_pnear_amount,
            created_at: self.created_at,
            settled_at: self.settled_at,
            status: self.status,
        }
    }

    pub fn id(&self) -> (r: u32)
        ensures
            r == self.id,
    {
        self.id
    }

    pub fn bond_amount(&self) -> (r: Balance)
        ensures
            r == self.bond_amount,
    {
        self.bond_amount
    }

    pub fn status(&self) -> (r: BondStatus)
        ensures
            r == self.status,
    {
        self.status
    }

    /// The age of the note at `ts`, no earlier than its creation.
    pub fn length(&self, ts: Timestamp) -> (r: Duration)
        requires
            self.wf(),
            ts >= self.created_at,
        ensures
            r == self.length_spec(ts as int),
    {
        match self.status {
            BondStatus::Pending => ts - self.created_at,
            _ => self.settled_at - self.created_at,
        }
    }

    /// Marks a pending note cancelled at `ts`. A note that is not pending
    /// stays as it is and the call fails.
    pub fn cancel(&mut self, ts: Timestamp) -> (r: Result<(), BondError>)
        requires
            old(self).wf(),
        ensures
            final(self).wf(),
            old(self).status != BondStatus::Pending ==> r == Err::<(), BondError>(
                BondError::InvalidNoteState,
            ),
            old(self).status == BondStatus::Pending && ts < old(self).created_at ==> r == Err::<
                (),
                BondError,
            >(BondError::BadTimestamp),
            r is Ok <==> old(self).status == BondStatus::Pending && ts >= old(self).created_at,
            r is Err ==> *final(self) == *old(self),
            r is Ok ==> *final(self) == (BondNote {
                status: BondStatus::Cancelled,
                settled_at: ts,
                ..*old(self)
            }),
    {
        if self.status != BondStatus::Pending {
            return Err(BondError::InvalidNoteState);
        }
        if ts < self.created_at {
            return Err(BondError::BadTimestamp);
        }
        self.status = BondStatus::Cancelled;
        self.settled_at = ts;
        Ok(())
    }

    /// Marks a pending note committed at `ts` with `pnear_amount` claim
    /// tokens. A note that is not pending stays as it is and the call fails.
    pub fn commit(&mut self, pnear_amount: Balance, ts: Timestamp) -> (r: Result<(), BondError>)
        requires
            old(self).wf(),
        ensures
            final(self).wf(),
            old(self).status != BondStatus::Pending ==> r == Err::<(), BondError>(
                BondError::InvalidNoteState,
            ),
            old(self).status == BondStatus::Pending && ts < old(self).created_at ==> r == Err::<
                (),
                BondError,
            >(BondError::BadTimestamp),
            r is Ok <==> old(self).status == BondStatus::Pending && ts >= old(self).created_at,
            r is Err ==> *final(self) == *old(self),
            r is Ok ==> *final(self) == (BondNote {
                status: BondStatus::Committed,
                committed_pnear_amount: pnear_amount,
                settled_at: ts,
                ..*old(self)
            }),
    {
        if self.status != BondStatus::Pending {
            return Err(BondError::InvalidNoteState);
        }
        if ts < self.created_at {
            return Err(BondError::BadTimestamp);
        }
        self.status = BondStatus::Committed;
        self.committed_pnear_amount = pnear_amount;
        self.settled_at = ts;
        Ok(())
    }
}

impl Active for BondNote {
    open spec fn active(&self) -> bool {
        self.status == BondStatus::Pending
    }

    fn is_active(&self) -> (r: bool) {
        self.status == BondStatus::Pending
    }
}

/// The notes of one account.
pub struct UserNotes {
    pub account_id: String,
    pub notes: ActiveVector<BondNote>,
}

/// Every account's notes. A note's id is its index in its account's list.
pub struct BondNotes {
    users: Vec<UserNotes>,
}

impl BondNotes {
    pub closed spec fn entries(&self) -> Seq<UserNotes> {
        self.users@
    }

    /// The entry of an account, where it has one.
    pub open spec fn has_entry(&self, account: Seq<char>) -> bool {
        exists|k: int| 0 <= k < self.entries().len() && self.entries()[k].account_id@ == account
    }

    pub open spec fn entry_index(&self, account: Seq<char>) -> int {
        choose|k: int| 0 <= k < self.entries().len() && self.entries()[k].account_id@ == account
    }

    /// The notes of `account`, in order of creation.
    pub open spec fn notes_of(&self, account: Seq<char>) -> Seq<BondNote> {
        if self.has_entry(account) {
            self.entries()[self.entry_index(account)].notes.items()
        } else {
            Seq::empty()
        }
    }

    /// The ids of the pending notes of `account`, in the order in which the
    /// ledger lists them.
    pub open spec fn pending_id_seq(&self, account: Seq<char>) -> Seq<u32> {
        if self.has_entry(account) {
            self.entries()[self.entry_index(account)].notes.active_indices()
        } else {
            Seq::empty()
        }
    }

    /// The ids of the pending notes of `account`.
    pub open spec fn pending_ids_of(&self, account: Seq<char>) -> Set<u32> {
        Set::new(
            |i: u32|
                i < self.notes_of(account).len() && self.notes_of(account)[i as int].status
                    == BondStatus::Pending,
        )
    }

    pub open spec fn wf(&self) -> bool {
        &&& forall|a: int, b: int|
            #![trigger self.entries()[a], self.entries()[b]]
            0 <= a < self.entries().len() && 0 <= b < self.entries().len() && a != b
                ==> self.entries()[a].account_id@ != self.entries()[b].account_id@
        &&& forall|k: int|
            #![trigger self.entries()[k]]
            0 <= k < self.entries().len() ==> self.entries()[k].notes.wf()
        &&& forall|account: Seq<char>, i: int|
            #![trigger self.notes_of(account)[i]]
            0 <= i < self.notes_of(account).len() ==> {
                &&& self.notes_of(account)[i].id == i
                &&& self.notes_of(account)[i].account_id@ == account
                &&& self.notes_of(account)[i].wf()
            }
    }

    pub fn new() -> (r: Self)
        ensures
            r.wf(),
            forall|account: Seq<char>| r.notes_of(account) == Seq::<BondNote>::empty(),
    {
        BondNotes { users: Vec::new() }
    }

    proof fn lemma_entry(&self, k: int)
        requires
            self.wf(),
            0 <= k < self.entries().len(),
        ensures
            self.has_entry(self.entries()[k].account_id@),
            self.entry_index(self.entries()[k].account_id@) == k,
            self.notes_of(self.entries()[k].account_id@) == self.entries()[k].notes.items(),
    {
        let account = self.entries()[k].account_id@;
        assert(self.has_entry(account));
        let j = self.entry_index(account);
        assert(self.entries()[j].account_id@ == account);
    }

    fn find(&self, account_id: &String) -> (r: Option<usize>)
        requires
            self.wf(),
        ensures
            r is Some <==> self.has_entry(account_id@),
            r is Some ==> r->0 < self.entries().len() && r->0 == self.entry_index(account_id@)
                && self.entries()[r->0 as int].account_id@ == account_id@,
    {
        let mut k: usize = 0;
        while k < self.users.len()
            invariant
                self.wf(),
                k <= self.entries().len(),
                forall|j: int| 0 <= j < k ==> self.entries()[j].account_id@ != account_id@,
            decreases self.entries().len() - k,
        {
            if self.users[k].account_id == *account_id {
                proof {
                    self.lemma_entry(k as int);
                }
                return Some(k);
            }
            k = k + 1;
        }
        None
    }

    /// The note `note_id` of `account_id`, if there is one.
    pub fn get_user_note(&self, account_id: &String, note_id: u32) -> (r: Option<BondNote>)
        requires
            self.wf(),
        ensures
            r is Some <==> note_id < self.notes_of(account_id@).len(),
            r is Some ==> r->0 == self.notes_of(account_id@)[note_id as int],
    {
        match self.find(account_id) {
            None => None,
            Some(k) => {
                proof {
                    self.lemma_entry(k as int);
                }
                match self.users[k].notes.get(note_id) {
                    None => None,
                    Some(note) => Some(note.duplicate()),
                }
            },
        }
    }

    /// The number of notes of `account_id`.
    pub fn user_note_len(&self, account_id: &String) -> (r: u32)
        requires
            self.wf(),
        ensures
            r == self.notes_of(account_id@).len(),
    {
        match self.find(account_id) {
            None => 0,
            Some(k) => {
                proof {
                    self.lemma_entry(k as int);
                }
                self.users[k].notes.len()
            },
        }
    }

    /// The number of pending notes of `account_id`.
    pub fn user_pending_note_len(&self, account_id: &String) -> (r: u32)
        requires
            self.wf(),
        ensures
            r == self.pending_ids_of(account_id@).len(),
    {
        match self.find(account_id) {
            None => {
                assert(self.pending_ids_of(account_id@) =~= Set::<u32>::empty());
                0
            },
            Some(k) => {
                proof {
                    self.lemma_entry(k as int);
                    assert(self.pending_ids_of(account_id@) =~= self.entries()[k as int].notes.active_set());
                }
                self.users[k].notes.active_len()
            },
        }
    }

    /// The ids of the pending notes of `account_id`, each once.
    pub fn get_user_pending_note_ids(&self, account_id: &String) -> (r: Vec<u32>)
        requires
            self.wf(),
        ensures
            r@ == self.pending_id_seq(account_id@),
            r@.no_duplicates(),
            r@.to_set() == self.pending_ids_of(account_id@),
    {
        match self.find(account_id) {
            None => {
                let r: Vec<u32> = Vec::new();
                assert(r@.to_set() =~= self.pending_ids_of(account_id@));
                r
            },
            Some(k) => {
                proof {
                    self.lemma_entry(k as int);
                    assert(self.pending_ids_of(account_id@) =~= self.entries()[k as int].notes.active_set());
                }
                self.users[k].notes.get_active_item_indices()
            },
        }
    }

    /// `new` holds the same accounts as `self` in the same places, and the
    /// notes of every account but the one at `k` are unchanged.
    proof fn lemma_same_but(&self, new: &Self, k: int)
        requires
            self.wf(),
            0 <= k < self.entries().len(),
            new.entries().len() == self.entries().len(),
            forall|j: int|
                0 <= j < self.entries().len() ==> #[trigger] new.entries()[j].account_id@
                    == self.entries()[j].account_id@,
            forall|j: int|
                0 <= j < self.entries().len() && j != k ==> #[trigger] new.entries()[j].notes.items()
                    == self.entries()[j].notes.items(),
        ensures
            forall|a: Seq<char>|
                a != self.entries()[k].account_id@ ==> #[trigger] new.notes_of(a)
                    == self.notes_of(a),
            new.has_entry(self.entries()[k].account_id@),
            new.notes_of(self.entries()[k].account_id@) == new.entries()[k].notes.items(),
    {
        assert forall|a: Seq<char>| a != self.entries()[k].account_id@ implies #[trigger] new.notes_of(
            a,
        ) == self.notes_of(a) by {
            if self.has_entry(a) {
                let j = self.entry_index(a);
                assert(new.entries()[j].account_id@ == a);
                let j2 = new.entry_index(a);
                assert(self.entries()[j2].account_id@ == a);
                assert(j2 == j);
            } else {
                if new.has_entry(a) {
                    let j2 = new.entry_index(a);
                    assert(self.entries()[j2].account_id@ == a);
                }
            }
        }
        let acc = self.entries()[k].account_id@;
        assert(new.entries()[k].account_id@ == acc);
        let j2 = new.entry_index(acc);
        assert(self.entries()[j2].account_id@ == acc);
    }

    /// Appends a new pending note of `bond_amount` created at `ts` to the
    /// notes of `account_id`, and returns it. Its id is the number of notes
    /// the account had.
    pub fn insert_new_note(&mut self, account_id: &String, bond_amount: Balance, ts: Timestamp) -> (r:
        BondNote)
        requires
            old(self).wf(),
            old(self).notes_of(account_id@).len() < u32::MAX,
        ensures
            final(self).wf(),
            r.id == old(self).notes_of(account_id@).len(),
            r.account_id@ == account_id@,
            r.bond_amount == bond_amount,
            r.committed_pnear_amount == 0,
            r.created_at == ts,
            r.settled_at == 0,
            r.status == BondStatus::Pending,
            final(self).notes_of(account_id@) == old(self).notes_of(account_id@).push(r),
            forall|a: Seq<char>| a != account_id@ ==> #[trigger] final(self).notes_of(a) == old(
                self,
            ).notes_of(a),
    {
        let k = match self.find(account_id) {
            Some(k) => k,
            None => {
                self.users.push(UserNotes { account_id: account_id.clone(), notes: ActiveVector::new() });
                proof {
                    let n = old(self).entries().len();
                    assert forall|a: Seq<char>| a != account_id@ implies #[trigger] self.notes_of(a)
                        == old(self).notes_of(a) by {
                        if old(self).has_entry(a) {
                            let j = old(self).entry_index(a);
                            assert(self.entries()[j].account_id@ == a);
                            let j2 = self.entry_index(a);
                            assert(j2 != n);
                            assert(old(self).entries()[j2].account_id@ == a);
                            assert(j2 == j);
                        } else if self.has_entry(a) {
                            let j2 = self.entry_index(a);
                            assert(j2 != n);
                            assert(old(self).entries()[j2].account_id@ == a);
                        }
                    }
                    assert(self.entries()[n as int].account_id@ == account_id@);
                    assert(self.has_entry(account_id@));
                    let j2 = self.entry_index(account_id@);
                    if j2 != n {
                        assert(old(self).entries()[j2].account_id@ == account_id@);
                    }
                    assert(self.notes_of(account_id@) == Seq::<BondNote>::empty());
                    assert(self.wf());
                }
                self.users.len() - 1
            },
        };
        proof {
            self.lemma_entry(k as int);
        }
        let ghost mid = *self;
        let mut entry = self.users.remove(k);
        let id = entry.notes.len();
        let note = BondNote::new(id, account_id.clone(), bond_amount, ts);
        entry.notes.append(note.duplicate());
        self.users.insert(k, entry);
        proof {
            assert(self.entries() == mid.entries().update(k as int, self.entries()[k as int]));
            mid.lemma_same_but(self, k as int);
            assert forall|acc: Seq<char>, i: int|
                #![trigger self.notes_of(acc)[i]]
                0 <= i < self.notes_of(acc).len() implies {
                    &&& self.notes_of(acc)[i].id == i
                    &&& self.notes_of(acc)[i].account_id@ == acc
                    &&& self.notes_of(acc)[i].wf()
                } by {
                if acc != account_id@ {
                    assert(self.notes_of(acc) == mid.notes_of(acc));
                } else if i < mid.notes_of(acc).len() {
                    assert(self.notes_of(acc)[i] == mid.notes_of(acc)[i]);
                }
            }
        }
        note
    }

    /// Replaces note `note_id` of `account_id` by `note`, which keeps its id
    /// and account; the pending index follows the new status.
    pub fn save_user_note(&mut self, account_id: &String, note_id: u32, note: BondNote)
        requires
            old(self).wf(),
            note_id < old(self).notes_of(account_id@).len(),
            note.id == note_id,
            note.account_id@ == account_id@,
            note.wf(),
        ensures
            final(self).wf(),
            final(self).notes_of(account_id@) == old(self).notes_of(account_id@).update(
                note_id as int,
                note,
            ),
            forall|a: Seq<char>| a != account_id@ ==> #[trigger] final(self).notes_of(a) == old(
                self,
            ).notes_of(a),
    {
        let k = match self.find(account_id) {
            Some(k) => k,
            None => {
                return;
            },
        };
        proof {
            self.lemma_entry(k as int);
        }
        let mut entry = self.users.remove(k);
        entry.notes.update(note_id, note);
        self.users.insert(k, entry);
        proof {
            assert(self.entries() == old(self).entries().update(k as int, self.entries()[k as int]));
            old(self).lemma_same_but(self, k as int);
            assert forall|acc: Seq<char>, i: int|
                #![trigger self.notes_of(acc)[i]]
                0 <= i < self.notes_of(acc).len() implies {
                    &&& self.notes_of(acc)[i].id == i
                    &&& self.notes_of(acc)[i].account_id@ == acc
                    &&& self.notes_of(acc)[i].wf()
                } by {
                if acc != account_id@ {
                    assert(self.notes_of(acc) == old(self).notes_of(acc));
                } else if i != note_id {
                    assert(self.notes_of(acc)[i] == old(self).notes_of(acc)[i]);
                }
            }
        }
    }

    /// Note `i` of the list of account `k` can stand at its place.
    pub open spec fn note_fits(users: Seq<(String, Vec<BondNote>)>, k: int, i: int) -> bool {
        let note = users[k].1@[i];
        &&& note.id == i
        &&& note.account_id@ == users[k].0@
        &&& note.wf()
        &&& i < u32::MAX
    }

    /// `users` lists each account once, and each list holds notes that can
    /// stand at their places.
    pub open spec fn restorable(users: Seq<(String, Vec<BondNote>)>) -> bool {
        &&& forall|a: int, b: int|
            0 <= a < users.len() && 0 <= b < users.len() && a != b ==> #[trigger] users[a].0@
                != #[trigger] users[b].0@
        &&& forall|k: int, i: int|
            0 <= k < users.len() && 0 <= i < users[k].1@.len() ==> #[trigger] Self::note_fits(
                users,
                k,
                i,
            )
    }

    /// The accounts that have notes, each once.
    pub fn accounts(&self) -> (r: Vec<String>)
        requires
            self.wf(),
        ensures
            r@.len() == self.entries().len(),
            forall|k: int|
                0 <= k < r@.len() ==> #[trigger] r@[k]@ == self.entries()[k].account_id@,
    {
        let mut r: Vec<String> = Vec::new();
        let mut k: usize = 0;
        while k < self.users.len()
            invariant
                k <= self.entries().len(),
                r@.len() == k,
                forall|j: int| 0 <= j < k ==> #[trigger] r@[j]@ == self.entries()[j].account_id@,
            decreases self.entries().len() - k,
        {
            r.push(self.users[k].account_id.clone());
            k = k + 1;
        }
        r
    }

    /// Every note of `account_id`, in order of creation.
    pub fn user_notes(&self, account_id: &String) -> (r: Vec<BondNote>)
        requires
            self.wf(),
        ensures
            r@ == self.notes_of(account_id@),
    {
        let n = self.user_note_len(account_id);
        let mut r: Vec<BondNote> = Vec::new();
        let mut i: u32 = 0;
        while i < n
            invariant
                self.wf(),
                n == self.notes_of(account_id@).len(),
                i <= n,
                r@ == self.notes_of(account_id@).subrange(0, i as int),
            decreases n - i,
        {
            match self.get_user_note(account_id, i) {
                Some(note) => r.push(note),
                None => {},
            }
            proof {
                assert(r@ == self.notes_of(account_id@).subrange(0, i + 1));
            }
            i = i + 1;
        }
        proof {
            assert(r@ == self.notes_of(account_id@));
        }
        r
    }

    /// The ledger holding, for each account, the notes listed with it;
    /// `None` exactly where an account appears twice, a note's id is not its
    /// position, a note names another account, a settled note was settled
    /// before it was created, or an account lists more notes than ids exist.
    pub fn from_user_notes(users: &Vec<(String, Vec<BondNote>)>) -> (r: Option<Self>)
        ensures
            r is Some <==> Self::restorable(users@),
            r is Some ==> r->0.wf() && forall|k: int|
                0 <= k < users@.len() ==> #[trigger] r->0.notes_of(users@[k].0@)
                    == users@[k].1@,
    {
        let mut ledger = BondNotes::new();
        let mut k: usize = 0;
        while k < users.len()
            invariant
                ledger.wf(),
                k <= users@.len(),
                forall|a: int, b: int|
                    0 <= a < k && 0 <= b < k && a != b ==> #[trigger] users@[a].0@
                        != #[trigger] users@[b].0@,
                forall|j: int| 0 <= j < k ==> #[trigger] ledger.notes_of(users@[j].0@) == users@[j].1@,
                forall|a: Seq<char>|
                    (forall|j: int| 0 <= j < k ==> users@[j].0@ != a) ==> #[trigger] ledger.notes_of(a)
                        == Seq::<BondNote>::empty(),
                forall|j: int, i: int|
                    0 <= j < k && 0 <= i < users@[j].1@.len() ==> #[trigger] Self::note_fits(
                        users@,
                        j,
                        i,
                    ),
            decreases users@.len() - k,
        {
            let account = &users[k].0;
            let notes = &users[k].1;
            let mut j: usize = 0;
            while j < k
                invariant
                    j <= k < users@.len(),
                    account@ == users@[k as int].0@,
                    forall|i: int| 0 <= i < j ==> users@[i].0@ != users@[k as int].0@,
                decreases k - j,
            {
                if users[j].0 == *account {
                    proof {
                        assert(users@[j as int].0@ == users@[k as int].0@);
                    }
                    return None;
                }
                j = j + 1;
            }
            proof {
                assert(ledger.notes_of(account@) == Seq::<BondNote>::empty());
            }
            let mut i: usize = 0;
            while i < notes.len()
                invariant
                    ledger.wf(),
                    k < users@.len(),
                    account@ == users@[k as int].0@,
                    notes@ == users@[k as int].1@,
                    i <= notes@.len(),
                    ledger.notes_of(account@) == notes@.subrange(0, i as int),
                    forall|a: int, b: int|
                        0 <= a < k && 0 <= b < k && a != b ==> #[trigger] users@[a].0@
                            != #[trigger] users@[b].0@,
                    forall|a: int| 0 <= a < k ==> users@[a].0@ != account@,
                    forall|j: int|
                        0 <= j < k ==> #[trigger] ledger.notes_of(users@[j].0@) == users@[j].1@,
                    forall|a: Seq<char>|
                        (forall|j: int| 0 <= j <= k ==> users@[j].0@ != a) ==> #[trigger] ledger.notes_of(
                            a,
                        ) == Seq::<BondNote>::empty(),
                    forall|j: int, i2: int|
                        0 <= j < k && 0 <= i2 < users@[j].1@.len() ==> #[trigger] Self::note_fits(
                            users@,
                            j,
                            i2,
                        ),
                    forall|i2: int| 0 <= i2 < i ==> #[trigger] Self::note_fits(users@, k as int, i2),
                decreases notes@.len() - i,
            {
                let note = &notes[i];
                if i >= u32::MAX as usize || note.id != i as u32 || note.account_id != *account || (
                note.status != BondStatus::Pending && note.settled_at < note.created_at) {
                    proof {
                        assert(!Self::note_fits(users@, k as int, i as int));
                    }
                    return None;
                }
                let ghost before = ledger;
                ledger.insert_new_note(account, note.bond_amount, note.created_at);
                ledger.save_user_note(account, i as u32, note.duplicate());
                proof {
                    assert(ledger.notes_of(account@) == notes@.subrange(0, i + 1));
                    assert forall|j: int| 0 <= j < k implies #[trigger] ledger.notes_of(users@[j].0@)
                        == users@[j].1@ by {
                        assert(users@[j].0@ != account@);
                    }
                }
                i = i + 1;
            }
            proof {
                assert(notes@.subrange(0, notes@.len() as int) == notes@);
            }
            k = k + 1;
        }
        Some(ledger)
    }
}

} // verus!
