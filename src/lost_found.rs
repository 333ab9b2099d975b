//! Staked-asset amounts that accounts are owed but a transfer failed to
//! deliver, kept until the account claims them.
use crate::errors::BondError;
use crate::types::Balance;
use vstd::prelude::*;

verus! {

/// The sum of the amounts of `entries`.
pub open spec fn sum_amounts(entries: Seq<(String, u128)>) -> int
    decreases entries.len(),
{
    if entries.len() == 0 {
        0
    } else {
        sum_amounts(entries.drop_last()) + entries.last().1
    }
}

/// No two entries name the same account.
pub open spec fn distinct_accounts(entries: Seq<(String, u128)>) -> bool {
    forall|a: int, b: int|
        0 <= a < entries.len() && 0 <= b < entries.len() && a != b ==> #[trigger] entries[a].0@
            != #[trigger] entries[b].0@
}

proof fn lemma_sum_prefix(entries: Seq<(String, u128)>, k: int)
    requires
        0 <= k <= entries.len(),
    ensures
        sum_amounts(entries.subrange(0, k)) <= sum_amounts(entries),
    decreases entries.len(),
{
    if k < entries.len() {
        lemma_sum_prefix(entries.drop_last(), k);
        assert(entries.drop_last().subrange(0, k) == entries.subrange(0, k));
    } else {
        assert(entries.subrange(0, k) == entries);
    }
}

proof fn lemma_sum_update(entries: Seq<(String, u128)>, i: int, v: (String, u128))
    requires
        0 <= i < entries.len(),
    ensures
        sum_amounts(entries.update(i, v)) == sum_amounts(entries) - entries[i].1 + v.1,
    decreases entries.len(),
{
    if i < entries.len() - 1 {
        lemma_sum_update(entries.drop_last(), i, v);
        assert(entries.update(i, v).drop_last() == entries.drop_last().update(i, v));
    } else {
        assert(entries.update(i, v).drop_last() == entries.drop_last());
    }
}

proof fn lemma_sum_entry(entries: Seq<(String, u128)>, i: int)
    requires
        0 <= i < entries.len(),
    ensures
        0 <= entries[i].1 <= sum_amounts(entries),
        sum_amounts(entries) >= 0,
    decreases entries.len(),
{
    lemma_sum_nonneg(entries.drop_last());
    if i < entries.len() - 1 {
        lemma_sum_entry(entries.drop_last(), i);
    }
}

proof fn lemma_sum_nonneg(entries: Seq<(String, u128)>)
    ensures
        sum_amounts(entries) >= 0,
    decreases entries.len(),
{
    if entries.len() > 0 {
        lemma_sum_nonneg(entries.drop_last());
    }
}

/// Per-account amounts owed, and their total.
pub struct LostAndFound {
    total_amount: Balance,
    user_lost_found: Vec<(String, u128)>,
}

impl LostAndFound {
    pub closed spec fn entries(&self) -> Seq<(String, u128)> {
        self.user_lost_found@
    }

    pub closed spec fn total_spec(&self) -> int {
        self.total_amount as int
    }

    /// The amount owed to `account`.
    pub open spec fn amount_of(&self, account: Seq<char>) -> int {
        if exists|k: int| 0 <= k < self.entries().len() && self.entries()[k].0@ == account {
            self.entries()[choose|k: int|
                0 <= k < self.entries().len() && self.entries()[k].0@ == account].1 as int
        } else {
            0
        }
    }

    /// Accounts appear once, and the total is the sum of the amounts.
    pub open spec fn wf(&self) -> bool {
        &&& forall|a: int, b: int|
            #![trigger self.entries()[a], self.entries()[b]]
            0 <= a < self.entries().len() && 0 <= b < self.entries().len() && a != b
                ==> self.entries()[a].0@ != self.entries()[b].0@
        &&& self.total_spec() == sum_amounts(self.entries())
    }

    proof fn lemma_entry(&self, k: int)
        requires
            self.wf(),
            0 <= k < self.entries().len(),
        ensures
            self.amount_of(self.entries()[k].0@) == self.entries()[k].1,
            self.entries()[k].1 <= self.total_spec(),
    {
        let account = self.entries()[k].0@;
        assert(self.entries()[k].0@ == account);
        let j = choose|j: int| 0 <= j < self.entries().len() && self.entries()[j].0@ == account;
        assert(j == k);
        lemma_sum_entry(self.entries(), k);
    }

    pub fn new() -> (r: Self)
        ensures
            r.wf(),
            r.total_spec() == 0,
            forall|a: Seq<char>| r.amount_of(a) == 0,
    {
        LostAndFound { total_amount: 0, user_lost_found: Vec::new() }
    }

    /// The total owed to all accounts.
    pub fn total_amount(&self) -> (r: Balance)
        ensures
            r == self.total_spec(),
    {
        self.total_amount
    }

    fn find(&self, user_id: &String) -> (r: Option<usize>)
        requires
            self.wf(),
        ensures
            r is Some ==> r->0 < self.entries().len() && self.entries()[r->0 as int].0@
                == user_id@,
            r is None ==> forall|k: int|
                0 <= k < self.entries().len() ==> self.entries()[k].0@ != user_id@,
    {
        let mut k: usize = 0;
        while k < self.user_lost_found.len()
            invariant
                k <= self.entries().len(),
                forall|j: int| 0 <= j < k ==> self.entries()[j].0@ != user_id@,
            decreases self.entries().len() - k,
        {
            if self.user_lost_found[k].0 == *user_id {
                return Some(k);
            }
            k = k + 1;
        }
        None
    }

    /// The amount owed to `user_id`.
    pub fn user_amount(&self, user_id: &String) -> (r: Balance)
        requires
            self.wf(),
        ensures
            r == self.amount_of(user_id@),
    {
        match self.find(user_id) {
            Some(k) => {
                proof {
                    self.lemma_entry(k as int);
                }
                self.user_lost_found[k].1
            },
            None => 0,
        }
    }

    /// Credits `amount` to `user_id`. Fails, changing nothing, where the
    /// total would overflow.
    pub fn insert(&mut self, user_id: &String, amount: Balance) -> (r: Result<(), BondError>)
        requires
            old(self).wf(),
        ensures
            final(self).wf(),
            r is Ok <==> old(self).total_spec() + amount <= u128::MAX,
            r is Err ==> r == Err::<(), BondError>(BondError::Overflow) && *final(self) == *old(
                self,
            ),
            r is Ok ==> final(self).amount_of(user_id@) == old(self).amount_of(user_id@) + amount
                && final(self).total_spec() == old(self).total_spec() + amount && forall|
                a: Seq<char>,
            |
                a != user_id@ ==> #[trigger] final(self).amount_of(a) == old(self).amount_of(a),
    {
        if amount > u128::MAX - self.total_amount {
            return Err(BondError::Overflow);
        }
        match self.find(user_id) {
            Some(k) => {
                proof {
                    self.lemma_entry(k as int);
                }
                let prev = self.user_lost_found[k].1;
                let ghost old_entries = self.entries();
                self.user_lost_found.set(k, (user_id.clone(), prev + amount));
                self.total_amount = self.total_amount + amount;
                proof {
                    lemma_sum_update(old_entries, k as int, self.entries()[k as int]);
                    assert(self.entries() == old_entries.update(k as int, self.entries()[k as int]));
                    self.lemma_same_accounts(old(self), k as int);
                    self.lemma_entry(k as int);
                }
            },
            None => {
                let ghost old_entries = self.entries();
                self.user_lost_found.push((user_id.clone(), amount));
                self.total_amount = self.total_amount + amount;
                proof {
                    assert(self.entries().drop_last() == old_entries);
                    let n = old_entries.len() as int;
                    self.lemma_entry(n);
                    assert(old(self).amount_of(user_id@) == 0);
                    assert forall|a: Seq<char>| a != user_id@ implies #[trigger] self.amount_of(a)
                        == old(self).amount_of(a) by {
                        if exists|k: int| 0 <= k < old_entries.len() && old_entries[k].0@ == a {
                            let k = choose|k: int| 0 <= k < old_entries.len() && old_entries[k].0@ == a;
                            self.lemma_entry(k);
                            old(self).lemma_entry(k);
                        } else if exists|k: int| 0 <= k < self.entries().len() && self.entries()[k].0@ == a {
                            let k = choose|k: int| 0 <= k < self.entries().len() && self.entries()[k].0@ == a;
                            assert(old_entries[k].0@ == a);
                        }
                    }
                }
            },
        }
        Ok(())
    }

    /// Where `self` holds the entries of `prev` with the one at `k` changed
    /// in amount only, every other account's amount is unchanged.
    proof fn lemma_same_accounts(&self, prev: &Self, k: int)
        requires
            prev.wf(),
            0 <= k < prev.entries().len(),
            self.entries().len() == prev.entries().len(),
            self.entries()[k].0@ == prev.entries()[k].0@,
            forall|j: int| 0 <= j < prev.entries().len() && j != k ==> #[trigger] self.entries()[j] == prev.entries()[j],
            self.total_spec() == sum_amounts(self.entries()),
        ensures
            self.wf(),
            forall|a: Seq<char>| a != prev.entries()[k].0@ ==> #[trigger] self.amount_of(a) == prev.amount_of(a),
    {
        assert forall|a: int, b: int|
            0 <= a < self.entries().len() && 0 <= b < self.entries().len() && a != b
                implies #[trigger] self.entries()[a].0@ != #[trigger] self.entries()[b].0@ by {
            assert(self.entries()[a].0@ == prev.entries()[a].0@);
            assert(self.entries()[b].0@ == prev.entries()[b].0@);
        }
        assert forall|a: Seq<char>| a != prev.entries()[k].0@ implies #[trigger] self.amount_of(a)
            == prev.amount_of(a) by {
            if exists|j: int| 0 <= j < prev.entries().len() && prev.entries()[j].0@ == a {
                let j = choose|j: int| 0 <= j < prev.entries().len() && prev.entries()[j].0@ == a;
                prev.lemma_entry(j);
                self.lemma_entry(j);
            } else if exists|j: int| 0 <= j < self.entries().len() && self.entries()[j].0@ == a {
                let j = choose|j: int| 0 <= j < self.entries().len() && self.entries()[j].0@ == a;
                assert(prev.entries()[j].0@ == a);
            }
        }
    }

    /// Zeroes what is owed to `user_id` and returns it.
    pub fn remove(&mut self, user_id: &String) -> (r: Balance)
        requires
            old(self).wf(),
        ensures
            final(self).wf(),
            r == old(self).amount_of(user_id@),
            final(self).amount_of(user_id@) == 0,
            final(self).total_spec() == old(self).total_spec() - r,
            forall|a: Seq<char>| a != user_id@ ==> #[trigger] final(self).amount_of(a) == old(
                self,
            ).amount_of(a),
    {
        match self.find(user_id) {
            Some(k) => {
                proof {
                    self.lemma_entry(k as int);
                }
                let amount = self.user_lost_found[k].1;
                let ghost old_entries = self.entries();
                self.user_lost_found.set(k, (user_id.clone(), 0));
                self.total_amount = self.total_amount - amount;
                proof {
                    lemma_sum_update(old_entries, k as int, self.entries()[k as int]);
                    assert(self.entries() == old_entries.update(k as int, self.entries()[k as int]));
                    self.lemma_same_accounts(old(self), k as int);
                    self.lemma_entry(k as int);
                }
                amount
            },
            None => 0,
        }
    }

    /// Each account with what it is owed, in no particular order.
    pub fn entries_vec(&self) -> (r: Vec<(String, u128)>)
        ensures
            r@.len() == self.entries().len(),
            forall|k: int|
                0 <= k < r@.len() ==> #[trigger] r@[k].0@ == self.entries()[k].0@ && r@[k].1
                    == self.entries()[k].1,
    {
        let mut r: Vec<(String, u128)> = Vec::new();
        let mut k: usize = 0;
        while k < self.user_lost_found.len()
            invariant
                k <= self.entries().len(),
                r@.len() == k,
                forall|j: int|
                    0 <= j < k ==> #[trigger] r@[j].0@ == self.entries()[j].0@ && r@[j].1
                        == self.entries()[j].1,
            decreases self.entries().len() - k,
        {
            r.push((self.user_lost_found[k].0.clone(), self.user_lost_found[k].1));
            k = k + 1;
        }
        r
    }

    /// The ledger holding `entries`; `None` exactly where an account
    /// appears twice or the total would overflow.
    pub fn from_entries(entries: Vec<(String, u128)>) -> (r: Option<Self>)
        ensures
            r is Some <==> distinct_accounts(entries@) && sum_amounts(entries@) <= u128::MAX,
            r is Some ==> r->0.wf() && r->0.entries() == entries@,
    {
        let mut total: u128 = 0;
        let mut k: usize = 0;
        while k < entries.len()
            invariant
                k <= entries@.len(),
                total == sum_amounts(entries@.subrange(0, k as int)),
                forall|a: int, b: int|
                    0 <= a < k && 0 <= b < k && a != b ==> #[trigger] entries@[a].0@
                        != #[trigger] entries@[b].0@,
            decreases entries@.len() - k,
        {
            let mut j: usize = 0;
            while j < k
                invariant
                    j <= k < entries@.len(),
                    forall|i: int| 0 <= i < j ==> entries@[i].0@ != entries@[k as int].0@,
                decreases k - j,
            {
                if entries[j].0 == entries[k].0 {
                    proof {
                        assert(entries@[j as int].0@ == entries@[k as int].0@);
                    }
                    return None;
                }
                j = j + 1;
            }
            proof {
                assert(entries@.subrange(0, k + 1).drop_last() == entries@.subrange(0, k as int));
            }
            if entries[k].1 > u128::MAX - total {
                proof {
                    lemma_sum_prefix(entries@, k + 1);
                }
                return None;
            }
            total = total + entries[k].1;
            k = k + 1;
        }
        proof {
            assert(entries@.subrange(0, entries@.len() as int) == entries@);
        }
        Some(LostAndFound { total_amount: total, user_lost_found: entries })
    }
}

} // verus!
