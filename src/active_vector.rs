//! An append-only list of items together with the set of indices of the
//! items that are currently active, kept in lock-step.
use vstd::prelude::*;

verus! {

/// Items that are either active or settled.
pub trait Active {
    spec fn active(&self) -> bool;

    fn is_active(&self) -> (r: bool)
        ensures
            r == self.active(),
    ;
}

/// All items ever appended, and the indices of the active ones.
pub struct ActiveVector<T> {
    items: Vec<T>,
    active_items: Vec<u32>,
}

impl<T: Active> ActiveVector<T> {
    /// Every item ever appended, in order; an item's index is its position.
    pub closed spec fn items(&self) -> Seq<T> {
        self.items@
    }

    /// The indices of the active items, in no particular order.
    pub closed spec fn active_indices(&self) -> Seq<u32> {
        self.active_items@
    }

    /// The index holds each active item once and nothing else.
    pub open spec fn wf(&self) -> bool {
        &&& self.items().len() <= u32::MAX
        &&& self.active_indices().no_duplicates()
        &&& forall|i: u32|
            #![trigger self.active_indices().contains(i)]
            self.active_indices().contains(i) <==> (i < self.items().len()
                && self.items()[i as int].active())
    }

    /// The set of indices of the active items.
    pub open spec fn active_set(&self) -> Set<u32> {
        Set::new(|i: u32| i < self.items().len() && self.items()[i as int].active())
    }

    pub fn new() -> (r: Self)
        ensures
            r.wf(),
            r.items() == Seq::<T>::empty(),
    {
        ActiveVector { items: Vec::new(), active_items: Vec::new() }
    }

    /// Appends `item` and returns its index.
    pub fn append(&mut self, item: T) -> (r: u32)
        requires
            old(self).wf(),
            old(self).items().len() < u32::MAX,
        ensures
            final(self).wf(),
            r == old(self).items().len(),
            final(self).items() == old(self).items().push(item),
    {
        let index = self.items.len() as u32;
        proof {
            assert(!old(self).active_indices().contains(index));
        }
        if item.is_active() {
            self.active_items.push(index);
        }
        self.items.push(item);
        proof {
            assert forall|i: u32|
                #![trigger self.active_indices().contains(i)]
                self.active_indices().contains(i) <==> (i < self.items().len()
                    && self.items()[i as int].active()) by {
                if i != index {
                    if self.active_indices().contains(i) {
                        let j = choose|j: int|
                            0 <= j < self.active_indices().len() && self.active_indices()[j] == i;
                        assert(old(self).active_indices()[j] == i);
                    }
                    if old(self).active_indices().contains(i) {
                        let j = choose|j: int|
                            0 <= j < old(self).active_indices().len()
                                && old(self).active_indices()[j] == i;
                        assert(self.active_indices()[j] == i);
                    }
                } else {
                    if self.active_indices().contains(i) && !item.active() {
                        assert(old(self).active_indices().contains(i));
                    }
                    if item.active() {
                        assert(self.active_indices().last() == i);
                    }
                }
            }
        }
        proof {
            if item.active() {
                assert(self.active_indices().no_duplicates()) by {
                    let before = old(self).active_indices();
                    let after = self.active_indices();
                    assert forall|a: int, b: int|
                        0 <= a < after.len() && 0 <= b < after.len() && a != b implies after[a]
                        != after[b] by {
                        if a == before.len() {
                            assert(before.contains(after[b]));
                        } else if b == before.len() {
                            assert(before.contains(after[a]));
                        }
                    }
                }
            } else {
                assert(self.active_indices() == old(self).active_indices());
            }
        }
        index
    }

    /// Number of items ever appended.
    pub fn len(&self) -> (r: u32)
        requires
            self.wf(),
        ensures
            r == self.items().len(),
    {
        self.items.len() as u32
    }

    /// Number of active items.
    pub fn active_len(&self) -> (r: u32)
        requires
            self.wf(),
        ensures
            r == self.active_set().len(),
    {
        proof {
            self.lemma_active_set();
        }
        self.active_items.len() as u32
    }

    /// The item at `index`, if there is one.
    pub fn get(&self, index: u32) -> (r: Option<&T>)
        ensures
            r is Some <==> index < self.items().len(),
            r is Some ==> *r->0 == self.items()[index as int],
    {
        if (index as usize) < self.items.len() {
            Some(&self.items[index as usize])
        } else {
            None
        }
    }

    /// The items at indices `offset` to `offset + limit`, as far as they
    /// exist.
    pub fn get_items(&self, offset: u32, limit: u32) -> (r: Vec<&T>)
        ensures
            r@.len() == if offset as int >= self.items().len() {
                0
            } else {
                vstd::math::min(limit as int, self.items().len() - offset)
            },
            forall|k: int| 0 <= k < r@.len() ==> *r@[k] == self.items()[offset + k],
    {
        let mut r: Vec<&T> = Vec::new();
        let mut index: usize = offset as usize;
        let end: usize = if (offset as usize) < self.items.len() {
            if (limit as usize) < self.items.len() - offset as usize {
                offset as usize + limit as usize
            } else {
                self.items.len()
            }
        } else {
            offset as usize
        };
        while index < end
            invariant
                offset <= index <= end <= if offset as int >= self.items().len() {
                    offset as int
                } else {
                    self.items().len() as int
                },
                end == offset + if offset as int >= self.items().len() {
                    0
                } else {
                    vstd::math::min(limit as int, self.items().len() - offset)
                },
                r@.len() == index - offset,
                forall|k: int| 0 <= k < r@.len() ==> *r@[k] == self.items()[offset + k],
            decreases end - index,
        {
            r.push(&self.items[index]);
            index = index + 1;
        }
        r
    }

    /// The indices of the active items, each once, in no particular order.
    pub fn get_active_item_indices(&self) -> (r: Vec<u32>)
        requires
            self.wf(),
        ensures
            r@ == self.active_indices(),
            r@.no_duplicates(),
            r@.to_set() == self.active_set(),
    {
        proof {
            self.lemma_active_set();
        }
        self.active_items.clone()
    }

    /// All indices, in order.
    pub fn get_item_indices(&self) -> (r: Vec<u32>)
        requires
            self.wf(),
        ensures
            r@.len() == self.items().len(),
            forall|k: int| 0 <= k < r@.len() ==> r@[k] == k,
    {
        let mut r: Vec<u32> = Vec::new();
        let n = self.items.len();
        let mut index: usize = 0;
        while index < n
            invariant
                n == self.items().len() <= u32::MAX,
                index <= n,
                r@.len() == index,
                forall|k: int| 0 <= k < r@.len() ==> r@[k] == k,
            decreases n - index,
        {
            r.push(index as u32);
            index = index + 1;
        }
        r
    }

    /// Replaces the item at `index`, and adds the index to or drops it from
    /// the active set as the new item is active or not.
    pub fn update(&mut self, index: u32, item: T)
        requires
            old(self).wf(),
            index < old(self).items().len(),
        ensures
            final(self).wf(),
            final(self).items() == old(self).items().update(index as int, item),
    {
        let active = item.is_active();
        let mut pos: usize = 0;
        let n = self.active_items.len();
        while pos < n
            invariant
                n == self.active_indices().len(),
                pos <= n,
                forall|k: int| 0 <= k < pos ==> self.active_indices()[k] != index,
            ensures
                pos <= n,
                pos < n ==> self.active_indices()[pos as int] == index,
                forall|k: int| 0 <= k < pos ==> self.active_indices()[k] != index,
            decreases n - pos,
        {
            if self.active_items[pos] == index {
                break;
            }
            pos = pos + 1;
        }
        let ghost before = self.active_indices();
        if pos == n {
            if active {
                self.active_items.push(index);
            }
        } else if !active {
            self.active_items.swap_remove(pos);
        }
        self.items.set(index as usize, item);
        proof {
            let after = self.active_indices();
            if pos == n {
                assert(!before.contains(index));
            } else {
                assert(before[pos as int] == index);
            }
            if pos == n && active {
                assert(after.no_duplicates()) by {
                    assert forall|a: int, b: int|
                        0 <= a < after.len() && 0 <= b < after.len() && a != b implies after[a]
                        != after[b] by {
                        if a == before.len() {
                            assert(before.contains(after[b]));
                        } else if b == before.len() {
                            assert(before.contains(after[a]));
                        }
                    }
                }
            }
            assert forall|i: u32|
                #![trigger self.active_indices().contains(i)]
                self.active_indices().contains(i) <==> (i < self.items().len()
                    && self.items()[i as int].active()) by {
                if after.contains(i) {
                    let j = choose|j: int| 0 <= j < after.len() && after[j] == i;
                    if pos == n && active && j == before.len() {
                    } else if pos < n && !active && j == pos {
                        assert(before[before.len() - 1] == i);
                    } else {
                        assert(before[j] == i);
                    }
                }
                if i != index && before.contains(i) {
                    let j = choose|j: int| 0 <= j < before.len() && before[j] == i;
                    if pos < n && !active {
                        if j == before.len() - 1 {
                            assert(after[pos as int] == i);
                        } else {
                            assert(j != pos);
                            assert(after[j] == i);
                        }
                    } else {
                        assert(after[j] == i);
                    }
                }
                if i == index && active {
                    if pos == n {
                        assert(after.last() == i);
                    } else {
                        assert(after[pos as int] == i);
                    }
                }
            }
            if pos < n && !active {
                assert(after.no_duplicates()) by {
                    assert forall|a: int, b: int|
                        0 <= a < after.len() && 0 <= b < after.len() && a != b implies after[a]
                        != after[b] by {
                        let last = before.len() - 1;
                        let ia = if a == pos {
                            last
                        } else {
                            a
                        };
                        let ib = if b == pos {
                            last
                        } else {
                            b
                        };
                        assert(after[a] == before[ia]);
                        assert(after[b] == before[ib]);
                    }
                }
            }
        }
    }

    /// The index holds exactly the active set, so its length is the set's
    /// size.
    proof fn lemma_active_set(&self)
        requires
            self.wf(),
        ensures
            self.active_indices().to_set() == self.active_set(),
            self.active_set().len() == self.active_indices().len(),
            self.active_indices().len() <= self.items().len(),
    {
        assert(self.active_indices().to_set() =~= self.active_set());
        self.active_indices().unique_seq_to_set();
        let a = self.active_indices().to_set();
        let f = |i: u32| i as int;
        let range = vstd::set_lib::set_int_range(0, self.items().len() as int);
        vstd::set_lib::lemma_int_range(0, self.items().len() as int);
        assert(vstd::relations::injective_on(f, a));
        vstd::set_lib::lemma_map_size(a, a.map(f), f);
        assert(a.map(f).subset_of(range)) by {
            assert forall|x: int| a.map(f).contains(x) implies range.contains(x) by {
                let i = choose|i: u32| a.contains(i) && f(i) == x;
                assert(self.active_indices().contains(i));
            }
        }
        vstd::set_lib::lemma_len_subset(a.map(f), range);
    }
}

} // verus!
