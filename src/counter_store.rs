use crate::account::AccountId;
use vstd::prelude::*;

verus! {

/// A mapping from identity to a count; an identity never stored reads as 0.
pub struct CounterStore {
    entries: Vec<(AccountId, u32)>,
    model: Ghost<Map<Seq<u8>, u32>>,
}

impl View for CounterStore {
    type V = Map<Seq<u8>, u32>;

    closed spec fn view(&self) -> Map<Seq<u8>, u32> {
        self.model@
    }
}

impl CounterStore {
    /// Each stored entry agrees with the model, each key of the model is
    /// stored, and no identity is stored twice.
    pub closed spec fn wf(&self) -> bool {
        &&& forall|i: int|
            0 <= i < self.entries@.len() ==> {
                &&& #[trigger] self.model@.contains_key(self.entries@[i].0@)
                &&& self.model@[self.entries@[i].0@] == self.entries@[i].1
            }
        &&& forall|k: Seq<u8>|
            #[trigger] self.model@.contains_key(k) ==> exists|i: int|
                0 <= i < self.entries@.len() && #[trigger] self.entries@[i].0@ == k
        &&& forall|i: int, j: int|
            0 <= i < self.entries@.len() && 0 <= j < self.entries@.len() && i != j
                ==> #[trigger] self.entries@[i].0@ != #[trigger] self.entries@[j].0@
    }

    /// The count held for `id`: its stored value, or 0 when absent.
    pub open spec fn count(&self, id: Seq<u8>) -> nat {
        if self@.contains_key(id) {
            self@[id] as nat
        } else {
            0
        }
    }

    /// An empty store.
    pub fn new() -> (r: CounterStore)
        ensures
            r.wf(),
            r@ == Map::<Seq<u8>, u32>::empty(),
    {
        CounterStore { entries: Vec::new(), model: Ghost(Map::empty()) }
    }

    /// Position of `id` among the entries, if it is stored.
    fn find(&self, id: &AccountId) -> (r: Option<usize>)
        requires
            self.wf(),
        ensures
            match r {
                Some(i) => i < self.entries@.len() && self.entries@[i as int].0@ == id@,
                None => !self@.contains_key(id@),
            },
    {
        let mut i: usize = 0;
        while i < self.entries.len()
            invariant
                self.wf(),
                i <= self.entries@.len(),
                forall|j: int| 0 <= j < i ==> self.entries@[j].0@ != id@,
            decreases self.entries@.len() - i,
        {
            if self.entries[i].0.same_as(id) {
                return Some(i);
            }
            i = i + 1;
        }
        None
    }

    /// The count for `id`; 0 when it was never set.
    pub fn get(&self, id: &AccountId) -> (r: u32)
        requires
            self.wf(),
        ensures
            r as nat == self.count(id@),
    {
        match self.find(id) {
            Some(i) => self.entries[i].1,
            None => 0,
        }
    }

    /// Sets the count for `id` to `v`, overwriting any earlier value.
    pub fn set(&mut self, id: &AccountId, v: u32)
        requires
            old(self).wf(),
        ensures
            final(self).wf(),
            final(self)@ == old(self)@.insert(id@, v),
    {
        let ghost pre = self.entries@;
        match self.find(id) {
            Some(i) => {
                self.entries.set(i, (*id, v));
                self.model = Ghost(self.model@.insert(id@, v));
                assert forall|j: int| 0 <= j < self.entries@.len() implies #[trigger] self.entries@[j].0@ == pre[j].0@ by {}
                assert forall|j: int| 0 <= j < self.entries@.len() implies {
                    &&& #[trigger] self.model@.contains_key(self.entries@[j].0@)
                    &&& self.model@[self.entries@[j].0@] == self.entries@[j].1
                } by {
                    if j != i {
                        assert(pre[j].0@ != pre[i as int].0@);
                    }
                }
                assert forall|k: Seq<u8>| #[trigger] self.model@.contains_key(k) implies exists|j: int|
                    0 <= j < self.entries@.len() && #[trigger] self.entries@[j].0@ == k by {
                    if k == id@ {
                        assert(self.entries@[i as int].0@ == k);
                    } else {
                        let j = choose|j: int| 0 <= j < pre.len() && #[trigger] pre[j].0@ == k;
                        assert(self.entries@[j].0@ == k);
                    }
                }
            },
            None => {
                self.entries.push((*id, v));
                self.model = Ghost(self.model@.insert(id@, v));
                assert forall|j: int| 0 <= j < pre.len() implies #[trigger] self.entries@[j] == pre[j] by {}
                assert forall|j: int| 0 <= j < pre.len() implies #[trigger] pre[j].0@ != id@ by {
                    assert(old(self).model@.contains_key(pre[j].0@));
                }
                assert forall|j: int| 0 <= j < self.entries@.len() implies {
                    &&& #[trigger] self.model@.contains_key(self.entries@[j].0@)
                    &&& self.model@[self.entries@[j].0@] == self.entries@[j].1
                } by {
                    if j < pre.len() {
                        assert(pre[j].0@ != id@);
                    }
                }
                assert forall|x: int, y: int|
                    0 <= x < self.entries@.len() && 0 <= y < self.entries@.len() && x != y
                        implies #[trigger] self.entries@[x].0@ != #[trigger] self.entries@[y].0@ by {
                    if x < pre.len() && y < pre.len() {
                        assert(pre[x].0@ != pre[y].0@);
                    } else if x < pre.len() {
                        assert(pre[x].0@ != id@);
                    } else {
                        assert(pre[y].0@ != id@);
                    }
                }
                assert forall|k: Seq<u8>| #[trigger] self.model@.contains_key(k) implies exists|j: int|
                    0 <= j < self.entries@.len() && #[trigger] self.entries@[j].0@ == k by {
                    if k == id@ {
                        assert(self.entries@[pre.len() as int].0@ == k);
                    } else {
                        let j = choose|j: int| 0 <= j < pre.len() && #[trigger] pre[j].0@ == k;
                        assert(self.entries@[j].0@ == k);
                    }
                }
            },
        }
    }
}

} // verus!
