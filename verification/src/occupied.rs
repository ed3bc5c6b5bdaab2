//! The ordered set of workspace identifiers that are occupied on one display.

use vstd::prelude::*;

verus! {

/// `id` belongs to `ids` and nothing in `ids` lies below it.
pub open spec fn is_least_of(id: i32, ids: Set<i32>) -> bool {
    &&& ids.contains(id)
    &&& forall|other: i32| ids.contains(other) ==> id <= other
}

/// `id` belongs to `ids` and nothing in `ids` lies above it.
pub open spec fn is_greatest_of(id: i32, ids: Set<i32>) -> bool {
    &&& ids.contains(id)
    &&& forall|other: i32| ids.contains(other) ==> other <= id
}

/// A finite set of workspace identifiers, kept in ascending order.
#[derive(Debug)]
pub struct OccupiedIds {
    ids: Vec<i32>,
}

impl View for OccupiedIds {
    type V = Set<i32>;

    closed spec fn view(&self) -> Set<i32> {
        self.ids@.to_set()
    }
}

impl OccupiedIds {
    #[verifier::type_invariant]
    spec fn strictly_ascending(&self) -> bool {
        forall|i: int, j: int| 0 <= i < j < self.ids.len() ==> self.ids[i] < self.ids[j]
    }

    /// Whatever the set holds, it holds finitely many identifiers.
    pub proof fn lemma_finite(&self)
        ensures
            self@.finite(),
    {
        vstd::seq_lib::seq_to_set_is_finite(self.ids@);
    }

    /// The empty set.
    pub fn new() -> (ids: Self)
        ensures
            ids@ == Set::<i32>::empty(),
    {
        let ids = OccupiedIds { ids: Vec::new() };
        assert(ids.ids@.to_set() =~= Set::<i32>::empty());
        ids
    }

    /// The number of identifiers in the set.
    pub fn len(&self) -> (count: usize)
        ensures
            self@.finite(),
            count == self@.len(),
    {
        proof {
            use_type_invariant(self);
            self.ids@.unique_seq_to_set();
            self.lemma_finite();
        }
        self.ids.len()
    }

    /// Whether `id` is in the set.
    pub fn contains(&self, id: i32) -> (found: bool)
        ensures
            found == self@.contains(id),
    {
        let mut at: usize = 0;
        while at < self.ids.len()
            invariant
                at <= self.ids.len(),
                forall|k: int| 0 <= k < at ==> self.ids[k] != id,
            decreases self.ids.len() - at,
        {
            if self.ids[at] == id {
                return true;
            }
            at += 1;
        }
        false
    }

    /// The lowest identifier, if there is any.
    pub fn min(&self) -> (lowest: Option<i32>)
        ensures
            (match lowest {
                Some(id) => is_least_of(id, self@),
                None => self@ == Set::<i32>::empty(),
            }),
    {
        proof {
            use_type_invariant(self);
        }
        if self.ids.len() == 0 {
            assert(self.ids@.to_set() =~= Set::<i32>::empty());
            None
        } else {
            let id = self.ids[0];
            assert(self.ids@.contains(id));
            Some(id)
        }
    }

    /// The highest identifier, if there is any.
    pub fn max(&self) -> (highest: Option<i32>)
        ensures
            (match highest {
                Some(id) => is_greatest_of(id, self@),
                None => self@ == Set::<i32>::empty(),
            }),
    {
        proof {
            use_type_invariant(self);
        }
        if self.ids.len() == 0 {
            assert(self.ids@.to_set() =~= Set::<i32>::empty());
            None
        } else {
            let id = self.ids[self.ids.len() - 1];
            assert(self.ids@.contains(id));
            Some(id)
        }
    }

    /// Adds `id` to the set; a set that holds it already stays as it is.
    pub fn insert(&mut self, id: i32)
        ensures
            final(self)@ == old(self)@.insert(id),
    {
        proof {
            use_type_invariant(&*self);
        }
        let mut at: usize = 0;
        while at < self.ids.len() && self.ids[at] < id
            invariant
                at <= self.ids.len(),
                forall|k: int| 0 <= k < at ==> self.ids[k] < id,
            decreases self.ids.len() - at,
        {
            at += 1;
        }
        if at < self.ids.len() && self.ids[at] == id {
            assert(self.ids@.contains(id));
            assert(self.ids@.to_set() =~= self.ids@.to_set().insert(id));
        } else {
            let ghost before = self.ids@;
            let ghost after = before.insert(at as int, id);
            proof {
                assert forall|i: int, j: int| 0 <= i < j < after.len() implies after[i] < after[j] by {
                    if j < at {
                    } else if j == at {
                    } else if i < at {
                        assert(after[j] == before[j - 1]);
                    } else if i == at {
                        assert(after[j] == before[j - 1]);
                    } else {
                        assert(after[i] == before[i - 1]);
                        assert(after[j] == before[j - 1]);
                    }
                }
                assert forall|other: i32| after.to_set().contains(other) <==> before.to_set().insert(
                    id,
                ).contains(other) by {
                    if after.contains(other) {
                        let k = choose|k: int| 0 <= k < after.len() && after[k] == other;
                        if k < at {
                            assert(before[k] == other);
                        } else if k > at {
                            assert(before[k - 1] == other);
                        }
                    }
                    if before.contains(other) {
                        let k = choose|k: int| 0 <= k < before.len() && before[k] == other;
                        if k < at {
                            assert(after[k] == other);
                        } else {
                            assert(after[k + 1] == other);
                        }
                    }
                    assert(after[at as int] == id);
                }
                assert(after.to_set() =~= before.to_set().insert(id));
            }
            let mut ids: Vec<i32> = Vec::new();
            std::mem::swap(&mut ids, &mut self.ids);
            ids.insert(at, id);
            self.ids = ids;
        }
    }
}

} // verus!
