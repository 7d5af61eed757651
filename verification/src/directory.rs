//! A table from user names to values, each name at most once: the registry of the
//! server and the peers found on the local network are kept in one.
use vstd::prelude::*;
use crate::names::Name;

verus! {

/// Values keyed by user name.
pub struct Directory<V> {
    names: Vec<Name>,
    values: Vec<V>,
}

impl<V> Directory<V> {
    /// The two columns have one row per entry, no name occurs twice, and there are
    /// finitely many entries.
    pub closed spec fn wf(&self) -> bool {
        &&& self.rows_ok()
        &&& self.view().dom().finite()
    }

    closed spec fn rows_ok(&self) -> bool {
        &&& self.names@.len() == self.values@.len()
        &&& forall|i: int, j: int|
            0 <= i < j < self.names@.len() ==> (#[trigger] self.names@[i])@
                != (#[trigger] self.names@[j])@
    }

    closed spec fn has(&self, k: Seq<char>) -> bool {
        exists|i: int| 0 <= i < self.names@.len() && (#[trigger] self.names@[i])@ == k
    }

    closed spec fn index_of(&self, k: Seq<char>) -> int {
        choose|i: int| 0 <= i < self.names@.len() && (#[trigger] self.names@[i])@ == k
    }

    /// The entries, as a map from the text of each name to its value.
    pub closed spec fn view(&self) -> Map<Seq<char>, V> {
        Map::new(|k: Seq<char>| self.has(k), |k: Seq<char>| self.values@[self.index_of(k)])
    }

    proof fn lemma_at(&self, i: int)
        requires
            self.rows_ok(),
            0 <= i < self.names@.len(),
        ensures
            self.view().dom().contains(self.names@[i]@),
            self.view()[self.names@[i]@] == self.values@[i],
            self.index_of(self.names@[i]@) == i,
    {
        let k = self.names@[i]@;
        assert(self.has(k));
        let j = self.index_of(k);
        if j != i {
            if j < i {
                assert(self.names@[j]@ != self.names@[i]@);
            } else {
                assert(self.names@[i]@ != self.names@[j]@);
            }
        }
    }

    /// Every well-formed directory has finitely many entries.
    pub proof fn lemma_finite(&self)
        requires
            self.wf(),
        ensures
            self.view().dom().finite(),
    {
    }

    /// An empty directory.
    pub fn new() -> (d: Self)
        ensures
            d.wf(),
            d.view() == Map::<Seq<char>, V>::empty(),
    {
        let d = Directory { names: Vec::new(), values: Vec::new() };
        assert(d.view() =~= Map::<Seq<char>, V>::empty());
        d
    }

    /// The row that holds `name`, if any.
    fn find(&self, name: &Name) -> (r: Option<usize>)
        requires
            self.wf(),
        ensures
            match r {
                Some(i) => i < self.names@.len() && self.names@[i as int]@ == name@,
                None => !self.view().dom().contains(name@),
            },
    {
        let mut i: usize = 0;
        while i < self.names.len()
            invariant
                self.wf(),
                i <= self.names@.len(),
                forall|j: int| 0 <= j < i ==> (#[trigger] self.names@[j])@ != name@,
            decreases self.names@.len() - i,
        {
            if self.names[i].same_text(name) {
                return Some(i);
            }
            i = i + 1;
        }
        None
    }

    /// Whether `name` has an entry.
    pub fn contains(&self, name: &Name) -> (b: bool)
        requires
            self.wf(),
        ensures
            b == self.view().dom().contains(name@),
    {
        match self.find(name) {
            Some(i) => {
                proof {
                    self.lemma_at(i as int);
                }
                true
            },
            None => false,
        }
    }

    /// The value kept under `name`, if any.
    pub fn get(&self, name: &Name) -> (r: Option<&V>)
        requires
            self.wf(),
        ensures
            match r {
                Some(v) => self.view().dom().contains(name@) && *v == self.view()[name@],
                None => !self.view().dom().contains(name@),
            },
    {
        match self.find(name) {
            Some(i) => {
                proof {
                    self.lemma_at(i as int);
                }
                Some(&self.values[i])
            },
            None => None,
        }
    }

    /// Takes the entry of `name` out, and gives its value back.
    pub fn remove(&mut self, name: &Name) -> (r: Option<V>)
        requires
            old(self).wf(),
        ensures
            final(self).wf(),
            final(self).view().dom().finite(),
            final(self).view() == old(self).view().remove(name@),
            match r {
                Some(v) => old(self).view().dom().contains(name@) && v == old(self).view()[name@],
                None => !old(self).view().dom().contains(name@),
            },
    {
        match self.find(name) {
            None => {
                assert(self.view() =~= self.view().remove(name@));
                None
            },
            Some(i) => {
                let ghost before = *self;
                proof {
                    before.lemma_at(i as int);
                }
                self.names.remove(i);
                let v = self.values.remove(i);
                assert(self.rows_ok()) by {
                    assert forall|a: int, b: int|
                        0 <= a < b < self.names@.len() implies (#[trigger] self.names@[a])@
                        != (#[trigger] self.names@[b])@ by {
                        let a0 = if a < i { a } else { a + 1 };
                        let b0 = if b < i { b } else { b + 1 };
                        assert(self.names@[a] == before.names@[a0]);
                        assert(self.names@[b] == before.names@[b0]);
                        assert(before.names@[a0]@ != before.names@[b0]@);
                    }
                }
                assert forall|k: Seq<char>|
                    #![trigger self.view().dom().contains(k)]
                    #![trigger before.view().remove(name@).dom().contains(k)]
                    self.view().dom().contains(k) <==> before.view().remove(
                        name@,
                    ).dom().contains(k) by {
                    if self.view().dom().contains(k) {
                        let j = self.index_of(k);
                        let j0 = if j < i { j } else { j + 1 };
                        assert(before.names@[j0] == self.names@[j]);
                        before.lemma_at(j0);
                    }
                    if before.view().remove(name@).dom().contains(k) {
                        let j0 = before.index_of(k);
                        assert(j0 != i);
                        let j = if j0 < i { j0 } else { j0 - 1 };
                        assert(self.names@[j] == before.names@[j0]);
                        self.lemma_at(j);
                    }
                }
                assert forall|k: Seq<char>| #[trigger]
                    self.view().dom().contains(k) implies self.view()[k] == before.view()[k] by {
                    let j = self.index_of(k);
                    let j0 = if j < i { j } else { j + 1 };
                    assert(before.names@[j0] == self.names@[j]);
                    before.lemma_at(j0);
                    self.lemma_at(j);
                }
                assert(self.view() =~= before.view().remove(name@));
                Some(v)
            },
        }
    }

    /// Puts `value` under `name`, in place of the value that was there, which it gives back.
    pub fn insert(&mut self, name: Name, value: V) -> (r: Option<V>)
        requires
            old(self).wf(),
        ensures
            final(self).wf(),
            final(self).view().dom().finite(),
            final(self).view() == old(self).view().insert(name@, value),
            match r {
                Some(v) => old(self).view().dom().contains(name@) && v == old(self).view()[name@],
                None => !old(self).view().dom().contains(name@),
            },
    {
        let previous = self.remove(&name);
        let ghost before = *self;
        let ghost k = name@;
        self.names.push(name);
        self.values.push(value);
        let n = self.names.len() - 1;
        assert(self.rows_ok()) by {
            assert forall|a: int, b: int|
                0 <= a < b < self.names@.len() implies (#[trigger] self.names@[a])@
                != (#[trigger] self.names@[b])@ by {
                if b == n {
                    assert(self.names@[a] == before.names@[a]);
                    before.lemma_at(a);
                } else {
                    assert(self.names@[a] == before.names@[a]);
                    assert(self.names@[b] == before.names@[b]);
                }
            }
        }
        assert forall|j: Seq<char>|
            #![trigger self.view().dom().contains(j)]
            #![trigger before.view().insert(k, value).dom().contains(j)]
            self.view().dom().contains(j) <==> before.view().insert(k, value).dom().contains(j) by {
            if self.view().dom().contains(j) && j != k {
                let x = self.index_of(j);
                assert(x != n);
                assert(self.names@[x] == before.names@[x]);
                before.lemma_at(x);
            }
            if before.view().dom().contains(j) {
                let x = before.index_of(j);
                assert(self.names@[x] == before.names@[x]);
                self.lemma_at(x);
            }
            if j == k {
                self.lemma_at(n as int);
            }
        }
        assert forall|j: Seq<char>| #[trigger]
            self.view().dom().contains(j) implies self.view()[j] == before.view().insert(
            k,
            value,
        )[j] by {
            if j == k {
                self.lemma_at(n as int);
            } else {
                let x = self.index_of(j);
                assert(x != n) by {
                    self.lemma_at(n as int);
                }
                assert(self.names@[x] == before.names@[x]);
                before.lemma_at(x);
                self.lemma_at(x);
            }
        }
        assert(self.view() =~= before.view().insert(k, value));
        previous
    }
}

} // verus!
