//! A table keyed by text.
use crate::text;
use vstd::prelude::*;

verus! {

/// Values by key; no key occurs twice.
#[verifier::reject_recursive_types(V)]
pub struct TextMap<V> {
    entries: Vec<(String, V)>,
}

impl<V> TextMap<V> {
    /// No key occurs twice.
    pub closed spec fn wf(self) -> bool {
        forall|i: int, j: int|
            0 <= i < j < self.entries@.len() ==> (#[trigger] self.entries@[i]).0@ != (
            #[trigger] self.entries@[j]).0@
    }

    spec fn has_at(self, i: int, key: Seq<char>) -> bool {
        0 <= i < self.entries@.len() && self.entries@[i].0@ == key
    }

    /// The values by key.
    pub closed spec fn view(self) -> Map<Seq<char>, V> {
        Map::new(
            |key: Seq<char>| exists|i: int| self.has_at(i, key),
            |key: Seq<char>| self.entries@[choose|i: int| self.has_at(i, key)].1,
        )
    }

    proof fn lemma_at(self, i: int)
        requires
            self.wf(),
            0 <= i < self.entries@.len(),
        ensures
            self@.dom().contains(self.entries@[i].0@),
            self@[self.entries@[i].0@] == self.entries@[i].1,
    {
        let key = self.entries@[i].0@;
        assert(self.has_at(i, key));
        let j = choose|j: int| self.has_at(j, key);
        assert(self.has_at(j, key));
        assert(i == j);
    }

    /// An empty table.
    pub fn new() -> (r: TextMap<V>)
        ensures
            r.wf(),
            r@ == Map::<Seq<char>, V>::empty(),
    {
        let r = TextMap { entries: Vec::new() };
        assert(r@ =~= Map::<Seq<char>, V>::empty());
        r
    }

    /// Whether the table is empty.
    pub fn is_empty(&self) -> (r: bool)
        requires
            self.wf(),
        ensures
            r == (self@ == Map::<Seq<char>, V>::empty()),
    {
        proof {
            if self.entries@.len() == 0 {
                assert(self@ =~= Map::<Seq<char>, V>::empty());
            } else {
                self.lemma_at(0);
            }
        }
        self.entries.len() == 0
    }

    fn position(&self, key: &str) -> (r: Option<usize>)
        ensures
            match r {
                Some(k) => self.has_at(k as int, key@),
                None => forall|i: int| !self.has_at(i, key@),
            },
    {
        let mut i: usize = 0;
        while i < self.entries.len()
            invariant
                i <= self.entries@.len(),
                forall|j: int| 0 <= j < i ==> !self.has_at(j, key@),
            decreases self.entries@.len() - i,
        {
            if text::same(self.entries[i].0.as_str(), key) {
                return Some(i);
            }
            i += 1;
        }
        None
    }

    /// Puts a value under a key, in place of one that was there.
    pub fn insert(&mut self, key: String, value: V)
        requires
            old(self).wf(),
        ensures
            final(self).wf(),
            final(self)@ == old(self)@.insert(key@, value),
    {
        let ghost was = *self;
        match self.position(key.as_str()) {
            Some(k) => {
                self.entries.set(k, (key, value));
                assert(self.entries@ =~= was.entries@.update(k as int, (key, value)));
            },
            None => {
                self.entries.push((key, value));
                assert(self.entries@ =~= was.entries@.push((key, value)));
            },
        }
        proof {
            let goal = was@.insert(key@, value);
            assert forall|i: int, j: int| 0 <= i < j < self.entries@.len() implies (
            #[trigger] self.entries@[i]).0@ != (#[trigger] self.entries@[j]).0@ by {
                if j < was.entries@.len() {
                    assert(was.entries@[i].0@ != was.entries@[j].0@);
                } else {
                    assert(!was.has_at(i, key@));
                }
            }
            assert forall|k: Seq<char>| self@.dom().contains(k) <==> goal.dom().contains(k) by {
                if goal.dom().contains(k) {
                    if k == key@ {
                        assert(exists|i: int| self.has_at(i, k)) by {
                            if was.entries@.len() < self.entries@.len() {
                                assert(self.has_at(was.entries@.len() as int, k));
                            } else {
                                let i = choose|i: int| was.has_at(i, k);
                                assert(self.has_at(i, k));
                            }
                        }
                    } else {
                        let i = choose|i: int| was.has_at(i, k);
                        assert(self.has_at(i, k));
                    }
                }
                if self@.dom().contains(k) && k != key@ {
                    let i = choose|i: int| self.has_at(i, k);
                    assert(was.has_at(i, k));
                }
            }
            assert forall|k: Seq<char>| self@.dom().contains(k) implies #[trigger] self@[k] == goal[k] by {
                let i = choose|i: int| self.has_at(i, k);
                self.lemma_at(i);
                if k != key@ {
                    assert(was.has_at(i, k));
                    was.lemma_at(i);
                }
            }
            assert(self@ =~= goal);
        }
    }

    /// The value under a key.
    pub fn get(&self, key: &str) -> (r: Option<&V>)
        requires
            self.wf(),
        ensures
            match r {
                Some(v) => self@.dom().contains(key@) && self@[key@] == *v,
                None => !self@.dom().contains(key@),
            },
    {
        match self.position(key) {
            Some(k) => {
                proof {
                    self.lemma_at(k as int);
                }
                Some(&self.entries[k].1)
            },
            None => None,
        }
    }

    /// Whether there is a value under a key.
    pub fn contains_key(&self, key: &str) -> (r: bool)
        requires
            self.wf(),
        ensures
            r == self@.dom().contains(key@),
    {
        self.get(key).is_some()
    }

    /// Takes the value under a key out of the table.
    pub fn remove(&mut self, key: &str) -> (r: Option<V>)
        requires
            old(self).wf(),
        ensures
            final(self).wf(),
            final(self)@ == old(self)@.remove(key@),
            match r {
                Some(v) => old(self)@.dom().contains(key@) && old(self)@[key@] == v,
                None => !old(self)@.dom().contains(key@),
            },
    {
        let ghost was = *self;
        match self.position(key) {
            None => {
                assert(self@ =~= was@.remove(key@));
                None
            },
            Some(k) => {
                let (_, value) = self.entries.remove(k);
                proof {
                    was.lemma_at(k as int);
                    assert(self.entries@ =~= was.entries@.remove(k as int));
                    assert(self.wf());
                    assert forall|x: Seq<char>|
                        self@.dom().contains(x) <==> was@.remove(key@).dom().contains(x) by {
                        if self@.dom().contains(x) {
                            let i = choose|i: int| self.has_at(i, x);
                            let j = if i < k {
                                i
                            } else {
                                i + 1
                            };
                            assert(was.has_at(j, x));
                        }
                        if was@.remove(key@).dom().contains(x) {
                            let i = choose|i: int| was.has_at(i, x);
                            let j = if i < k {
                                i
                            } else {
                                i - 1
                            };
                            assert(self.has_at(j, x));
                        }
                    }
                    assert forall|x: Seq<char>| self@.dom().contains(x) implies #[trigger] self@[x]
                        == was@[x] by {
                        let i = choose|i: int| self.has_at(i, x);
                        self.lemma_at(i);
                        let j = if i < k {
                            i
                        } else {
                            i + 1
                        };
                        assert(was.has_at(j, x));
                        was.lemma_at(j);
                    }
                    assert(self@ =~= was@.remove(key@));
                }
                Some(value)
            },
        }
    }

    /// The entries, one for each key.
    pub fn into_entries(self) -> (v: Vec<(String, V)>)
        requires
            self.wf(),
        ensures
            forall|key: Seq<char>|
                self@.dom().contains(key) ==> exists|i: int|
                    0 <= i < v@.len() && (#[trigger] v@[i]).0@ == key,
            forall|i: int, j: int|
                0 <= i < j < v@.len() ==> (#[trigger] v@[i]).0@ != (#[trigger] v@[j]).0@,
            forall|i: int|
                0 <= i < v@.len() ==> self@.dom().contains((#[trigger] v@[i]).0@)
                    && self@[v@[i].0@] == v@[i].1,
    {
        proof {
            assert forall|i: int| 0 <= i < self.entries@.len() implies self@.dom().contains(
                (#[trigger] self.entries@[i]).0@,
            ) && self@[self.entries@[i].0@] == self.entries@[i].1 by {
                self.lemma_at(i);
            }
            assert forall|key: Seq<char>| self@.dom().contains(key) implies exists|i: int|
                0 <= i < self.entries@.len() && (#[trigger] self.entries@[i]).0@ == key by {
                let i = choose|i: int| self.has_at(i, key);
                assert(self.entries@[i].0@ == key);
            }
        }
        self.entries
    }
}

} // verus!
