use vstd::prelude::*;

verus! {

/// A map keyed by text: a list of entries whose keys are pairwise distinct.
/// It stands for a keyed storage bucket of a contract.
#[derive(Debug)]
pub struct TextMap<V> {
    entries: Vec<(String, V)>,
}

impl<V> TextMap<V> {
    /// The keys of the entries are pairwise distinct.
    pub closed spec fn wf(self) -> bool {
        forall|i: int, j: int|
            0 <= i < j < self.entries@.len() ==> #[trigger] self.entries@[i].0@
                != #[trigger] self.entries@[j].0@
    }

    /// Entry `i` exists and holds key `k`.
    pub closed spec fn key_at(self, k: Seq<char>, i: int) -> bool {
        0 <= i < self.entries@.len() && self.entries@[i].0@ == k
    }

    /// The map of keys to values that the entries describe.
    pub closed spec fn as_map(self) -> Map<Seq<char>, V> {
        Map::new(
            |k: Seq<char>| exists|i: int| self.key_at(k, i),
            |k: Seq<char>| self.entries@[choose|i: int| self.key_at(k, i)].1,
        )
    }

    proof fn lemma_entry(self, k: Seq<char>, i: int)
        requires
            self.wf(),
            self.key_at(k, i),
        ensures
            self.as_map().contains_key(k),
            self.as_map()[k] == self.entries@[i].1,
    {
        let j: int = choose|j: int| self.key_at(k, j);
        assert(self.key_at(k, j));
        if j != i {
            if j < i {
                assert(self.entries@[j].0@ != self.entries@[i].0@);
            } else {
                assert(self.entries@[i].0@ != self.entries@[j].0@);
            }
        }
    }

    /// An empty map.
    pub fn new() -> (r: Self)
        ensures
            r.wf(),
            r@ == Map::<Seq<char>, V>::empty(),
    {
        let r = TextMap { entries: Vec::new() };
        assert(r.as_map() =~= Map::<Seq<char>, V>::empty());
        r
    }

    /// The position of `key` among the entries, if it is there.
    fn find(&self, key: &String) -> (r: Option<usize>)
        requires
            self.wf(),
        ensures
            match r {
                Some(i) => self.key_at(key@, i as int),
                None => !self@.contains_key(key@),
            },
    {
        let n: usize = self.entries.len();
        let mut i: usize = 0;
        while i < n
            invariant
                n == self.entries@.len(),
                0 <= i <= n,
                forall|j: int| 0 <= j < i ==> self.entries@[j].0@ != key@,
            decreases n - i,
        {
            if self.entries[i].0 == *key {
                return Some(i);
            }
            i = i + 1;
        }
        None
    }

    /// The value stored under `key`, if any.
    pub fn get(&self, key: &String) -> (r: Option<&V>)
        requires
            self.wf(),
        ensures
            match r {
                Some(v) => self@.contains_key(key@) && *v == self@[key@],
                None => !self@.contains_key(key@),
            },
    {
        match self.find(key) {
            Some(i) => {
                proof {
                    self.lemma_entry(key@, i as int);
                }
                Some(&self.entries[i].1)
            },
            None => None,
        }
    }

    /// Stores `value` under `key`, replacing what was there.
    pub fn insert(&mut self, key: String, value: V)
        requires
            old(self).wf(),
        ensures
            final(self).wf(),
            final(self)@ == old(self)@.insert(key@, value),
    {
        let ghost k = key@;
        let ghost old_map = self.as_map();
        match self.find(&key) {
            Some(i) => {
                self.entries.set(i, (key, value));
                proof {
                    assert forall|a: int, b: int|
                        0 <= a < b < self.entries@.len() implies #[trigger] self.entries@[a].0@
                        != #[trigger] self.entries@[b].0@ by {
                        assert(old(self).entries@[a].0@ != old(self).entries@[b].0@);
                    }
                    assert forall|k2: Seq<char>| #[trigger]
                        self.as_map().contains_key(k2) == old_map.insert(k, value).contains_key(k2) by {
                        if old_map.insert(k, value).contains_key(k2) && k2 != k {
                            let j: int = choose|j: int| old(self).key_at(k2, j);
                            assert(self.key_at(k2, j));
                        }
                        if k2 == k {
                            assert(self.key_at(k2, i as int));
                        }
                        if self.as_map().contains_key(k2) && k2 != k {
                            let j: int = choose|j: int| self.key_at(k2, j);
                            assert(old(self).key_at(k2, j));
                        }
                    }
                    assert forall|k2: Seq<char>| #[trigger] self.as_map().contains_key(k2) implies
                        self.as_map()[k2] == old_map.insert(k, value)[k2] by {
                        let j: int = choose|j: int| self.key_at(k2, j);
                        self.lemma_entry(k2, j);
                        if k2 != k {
                            assert(old(self).key_at(k2, j));
                            old(self).lemma_entry(k2, j);
                        }
                    }
                    assert(self.as_map() =~= old_map.insert(k, value));
                }
            },
            None => {
                self.entries.push((key, value));
                proof {
                    let n: int = old(self).entries@.len() as int;
                    assert forall|a: int, b: int|
                        0 <= a < b < self.entries@.len() implies #[trigger] self.entries@[a].0@
                        != #[trigger] self.entries@[b].0@ by {
                        if b == n {
                            assert(!old(self).key_at(k, a));
                        } else {
                            assert(old(self).entries@[a].0@ != old(self).entries@[b].0@);
                        }
                    }
                    assert forall|k2: Seq<char>| #[trigger]
                        self.as_map().contains_key(k2) == old_map.insert(k, value).contains_key(k2) by {
                        if old_map.insert(k, value).contains_key(k2) && k2 != k {
                            let j: int = choose|j: int| old(self).key_at(k2, j);
                            assert(self.key_at(k2, j));
                        }
                        if k2 == k {
                            assert(self.key_at(k2, n));
                        }
                        if self.as_map().contains_key(k2) && k2 != k {
                            let j: int = choose|j: int| self.key_at(k2, j);
                            assert(old(self).key_at(k2, j));
                        }
                    }
                    assert forall|k2: Seq<char>| #[trigger] self.as_map().contains_key(k2) implies
                        self.as_map()[k2] == old_map.insert(k, value)[k2] by {
                        let j: int = choose|j: int| self.key_at(k2, j);
                        self.lemma_entry(k2, j);
                        if k2 != k {
                            assert(old(self).key_at(k2, j));
                            old(self).lemma_entry(k2, j);
                        }
                    }
                    assert(self.as_map() =~= old_map.insert(k, value));
                }
            },
        }
    }

    /// Takes the value stored under `key` out of the map, if any.
    pub fn remove(&mut self, key: &String) -> (r: Option<V>)
        requires
            old(self).wf(),
        ensures
            final(self).wf(),
            final(self)@ == old(self)@.remove(key@),
            r == (if old(self)@.contains_key(key@) {
                Some(old(self)@[key@])
            } else {
                None::<V>
            }),
    {
        let ghost k = key@;
        let ghost old_map = self.as_map();
        match self.find(key) {
            Some(i) => {
                proof {
                    old(self).lemma_entry(k, i as int);
                }
                let (_, v) = self.entries.remove(i);
                proof {
                    let ii: int = i as int;
                    assert forall|a: int, b: int|
                        0 <= a < b < self.entries@.len() implies #[trigger] self.entries@[a].0@
                        != #[trigger] self.entries@[b].0@ by {
                        let oa: int = if a < ii { a } else { a + 1 };
                        let ob: int = if b < ii { b } else { b + 1 };
                        assert(self.entries@[a] == old(self).entries@[oa]);
                        assert(self.entries@[b] == old(self).entries@[ob]);
                        assert(old(self).entries@[oa].0@ != old(self).entries@[ob].0@);
                    }
                    assert forall|k2: Seq<char>| #[trigger]
                        self.as_map().contains_key(k2) == old_map.remove(k).contains_key(k2) by {
                        if old_map.remove(k).contains_key(k2) {
                            let j: int = choose|j: int| old(self).key_at(k2, j);
                            assert(j != ii);
                            let nj: int = if j < ii { j } else { j - 1 };
                            assert(self.entries@[nj] == old(self).entries@[j]);
                            assert(self.key_at(k2, nj));
                        }
                        if self.as_map().contains_key(k2) {
                            let j: int = choose|j: int| self.key_at(k2, j);
                            let oj: int = if j < ii { j } else { j + 1 };
                            assert(self.entries@[j] == old(self).entries@[oj]);
                            assert(old(self).key_at(k2, oj));
                            if k2 == k {
                                assert(oj != ii);
                                if oj < ii {
                                    assert(old(self).entries@[oj].0@ != old(self).entries@[ii].0@);
                                } else {
                                    assert(old(self).entries@[ii].0@ != old(self).entries@[oj].0@);
                                }
                            }
                        }
                    }
                    assert forall|k2: Seq<char>| #[trigger] self.as_map().contains_key(k2) implies
                        self.as_map()[k2] == old_map.remove(k)[k2] by {
                        let j: int = choose|j: int| self.key_at(k2, j);
                        self.lemma_entry(k2, j);
                        let oj: int = if j < ii { j } else { j + 1 };
                        assert(self.entries@[j] == old(self).entries@[oj]);
                        assert(old(self).key_at(k2, oj));
                        old(self).lemma_entry(k2, oj);
                    }
                    assert(self.as_map() =~= old_map.remove(k));
                }
                Some(v)
            },
            None => {
                proof {
                    assert(old_map.remove(k) =~= old_map);
                }
                None
            },
        }
    }
}

impl<V> View for TextMap<V> {
    type V = Map<Seq<char>, V>;

    open spec fn view(&self) -> Map<Seq<char>, V> {
        self.as_map()
    }
}

} // verus!
