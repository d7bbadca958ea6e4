//! A map keyed by text, kept as a list of entries whose keys are distinct.
use vstd::prelude::*;

verus! {

/// Map from names to values; no key occurs twice among the entries.
pub struct StrMap<V> {
    entries: Vec<(String, V)>,
}

impl<V: DeepView> StrMap<V> {
    pub closed spec fn wf(&self) -> bool {
        forall|i: int, j: int|
            0 <= i < j < self.entries@.len() ==> self.entries@[i].0@ != self.entries@[j].0@
    }

    pub closed spec fn has(&self, k: Seq<char>) -> bool {
        exists|i: int| 0 <= i < self.entries@.len() && self.entries@[i].0@ == k
    }

    pub closed spec fn index_of(&self, k: Seq<char>) -> int {
        choose|i: int| 0 <= i < self.entries@.len() && self.entries@[i].0@ == k
    }

    /// The map that the entries stand for.
    pub closed spec fn view(&self) -> Map<Seq<char>, V::V> {
        Map::new(|k: Seq<char>| self.has(k), |k: Seq<char>| self.entries@[self.index_of(k)].1.deep_view())
    }

    proof fn lemma_index_of(&self, i: int)
        requires
            self.wf(),
            0 <= i < self.entries@.len(),
        ensures
            self.has(self.entries@[i].0@),
            self.index_of(self.entries@[i].0@) == i,
    {
        let k = self.entries@[i].0@;
        assert(self.entries@[i].0@ == k);
        let j = self.index_of(k);
        assert(self.entries@[j].0@ == k);
    }

    /// An empty map.
    pub fn new() -> (m: Self)
        ensures
            m.wf(),
            m.view() == Map::<Seq<char>, V::V>::empty(),
    {
        let m = StrMap { entries: Vec::new() };
        assert(m.view() =~= Map::<Seq<char>, V::V>::empty());
        m
    }

    fn find(&self, k: &str) -> (r: Option<usize>)
        requires
            self.wf(),
        ensures
            match r {
                Some(i) => i < self.entries@.len() && self.entries@[i as int].0@ == k@,
                None => !self.has(k@),
            },
    {
        let mut i: usize = 0;
        while i < self.entries.len()
            invariant
                i <= self.entries@.len(),
                forall|j: int| 0 <= j < i ==> self.entries@[j].0@ != k@,
            decreases self.entries@.len() - i,
        {
            if crate::text::same_text(self.entries[i].0.as_str(), k) {
                return Some(i);
            }
            i = i + 1;
        }
        None
    }

    /// Whether the map has the key `k`.
    pub fn contains_key(&self, k: &str) -> (r: bool)
        requires
            self.wf(),
        ensures
            r == self.view().contains_key(k@),
    {
        self.find(k).is_some()
    }

    /// The value under `k`, if any.
    pub fn get(&self, k: &str) -> (r: Option<&V>)
        requires
            self.wf(),
        ensures
            match r {
                Some(v) => self.view().contains_key(k@) && self.view()[k@] == v.deep_view(),
                None => !self.view().contains_key(k@),
            },
    {
        match self.find(k) {
            Some(i) => {
                proof { self.lemma_index_of(i as int); }
                Some(&self.entries[i].1)
            },
            None => None,
        }
    }

    /// Sets the value under `k` to `v`.
    pub fn insert(&mut self, k: String, v: V)
        requires
            old(self).wf(),
        ensures
            final(self).wf(),
            final(self).view() == old(self).view().insert(k@, v.deep_view()),
    {
        let ghost old_map = self.view();
        let ghost kk = k@;
        let ghost vv = v.deep_view();
        match self.find(k.as_str()) {
            Some(i) => {
                self.entries.set(i, (k, v));
                assert(self.wf());
                proof {
                    assert forall|key: Seq<char>| #[trigger] self.has(key) == old(self).has(key) by {
                        if self.has(key) {
                            let j = choose|j: int| 0 <= j < self.entries@.len() && self.entries@[j].0@ == key;
                            assert(old(self).entries@[j].0@ == key);
                        }
                        if old(self).has(key) {
                            let j = choose|j: int| 0 <= j < old(self).entries@.len() && old(self).entries@[j].0@ == key;
                            assert(self.entries@[j].0@ == key);
                        }
                    }
                    assert forall|key: Seq<char>| self.has(key) implies
                        #[trigger] self.view()[key] == old_map.insert(kk, vv)[key] by {
                        let j = self.index_of(key);
                        self.lemma_index_of(j);
                        old(self).lemma_index_of(j);
                    }
                    assert(self.view() =~= old_map.insert(kk, vv));
                }
            },
            None => {
                self.entries.push((k, v));
                assert(self.wf());
                proof {
                    let n = old(self).entries@.len();
                    assert forall|key: Seq<char>| #[trigger] self.has(key) == (old(self).has(key) || key == kk) by {
                        if self.has(key) {
                            let j = choose|j: int| 0 <= j < self.entries@.len() && self.entries@[j].0@ == key;
                            if j < n {
                                assert(old(self).entries@[j].0@ == key);
                            }
                        }
                        if old(self).has(key) {
                            let j = choose|j: int| 0 <= j < old(self).entries@.len() && old(self).entries@[j].0@ == key;
                            assert(self.entries@[j].0@ == key);
                        }
                        if key == kk {
                            assert(self.entries@[n as int].0@ == key);
                        }
                    }
                    assert forall|key: Seq<char>| self.has(key) implies
                        #[trigger] self.view()[key] == old_map.insert(kk, vv)[key] by {
                        let j = self.index_of(key);
                        self.lemma_index_of(j);
                        if j < n {
                            old(self).lemma_index_of(j);
                        }
                    }
                    assert(self.view() =~= old_map.insert(kk, vv));
                }
            },
        }
    }

    /// Removes every entry.
    pub fn clear(&mut self)
        ensures
            final(self).wf(),
            final(self).view() == Map::<Seq<char>, V::V>::empty(),
    {
        self.entries = Vec::new();
        assert(self.view() =~= Map::<Seq<char>, V::V>::empty());
    }
}

}
