//! One namespace of a key-value store, held in memory: each key holds at most
//! one value, and the last write to a key wins.
use vstd::prelude::*;

verus! {

/// A namespace of string keys, each holding one value.
pub struct Namespace<V> {
    keys: Vec<String>,
    values: Vec<V>,
    contents: Ghost<Map<Seq<char>, V>>,
}

impl<V> Namespace<V> {
    /// The keys are distinct and pair up with the values, and `contents`
    /// holds exactly those pairs.
    pub closed spec fn wf(&self) -> bool {
        &&& self.keys.len() == self.values.len()
        &&& forall|i: int, j: int|
            0 <= i < j < self.keys.len() ==> self.keys[i]@ != self.keys[j]@
        &&& forall|i: int|
            0 <= i < self.keys.len() ==> {
                &&& self.contents@.contains_key(#[trigger] self.keys[i]@)
                &&& self.contents@[self.keys[i]@] == self.values[i]
            }
        &&& forall|k: Seq<char>|
            #[trigger] self.contents@.contains_key(k) ==> exists|i: int|
                0 <= i < self.keys.len() && self.keys[i]@ == k
    }

    /// What the namespace holds, key by key.
    pub closed spec fn view(&self) -> Map<Seq<char>, V> {
        self.contents@
    }

    /// An empty namespace.
    pub fn new() -> (r: Self)
        ensures
            r.wf(),
            r.view() == Map::<Seq<char>, V>::empty(),
    {
        Namespace { keys: Vec::new(), values: Vec::new(), contents: Ghost(Map::empty()) }
    }

    /// The number of keys.
    pub fn len(&self) -> (r: usize)
        requires
            self.wf(),
        ensures
            r == self.view().len(),
            self.view().dom().finite(),
    {
        proof {
            self.lemma_dom_is_keys();
        }
        self.keys.len()
    }

    proof fn lemma_dom_is_keys(&self)
        requires
            self.wf(),
        ensures
            self.view().dom() == self.keys@.map_values(|k: String| k@).to_set(),
            self.view().dom().finite(),
            self.view().len() == self.keys.len(),
    {
        let ks = self.keys@.map_values(|k: String| k@);
        assert forall|i: int, j: int| 0 <= i < j < ks.len() implies ks[i] != ks[j] by {
            assert(ks[i] == self.keys[i]@);
            assert(ks[j] == self.keys[j]@);
        }
        assert(ks.no_duplicates());
        assert forall|k: Seq<char>| self.view().dom().contains(k) <==> ks.to_set().contains(k) by {
            if self.view().dom().contains(k) {
                let i = choose|i: int| 0 <= i < self.keys.len() && self.keys[i]@ == k;
                assert(ks[i] == k);
            }
            if ks.to_set().contains(k) {
                let i = choose|i: int| 0 <= i < ks.len() && ks[i] == k;
                assert(self.keys[i]@ == k);
            }
        }
        assert(self.view().dom() =~= ks.to_set());
        ks.unique_seq_to_set();
    }

    /// Where `key` stands among the keys, if anywhere.
    fn find(&self, key: &String) -> (r: Option<usize>)
        requires
            self.wf(),
        ensures
            r matches Some(i) ==> i < self.keys.len() && self.keys[i as int]@ == key@,
            r is None ==> !self.view().contains_key(key@),
    {
        let mut i: usize = 0;
        while i < self.keys.len()
            invariant
                self.wf(),
                i <= self.keys.len(),
                forall|j: int| 0 <= j < i ==> self.keys[j]@ != key@,
            decreases self.keys.len() - i,
        {
            if self.keys[i] == *key {
                return Some(i);
            }
            i = i + 1;
        }
        None
    }

    /// The value under `key`, if any.
    pub fn get(&self, key: &String) -> (r: Option<&V>)
        requires
            self.wf(),
        ensures
            r is Some <==> self.view().contains_key(key@),
            r matches Some(v) ==> *v == self.view()[key@],
    {
        match self.find(key) {
            Some(i) => Some(&self.values[i]),
            None => None,
        }
    }

    /// Removes `key` and its value. Removing a missing key changes nothing.
    pub fn delete(&mut self, key: &String)
        requires
            old(self).wf(),
        ensures
            final(self).wf(),
            final(self).view() == old(self).view().remove(key@),
    {
        match self.find(key) {
            Some(i) => {
                let ghost old_keys = self.keys@;
                let ghost old_values = self.values@;
                let ghost last = old_keys.len() - 1;
                self.keys.swap_remove(i);
                self.values.swap_remove(i);
                self.contents = Ghost(self.contents@.remove(key@));
                assert forall|j: int| 0 <= j < self.keys.len() implies {
                    &&& #[trigger] self.keys[j] == old_keys[if j == i { last } else { j }]
                    &&& self.values[j] == old_values[if j == i { last } else { j }]
                } by {}
                assert forall|j: int| 0 <= j < self.keys.len() implies {
                    &&& self.contents@.contains_key(#[trigger] self.keys[j]@)
                    &&& self.contents@[self.keys[j]@] == self.values[j]
                } by {
                    let o = if j == i { last } else { j };
                    assert(old_keys[o]@ != old_keys[i as int]@);
                }
                assert forall|k: Seq<char>| #[trigger] self.contents@.contains_key(k) implies exists|j: int|
                    0 <= j < self.keys.len() && self.keys[j]@ == k by {
                    let o = choose|o: int| 0 <= o < old_keys.len() && old_keys[o]@ == k;
                    assert(o != i);
                    if o == last {
                        assert(self.keys[i as int]@ == k);
                    } else {
                        assert(self.keys[o]@ == k);
                    }
                }
                assert forall|a: int, b: int| 0 <= a < b < self.keys.len() implies self.keys[a]@
                    != self.keys[b]@ by {
                    let oa = if a == i { last } else { a };
                    let ob = if b == i { last } else { b };
                    assert(old_keys[oa]@ != old_keys[ob]@);
                }
            },
            None => {
                assert(self.contents@.remove(key@) =~= self.contents@);
            },
        }
    }

    /// Writes `value` under `key`, replacing what it held.
    pub fn put(&mut self, key: String, value: V)
        requires
            old(self).wf(),
        ensures
            final(self).wf(),
            final(self).view() == old(self).view().insert(key@, value),
    {
        self.delete(&key);
        let ghost before = self.keys@;
        let ghost k = key@;
        self.contents = Ghost(self.contents@.insert(key@, value));
        self.keys.push(key);
        self.values.push(value);
        assert(self.keys[before.len() as int]@ == k);
        assert forall|k2: Seq<char>| #[trigger] self.contents@.contains_key(k2) implies exists|j: int|
            0 <= j < self.keys.len() && self.keys[j]@ == k2 by {
            if k2 != k {
                let o = choose|o: int| 0 <= o < before.len() && before[o]@ == k2;
                assert(self.keys[o]@ == k2);
            }
        }
        assert(old(self).view().remove(k).insert(k, value) =~= old(self).view().insert(k, value));
    }

    /// Every key, each once, in no particular order.
    pub fn list_keys(&self) -> (r: Vec<String>)
        requires
            self.wf(),
        ensures
            r.len() == self.view().len(),
            forall|i: int, j: int| 0 <= i < j < r.len() ==> r[i]@ != r[j]@,
            forall|i: int| 0 <= i < r.len() ==> self.view().contains_key(#[trigger] r[i]@),
            forall|k: Seq<char>|
                #[trigger] self.view().contains_key(k) ==> exists|i: int| 0 <= i < r.len() && r[i]@ == k,
    {
        proof {
            self.lemma_dom_is_keys();
        }
        let mut out: Vec<String> = Vec::new();
        let mut i: usize = 0;
        while i < self.keys.len()
            invariant
                self.wf(),
                i <= self.keys.len(),
                out.len() == i,
                forall|j: int| 0 <= j < i ==> out[j] == self.keys[j],
            decreases self.keys.len() - i,
        {
            out.push(self.keys[i].clone());
            i = i + 1;
        }
        assert forall|k: Seq<char>| #[trigger] self.view().contains_key(k) implies exists|j: int|
            0 <= j < out.len() && out[j]@ == k by {
            let j = choose|j: int| 0 <= j < self.keys.len() && self.keys[j]@ == k;
            assert(out[j]@ == k);
        }
        out
    }
}

} // verus!
