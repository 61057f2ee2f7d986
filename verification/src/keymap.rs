use vstd::prelude::*;

verus! {

/// A map from string keys to values that remembers the order in which keys
/// were first inserted.
///
/// Keys are compared by their characters. The map is modelled by a
/// `Map<Seq<char>, V>`; `key_order` gives the order of its keys.
pub struct KeyMap<V> {
    keys: Vec<String>,
    vals: Vec<V>,
}

/// The characters of each string of a sequence.
pub open spec fn string_views(s: Seq<String>) -> Seq<Seq<char>> {
    s.map_values(|k: String| k@)
}

/// The position of `k` in `ks` (meaningful only when `ks` contains it).
pub open spec fn position_of(ks: Seq<Seq<char>>, k: Seq<char>) -> int {
    choose|i: int| 0 <= i < ks.len() && ks[i] == k
}

/// The map that sends each key of `ks` to the value at the same position of `vs`.
pub open spec fn map_of<V>(ks: Seq<Seq<char>>, vs: Seq<V>) -> Map<Seq<char>, V> {
    Map::new(|k: Seq<char>| ks.contains(k), |k: Seq<char>| vs[position_of(ks, k)])
}

proof fn lemma_position_of(ks: Seq<Seq<char>>, i: int)
    requires
        ks.no_duplicates(),
        0 <= i < ks.len(),
    ensures
        position_of(ks, ks[i]) == i,
{
    let k = ks[i];
    assert(0 <= i < ks.len() && ks[i] == k);
    let j = position_of(ks, k);
    assert(0 <= j < ks.len() && ks[j] == k);
}

proof fn lemma_map_of_at<V>(ks: Seq<Seq<char>>, vs: Seq<V>, i: int)
    requires
        ks.no_duplicates(),
        0 <= i < ks.len(),
    ensures
        map_of(ks, vs).contains_key(ks[i]),
        map_of(ks, vs)[ks[i]] == vs[i],
{
    lemma_position_of(ks, i);
    assert(ks.contains(ks[i]));
}

/// Replacing the value at one position replaces the value of that key.
proof fn lemma_map_of_update<V>(ks: Seq<Seq<char>>, vs: Seq<V>, i: int, v: V)
    requires
        ks.no_duplicates(),
        ks.len() == vs.len(),
        0 <= i < ks.len(),
    ensures
        map_of(ks, vs.update(i, v)) == map_of(ks, vs).insert(ks[i], v),
{
    let a = map_of(ks, vs.update(i, v));
    let b = map_of(ks, vs).insert(ks[i], v);
    assert forall|k: Seq<char>| a.contains_key(k) implies a[k] == b[k] by {
        let j = choose|j: int| 0 <= j < ks.len() && ks[j] == k;
        lemma_position_of(ks, j);
        if j != i {
            assert(ks[i] != ks[j]);
        }
    }
    assert(ks.contains(ks[i]));
    assert(a =~= b);
}

/// Appending a fresh key with its value adds that entry to the map.
proof fn lemma_map_of_push<V>(ks: Seq<Seq<char>>, vs: Seq<V>, k: Seq<char>, v: V)
    requires
        ks.no_duplicates(),
        ks.len() == vs.len(),
        !ks.contains(k),
    ensures
        ks.push(k).no_duplicates(),
        map_of(ks.push(k), vs.push(v)) == map_of(ks, vs).insert(k, v),
{
    let ks2 = ks.push(k);
    let vs2 = vs.push(v);
    assert forall|a: int, b: int| 0 <= a < b < ks2.len() implies ks2[a] != ks2[b] by {
        if b == ks.len() {
            assert(ks.contains(ks[a]));
        }
    }
    let m1 = map_of(ks2, vs2);
    let m2 = map_of(ks, vs).insert(k, v);
    assert forall|x: Seq<char>| m1.contains_key(x) implies m1[x] == m2[x] by {
        let j = choose|j: int| 0 <= j < ks2.len() && ks2[j] == x;
        lemma_position_of(ks2, j);
        if j < ks.len() {
            lemma_position_of(ks, j);
            assert(ks.contains(x));
        }
    }
    assert forall|x: Seq<char>| m2.contains_key(x) implies m1.contains_key(x) by {
        if x != k {
            let j = choose|j: int| 0 <= j < ks.len() && ks[j] == x;
            assert(ks2[j] == x);
        } else {
            assert(ks2[ks.len() as int] == x);
        }
    }
    assert(m1 =~= m2);
}

/// Removing the entry at one position removes that key from the map.
proof fn lemma_map_of_remove<V>(ks: Seq<Seq<char>>, vs: Seq<V>, i: int)
    requires
        ks.no_duplicates(),
        ks.len() == vs.len(),
        0 <= i < ks.len(),
    ensures
        ks.remove(i).no_duplicates(),
        map_of(ks.remove(i), vs.remove(i)) == map_of(ks, vs).remove(ks[i]),
{
    let ks2 = ks.remove(i);
    let vs2 = vs.remove(i);
    assert forall|a: int, b: int| 0 <= a < b < ks2.len() implies ks2[a] != ks2[b] by {
        let a0 = if a < i { a } else { a + 1 };
        let b0 = if b < i { b } else { b + 1 };
        assert(ks2[a] == ks[a0] && ks2[b] == ks[b0]);
    }
    let m1 = map_of(ks2, vs2);
    let m2 = map_of(ks, vs).remove(ks[i]);
    assert forall|x: Seq<char>| m1.contains_key(x) implies m2.contains_key(x) && m1[x] == m2[x] by {
        let j = choose|j: int| 0 <= j < ks2.len() && ks2[j] == x;
        lemma_position_of(ks2, j);
        let j0 = if j < i { j } else { j + 1 };
        assert(ks[j0] == x);
        lemma_position_of(ks, j0);
        assert(ks.contains(x));
        assert(j0 != i);
    }
    assert forall|x: Seq<char>| m2.contains_key(x) implies m1.contains_key(x) by {
        let j = choose|j: int| 0 <= j < ks.len() && ks[j] == x;
        assert(j != i);
        let j2 = if j < i { j } else { j - 1 };
        assert(ks2[j2] == x);
    }
    assert(m1 =~= m2);
}

impl<V> KeyMap<V> {
    /// The keys, in the order in which they were first inserted.
    pub closed spec fn key_order(&self) -> Seq<Seq<char>> {
        string_views(self.keys@)
    }

    /// Well-formedness: one value per key, and no key twice.
    pub closed spec fn wf(&self) -> bool {
        &&& self.keys@.len() == self.vals@.len()
        &&& self.key_order().no_duplicates()
    }

    /// The map from each key to its value.
    pub closed spec fn view(&self) -> Map<Seq<char>, V> {
        map_of(self.key_order(), self.vals@)
    }

    proof fn lemma_position(&self, i: int)
        requires
            self.wf(),
            0 <= i < self.keys@.len(),
        ensures
            self@.contains_key(self.keys@[i]@),
            self@[self.keys@[i]@] == self.vals@[i],
    {
        lemma_map_of_at(self.key_order(), self.vals@, i);
    }

    /// The facts that every well-formed map gives about its keys.
    pub proof fn lemma_wf(&self)
        requires
            self.wf(),
        ensures
            self.key_order().no_duplicates(),
            self.key_order().to_set() == self@.dom(),
            self@.dom().finite(),
            self@.dom().len() == self.key_order().len(),
    {
        assert(self.key_order().to_set() =~= self@.dom());
        self.key_order().unique_seq_to_set();
    }

    /// Creates an empty map.
    pub fn new() -> (r: Self)
        ensures
            r.wf(),
            r@ == Map::<Seq<char>, V>::empty(),
            r.key_order() == Seq::<Seq<char>>::empty(),
    {
        let r = KeyMap { keys: Vec::new(), vals: Vec::new() };
        assert(r.key_order() =~= Seq::<Seq<char>>::empty());
        assert(r@ =~= Map::<Seq<char>, V>::empty());
        r
    }

    /// The number of keys.
    pub fn len(&self) -> (r: usize)
        requires
            self.wf(),
        ensures
            r == self.key_order().len(),
            r == self@.dom().len(),
    {
        proof {
            self.lemma_wf();
        }
        self.keys.len()
    }

    /// The position of `key` among the keys, if it is one of them.
    fn find(&self, key: &str) -> (r: Option<usize>)
        requires
            self.wf(),
        ensures
            match r {
                Some(i) => i < self.keys@.len() && self.keys@[i as int]@ == key@,
                None => !self@.contains_key(key@),
            },
    {
        let probe = key.to_owned();
        let mut i: usize = 0;
        while i < self.keys.len()
            invariant
                self.wf(),
                probe@ == key@,
                i <= self.keys@.len(),
                forall|j: int| 0 <= j < i ==> self.keys@[j]@ != key@,
            decreases self.keys@.len() - i,
        {
            if self.keys[i] == probe {
                return Some(i);
            }
            i = i + 1;
        }
        proof {
            if self@.contains_key(key@) {
                let j = choose|j: int| 0 <= j < self.key_order().len() && self.key_order()[j] == key@;
                assert(self.keys@[j]@ == key@);
            }
        }
        None
    }

    /// Whether `key` is one of the keys.
    pub fn contains_key(&self, key: &str) -> (r: bool)
        requires
            self.wf(),
        ensures
            r == self@.contains_key(key@),
    {
        match self.find(key) {
            Some(i) => {
                proof {
                    self.lemma_position(i as int);
                }
                true
            },
            None => false,
        }
    }

    /// The value of `key`, if it is one of the keys.
    pub fn get(&self, key: &str) -> (r: Option<&V>)
        requires
            self.wf(),
        ensures
            match r {
                Some(v) => self@.contains_key(key@) && *v == self@[key@],
                None => !self@.contains_key(key@),
            },
    {
        match self.find(key) {
            Some(i) => {
                proof {
                    self.lemma_position(i as int);
                }
                Some(&self.vals[i])
            },
            None => None,
        }
    }

    /// A mutable reference to the value of `key`, if it is one of the keys.
    pub fn get_mut(&mut self, key: &str) -> (r: Option<&mut V>)
        requires
            old(self).wf(),
        ensures
            match r {
                Some(v) => {
                    &&& old(self)@.contains_key(key@)
                    &&& *v == old(self)@[key@]
                    &&& final(self).wf()
                    &&& final(self)@ == old(self)@.insert(key@, *final(v))
                    &&& final(self).key_order() == old(self).key_order()
                },
                None => {
                    &&& !old(self)@.contains_key(key@)
                    &&& *final(self) == *old(self)
                },
            },
    {
        match self.find(key) {
            Some(i) => {
                proof {
                    self.lemma_position(i as int);
                }
                let ghost ks = self.key_order();
                let ghost vs = self.vals@;
                let r = &mut self.vals[i];
                proof {
                    lemma_map_of_update(ks, vs, i as int, *final(r));
                }
                Some(r)
            },
            None => None,
        }
    }

    /// Sets the value of `key`; a new key goes after all the others.
    pub fn insert(&mut self, key: String, value: V)
        requires
            old(self).wf(),
        ensures
            final(self).wf(),
            final(self)@ == old(self)@.insert(key@, value),
            final(self).key_order() == if old(self)@.contains_key(key@) {
                old(self).key_order()
            } else {
                old(self).key_order().push(key@)
            },
    {
        match self.find(key.as_str()) {
            Some(i) => {
                proof {
                    lemma_map_of_update(self.key_order(), self.vals@, i as int, value);
                    lemma_map_of_at(self.key_order(), self.vals@, i as int);
                }
                self.vals.set(i, value);
            },
            None => {
                proof {
                    lemma_map_of_push(self.key_order(), self.vals@, key@, value);
                }
                let ghost old_keys = self.keys@;
                self.keys.push(key);
                self.vals.push(value);
                proof {
                    assert(string_views(self.keys@) =~= string_views(old_keys).push(
                        self.keys@.last()@,
                    ));
                }
            },
        }
    }

    /// Removes `key` and returns its value, if it is one of the keys.
    pub fn remove(&mut self, key: &str) -> (r: Option<V>)
        requires
            old(self).wf(),
        ensures
            final(self).wf(),
            final(self)@ == old(self)@.remove(key@),
            final(self).key_order() == if old(self)@.contains_key(key@) {
                old(self).key_order().remove(position_of(old(self).key_order(), key@))
            } else {
                old(self).key_order()
            },
            match r {
                Some(v) => old(self)@.contains_key(key@) && v == old(self)@[key@],
                None => !old(self)@.contains_key(key@) && final(self)@ == old(self)@,
            },
    {
        match self.find(key) {
            Some(i) => {
                let ghost old_keys = self.keys@;
                proof {
                    lemma_map_of_remove(self.key_order(), self.vals@, i as int);
                    lemma_map_of_at(self.key_order(), self.vals@, i as int);
                    lemma_position_of(self.key_order(), i as int);
                }
                self.keys.remove(i);
                let v = self.vals.remove(i);
                proof {
                    assert(string_views(self.keys@) =~= string_views(old_keys).remove(i as int));
                }
                Some(v)
            },
            None => {
                proof {
                    assert(old(self)@.remove(key@) =~= old(self)@);
                }
                None
            },
        }
    }

    /// Copies of the keys, in the order in which they were first inserted.
    pub fn keys(&self) -> (r: Vec<String>)
        requires
            self.wf(),
        ensures
            string_views(r@) == self.key_order(),
    {
        let mut r: Vec<String> = Vec::new();
        let mut i: usize = 0;
        while i < self.keys.len()
            invariant
                i <= self.keys@.len(),
                string_views(r@) == self.key_order().subrange(0, i as int),
            decreases self.keys@.len() - i,
        {
            let k = self.keys[i].clone();
            let ghost before = r@;
            r.push(k);
            proof {
                assert(string_views(r@) =~= string_views(before).push(k@));
                assert(self.key_order().subrange(0, i + 1) =~= self.key_order().subrange(
                    0,
                    i as int,
                ).push(k@));
            }
            i = i + 1;
        }
        proof {
            assert(self.key_order().subrange(0, i as int) =~= self.key_order());
        }
        r
    }
}

} // verus!
