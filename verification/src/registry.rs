//! A table of named entries: each name is registered at most once, and
//! registering a name again replaces what it stood for.
use vstd::prelude::*;

verus! {

/// Entries keyed by name. Its model is a finite map from names to values.
pub struct Registry<T> {
    entries: Vec<(String, T)>,
    model: Ghost<Map<Seq<char>, T>>,
}

impl<T> View for Registry<T> {
    type V = Map<Seq<char>, T>;

    closed spec fn view(&self) -> Map<Seq<char>, T> {
        self.model@
    }
}

impl<T> Registry<T> {
    /// The entries agree with the model, and no name occurs twice.
    pub closed spec fn wf(&self) -> bool {
        &&& forall|i: int|
            0 <= i < self.entries@.len() ==> {
                &&& self.model@.contains_key(#[trigger] self.entries@[i].0@)
                &&& self.model@[self.entries@[i].0@] == self.entries@[i].1
            }
        &&& forall|k: Seq<char>|
            #[trigger] self.model@.contains_key(k) ==> exists|i: int|
                0 <= i < self.entries@.len() && #[trigger] self.entries@[i].0@ == k
        &&& forall|i: int, j: int|
            0 <= i < self.entries@.len() && 0 <= j < self.entries@.len() && i != j
                ==> #[trigger] self.entries@[i].0@ != #[trigger] self.entries@[j].0@
    }

    /// An empty table.
    pub fn new() -> (r: Self)
        ensures
            r.wf(),
            r@ == Map::<Seq<char>, T>::empty(),
    {
        Registry { entries: Vec::new(), model: Ghost(Map::empty()) }
    }

    /// The position of `key` among the entries, if it is registered.
    fn find(&self, key: &String) -> (r: Option<usize>)
        requires
            self.wf(),
        ensures
            match r {
                Some(i) => i < self.entries@.len() && self.entries@[i as int].0@ == key@,
                None => !self@.contains_key(key@),
            },
    {
        let n = self.entries.len();
        let mut i: usize = 0;
        while i < n
            invariant
                self.wf(),
                n == self.entries@.len(),
                i <= n,
                forall|j: int| 0 <= j < i ==> self.entries@[j].0@ != key@,
            decreases n - i,
        {
            if self.entries[i].0 == *key {
                return Some(i);
            }
            i = i + 1;
        }
        proof {
            if self@.contains_key(key@) {
                let j = choose|j: int| 0 <= j < self.entries@.len() && self.entries@[j].0@ == key@;
                assert(self.entries@[j].0@ == key@);
            }
        }
        None
    }

    /// Whether `key` is registered.
    pub fn contains_key(&self, key: &str) -> (r: bool)
        requires
            self.wf(),
        ensures
            r == self@.contains_key(key@),
    {
        let k = key.to_owned();
        match self.find(&k) {
            Some(_) => true,
            None => false,
        }
    }

    /// The number of registered names.
    pub fn len(&self) -> (r: usize)
        requires
            self.wf(),
        ensures
            r == self@.len(),
    {
        proof { self.lemma_len(); }
        self.entries.len()
    }

    proof fn lemma_len(&self)
        requires
            self.wf(),
        ensures
            self@.dom().finite(),
            self@.len() == self.entries@.len(),
    {
        let keys = self.entries@.map_values(|e: (String, T)| e.0@);
        assert forall|i: int, j: int| 0 <= i < keys.len() && 0 <= j < keys.len() && i != j
            implies keys[i] != keys[j] by {
            assert(self.entries@[i].0@ != self.entries@[j].0@);
        }
        assert(keys.no_duplicates());
        assert(keys.to_set() =~= self@.dom()) by {
            assert forall|k: Seq<char>| self@.dom().contains(k) implies keys.to_set().contains(k) by {
                let i = choose|i: int| 0 <= i < self.entries@.len() && self.entries@[i].0@ == k;
                assert(keys[i] == k);
            }
            assert forall|k: Seq<char>| keys.to_set().contains(k) implies self@.dom().contains(k) by {
                let i = choose|i: int| 0 <= i < keys.len() && keys[i] == k;
                assert(self.entries@[i].0@ == k);
            }
        }
        keys.unique_seq_to_set();
    }

    /// The value registered under `key`, if any.
    pub fn get(&self, key: &str) -> (r: Option<&T>)
        requires
            self.wf(),
        ensures
            match r {
                Some(v) => self@.contains_key(key@) && *v == self@[key@],
                None => !self@.contains_key(key@),
            },
    {
        let k = key.to_owned();
        match self.find(&k) {
            Some(i) => Some(&self.entries[i].1),
            None => None,
        }
    }

    /// Registers `value` under `key`. A value already registered under
    /// `key` is replaced and handed back.
    pub fn insert(&mut self, key: String, value: T) -> (r: Option<T>)
        requires
            old(self).wf(),
        ensures
            final(self).wf(),
            final(self)@ == old(self)@.insert(key@, value),
            match r {
                Some(v) => old(self)@.contains_key(key@) && v == old(self)@[key@],
                None => !old(self)@.contains_key(key@),
            },
    {
        let ghost k = key@;
        let found = self.find(&key);
        let old_value = match found {
            Some(i) => {
                let (_, v) = self.entries.remove(i);
                Some(v)
            },
            None => None,
        };
        let ghost before = self.entries@;
        self.entries.push((key, value));
        self.model = Ghost(self.model@.insert(k, value));
        proof {
            let n = self.entries@.len() - 1;
            assert forall|i: int| 0 <= i < n implies self.entries@[i].0@ != k by {
                match found {
                    Some(p) => {
                        let p = p as int;
                        if i < p {
                            assert(old(self).entries@[i].0@ != old(self).entries@[p].0@);
                        } else {
                            assert(old(self).entries@[i + 1].0@ != old(self).entries@[p].0@);
                        }
                    },
                    None => {
                        assert(old(self).entries@[i] == self.entries@[i]);
                    },
                }
            }
            assert forall|kk: Seq<char>| #[trigger] self.model@.contains_key(kk) implies exists|i: int|
                0 <= i < self.entries@.len() && #[trigger] self.entries@[i].0@ == kk by {
                if kk == k {
                    assert(self.entries@[n].0@ == kk);
                } else {
                    let j = choose|j: int|
                        0 <= j < old(self).entries@.len() && old(self).entries@[j].0@ == kk;
                    match found {
                        Some(p) => {
                            let p = p as int;
                            if j < p {
                                assert(self.entries@[j].0@ == kk);
                            } else {
                                assert(j != p);
                                assert(self.entries@[j - 1].0@ == kk);
                            }
                        },
                        None => {
                            assert(self.entries@[j].0@ == kk);
                        },
                    }
                }
            }
            assert forall|i: int| 0 <= i < self.entries@.len() implies {
                &&& self.model@.contains_key(#[trigger] self.entries@[i].0@)
                &&& self.model@[self.entries@[i].0@] == self.entries@[i].1
            } by {
                if i < n {
                    match found {
                        Some(p) => {
                            let p = p as int;
                            if i < p {
                                assert(self.entries@[i] == old(self).entries@[i]);
                            } else {
                                assert(self.entries@[i] == old(self).entries@[i + 1]);
                            }
                        },
                        None => {
                            assert(self.entries@[i] == old(self).entries@[i]);
                        },
                    }
                }
            }
        }
        old_value
    }

    /// Takes the value registered under `key` out of the table.
    pub fn remove(&mut self, key: &str) -> (r: Option<T>)
        requires
            old(self).wf(),
        ensures
            final(self).wf(),
            final(self)@ == old(self)@.remove(key@),
            match r {
                Some(v) => old(self)@.contains_key(key@) && v == old(self)@[key@],
                None => !old(self)@.contains_key(key@),
            },
    {
        let k = key.to_owned();
        match self.find(&k) {
            Some(p) => {
                let (_, v) = self.entries.remove(p);
                self.model = Ghost(self.model@.remove(k@));
                proof {
                    let p = p as int;
                    assert forall|i: int| 0 <= i < self.entries@.len() implies {
                        &&& self.model@.contains_key(#[trigger] self.entries@[i].0@)
                        &&& self.model@[self.entries@[i].0@] == self.entries@[i].1
                    } by {
                        if i < p {
                            assert(self.entries@[i] == old(self).entries@[i]);
                            assert(old(self).entries@[i].0@ != old(self).entries@[p].0@);
                        } else {
                            assert(self.entries@[i] == old(self).entries@[i + 1]);
                            assert(old(self).entries@[i + 1].0@ != old(self).entries@[p].0@);
                        }
                    }
                    assert forall|kk: Seq<char>| #[trigger] self.model@.contains_key(kk) implies exists|i: int|
                        0 <= i < self.entries@.len() && #[trigger] self.entries@[i].0@ == kk by {
                        let j = choose|j: int|
                            0 <= j < old(self).entries@.len() && old(self).entries@[j].0@ == kk;
                        if j < p {
                            assert(self.entries@[j].0@ == kk);
                        } else {
                            assert(j != p);
                            assert(self.entries@[j - 1].0@ == kk);
                        }
                    }
                    assert forall|i: int, j: int|
                        0 <= i < self.entries@.len() && 0 <= j < self.entries@.len() && i != j
                        implies #[trigger] self.entries@[i].0@ != #[trigger] self.entries@[j].0@ by {
                        let oi = if i < p { i } else { i + 1 };
                        let oj = if j < p { j } else { j + 1 };
                        assert(old(self).entries@[oi].0@ != old(self).entries@[oj].0@);
                    }
                }
                Some(v)
            },
            None => {
                proof {
                    assert(self@.remove(key@) =~= self@);
                }
                None
            },
        }
    }

    /// The registered names, each once.
    pub fn keys(&self) -> (r: Vec<String>)
        requires
            self.wf(),
        ensures
            r@.len() == self@.len(),
            forall|i: int| 0 <= i < r@.len() ==> self@.contains_key(#[trigger] r@[i]@),
            forall|k: Seq<char>|
                #[trigger] self@.contains_key(k) ==> exists|i: int| 0 <= i < r@.len() && #[trigger] r@[i]@ == k,
            forall|i: int, j: int|
                0 <= i < r@.len() && 0 <= j < r@.len() && i != j ==> #[trigger] r@[i]@ != #[trigger] r@[j]@,
    {
        proof { self.lemma_len(); }
        let n = self.entries.len();
        let mut r: Vec<String> = Vec::new();
        let mut i: usize = 0;
        while i < n
            invariant
                self.wf(),
                n == self.entries@.len(),
                i <= n,
                r@.len() == i,
                forall|j: int| 0 <= j < i ==> #[trigger] r@[j]@ == self.entries@[j].0@,
            decreases n - i,
        {
            let name = self.entries[i].0.clone();
            r.push(name);
            i = i + 1;
        }
        proof {
            assert forall|k: Seq<char>| #[trigger] self@.contains_key(k) implies exists|i: int|
                0 <= i < r@.len() && #[trigger] r@[i]@ == k by {
                let j = choose|j: int| 0 <= j < self.entries@.len() && self.entries@[j].0@ == k;
                assert(r@[j]@ == k);
            }
            assert forall|a: int, b: int| 0 <= a < r@.len() && 0 <= b < r@.len() && a != b
                implies #[trigger] r@[a]@ != #[trigger] r@[b]@ by {
                assert(self.entries@[a].0@ != self.entries@[b].0@);
            }
            assert forall|a: int| 0 <= a < r@.len() implies self@.contains_key(#[trigger] r@[a]@) by {
                assert(self.model@.contains_key(self.entries@[a].0@));
            }
        }
        r
    }
}

} // verus!
