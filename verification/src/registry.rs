//! The table of registered binding profiles, keyed by binding name.

use vstd::prelude::*;

verus! {

/// Profiles registered under distinct binding names. Registering under a
/// name that is already present replaces that profile.
pub struct ProfileRegistry<E> {
    entries: Vec<(String, E)>,
}

impl<E> ProfileRegistry<E> {
    /// The binding names, in registration order of first appearance.
    pub closed spec fn names(self) -> Seq<Seq<char>> {
        self.entries@.map_values(|p: (String, E)| p.0@)
    }

    #[verifier::type_invariant]
    closed spec fn names_are_distinct(self) -> bool {
        self.names().no_duplicates()
    }

    /// An empty table.
    pub fn new() -> (r: Self)
        ensures
            r@ == Map::<Seq<char>, E>::empty(),
    {
        let r = ProfileRegistry { entries: Vec::new() };
        assert(r@ =~= Map::<Seq<char>, E>::empty());
        r
    }

    /// Where `name` is stored, if it is.
    fn position(&self, name: &String) -> (r: Option<usize>)
        ensures
            r matches Some(i) ==> i < self.entries@.len() && self.entries@[i as int].0@ == name@,
            r is None ==> !self.names().contains(name@),
    {
        let n = self.entries.len();
        let mut i: usize = 0;
        while i < n
            invariant
                n == self.entries@.len(),
                i <= n,
                forall|j: int| 0 <= j < i ==> self.entries@[j].0@ != name@,
            decreases n - i,
        {
            if self.entries[i].0 == *name {
                return Some(i);
            }
            i = i + 1;
        }
        assert forall|j: int| 0 <= j < self.names().len() implies self.names()[j] != name@ by {
            assert(self.names()[j] == self.entries@[j].0@);
        }
        None
    }

    proof fn lemma_lookup(self, i: int)
        requires
            self.names().no_duplicates(),
            0 <= i < self.entries@.len(),
        ensures
            self@.contains_key(self.entries@[i].0@),
            self@[self.entries@[i].0@] == self.entries@[i].1,
    {
        let k = self.entries@[i].0@;
        assert(self.names()[i] == k);
        assert(self.names().contains(k));
        let j = self.names().index_of(k);
        assert(self.names()[j] == k);
    }

    /// Only finitely many names are ever registered.
    pub proof fn lemma_finite(&self)
        ensures
            self@.dom().finite(),
    {
        assert(self@.dom() =~= self.names().to_set());
        vstd::seq_lib::seq_to_set_is_finite(self.names());
    }

    /// The number of registered profiles.
    pub fn len(&self) -> (r: usize)
        ensures
            r == self@.len(),
    {
        proof {
            use_type_invariant(self);
            self.names().unique_seq_to_set();
            assert(self@.dom() =~= self.names().to_set());
        }
        self.entries.len()
    }

    /// The profile registered under `name`, if any.
    pub fn get(&self, name: &str) -> (r: Option<&E>)
        ensures
            r matches Some(e) ==> self@.contains_key(name@) && *e == self@[name@],
            r is None ==> !self@.contains_key(name@),
    {
        proof {
            use_type_invariant(self);
        }
        let key = String::from_str(name);
        match self.position(&key) {
            Some(i) => {
                proof {
                    self.lemma_lookup(i as int);
                }
                Some(&self.entries[i].1)
            },
            None => None,
        }
    }

    /// Registers `profile` under `name`, replacing any profile already there.
    pub fn insert(&mut self, name: String, profile: E)
        ensures
            final(self)@ == old(self)@.insert(name@, profile),
    {
        proof {
            use_type_invariant(&*self);
        }
        let ghost pre = *self;
        let ghost k = name@;
        let found = self.position(&name);
        let mut entries: Vec<(String, E)> = Vec::new();
        std::mem::swap(&mut entries, &mut self.entries);
        match found {
            Some(i) => {
                entries.set(i, (name, profile));
                proof {
                    assert(entries@.map_values(|p: (String, E)| p.0@) =~= pre.names());
                }
                self.entries = entries;
                proof {
                    use_type_invariant(&*self);
                    assert(self.names() =~= pre.names());
                    assert(self.names()[i as int] == k);
                    assert(self.names().contains(k));
                    assert forall|key: Seq<char>|
                        #[trigger] self@.contains_key(key) == pre@.insert(k, profile).contains_key(key)
                        by {
                    }
                    assert forall|key: Seq<char>| #[trigger] self@.contains_key(key)
                        implies self@[key] == pre@.insert(k, profile)[key] by {
                        let j = self.names().index_of(key);
                        assert(0 <= j < self.names().len() && self.names()[j] == key);
                        if j != i as int {
                            assert(key != k);
                            assert(self.entries@[j] == pre.entries@[j]);
                            assert(pre.names().index_of(key) == j);
                        } else {
                            assert(key == k);
                            assert(self.entries@[j] == (name, profile));
                        }
                    }
                    assert(self@ =~= pre@.insert(k, profile));
                }
            },
            None => {
                entries.push((name, profile));
                proof {
                    assert(entries@.map_values(|p: (String, E)| p.0@) =~= pre.names().push(k));
                }
                self.entries = entries;
                proof {
                    use_type_invariant(&*self);
                    let n = pre.entries@.len() as int;
                    assert(self.names() =~= pre.names().push(k));
                    assert(self.names()[n] == k);
                    assert forall|key: Seq<char>|
                        #[trigger] self@.contains_key(key) == pre@.insert(k, profile).contains_key(key)
                        by {
                        if pre.names().contains(key) {
                            let j = pre.names().index_of(key);
                            assert(self.names()[j] == key);
                        }
                    }
                    assert forall|key: Seq<char>| #[trigger] self@.contains_key(key)
                        implies self@[key] == pre@.insert(k, profile)[key] by {
                        let j = self.names().index_of(key);
                        assert(0 <= j < self.names().len() && self.names()[j] == key);
                        if j != n {
                            assert(key != k);
                            assert(self.entries@[j] == pre.entries@[j]);
                            assert(pre.names()[j] == key);
                            assert(pre.names().index_of(key) == j);
                        } else {
                            assert(key == k);
                        }
                    }
                    assert(self@ =~= pre@.insert(k, profile));
                }
            },
        }
    }
}

impl<E> View for ProfileRegistry<E> {
    type V = Map<Seq<char>, E>;

    closed spec fn view(&self) -> Map<Seq<char>, E> {
        Map::new(
            |k: Seq<char>| self.names().contains(k),
            |k: Seq<char>| self.entries@[self.names().index_of(k)].1,
        )
    }
}

} // verus!
