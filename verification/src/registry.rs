//! A table of values found by name, in which no name occurs twice.

use vstd::prelude::*;

verus! {

/// The names of a list of entries, in order.
pub open spec fn names_of<V>(s: Seq<(String, V)>) -> Seq<Seq<char>> {
    s.map_values(|e: (String, V)| e.0@)
}

/// The map from name to value that a list of entries with distinct names
/// stands for.
pub open spec fn map_of<V>(s: Seq<(String, V)>) -> Map<Seq<char>, V> {
    Map::new(
        |k: Seq<char>| names_of(s).contains(k),
        |k: Seq<char>| s[names_of(s).index_of(k)].1,
    )
}

/// The value stored under the name of entry `i` is the value of entry `i`.
pub proof fn lemma_map_of_index<V>(s: Seq<(String, V)>, i: int)
    requires
        names_of(s).no_duplicates(),
        0 <= i < s.len(),
    ensures
        map_of(s).dom().contains(s[i].0@),
        map_of(s)[s[i].0@] == s[i].1,
{
    let names = names_of(s);
    assert(names[i] == s[i].0@);
    assert(names.contains(s[i].0@));
    let j = names.index_of(s[i].0@);
    assert(names[j] == names[i]);
}

/// A list of entries with distinct names has as many names as entries.
pub proof fn lemma_map_of_len<V>(s: Seq<(String, V)>)
    requires
        names_of(s).no_duplicates(),
    ensures
        map_of(s).dom().finite(),
        map_of(s).len() == s.len(),
{
    let names = names_of(s);
    names.unique_seq_to_set();
    assert(map_of(s).dom() =~= names.to_set());
    vstd::seq_lib::seq_to_set_is_finite(names);
}

/// Adding an entry with a new name adds that name to the map.
pub proof fn lemma_map_of_push<V>(s: Seq<(String, V)>, e: (String, V))
    requires
        names_of(s).no_duplicates(),
        !map_of(s).dom().contains(e.0@),
    ensures
        names_of(s.push(e)).no_duplicates(),
        map_of(s.push(e)) == map_of(s).insert(e.0@, e.1),
{
    let t = s.push(e);
    assert(names_of(t) =~= names_of(s).push(e.0@));
    assert forall|k: Seq<char>| #[trigger] map_of(t).dom().contains(k) <==> map_of(s).insert(e.0@, e.1).dom().contains(k) by {
        if names_of(s).contains(k) {
            let i = names_of(s).index_of(k);
            assert(names_of(t)[i] == k);
        }
        if k == e.0@ {
            assert(names_of(t)[s.len() as int] == k);
        }
        if names_of(t).contains(k) && k != e.0@ {
            let i = names_of(t).index_of(k);
            assert(i < s.len());
            assert(names_of(s)[i] == k);
        }
    }
    assert forall|k: Seq<char>| #[trigger] map_of(t).dom().contains(k) implies map_of(t)[k] == map_of(s).insert(e.0@, e.1)[k] by {
        if k == e.0@ {
            lemma_map_of_index(t, s.len() as int);
        } else {
            let i = names_of(s).index_of(k);
            lemma_map_of_index(s, i);
            lemma_map_of_index(t, i);
        }
    }
    assert(map_of(t) =~= map_of(s).insert(e.0@, e.1));
}

/// Removing entry `i` removes its name from the map.
pub proof fn lemma_map_of_remove<V>(s: Seq<(String, V)>, i: int)
    requires
        names_of(s).no_duplicates(),
        0 <= i < s.len(),
    ensures
        names_of(s.remove(i)).no_duplicates(),
        map_of(s.remove(i)) == map_of(s).remove(s[i].0@),
{
    let t = s.remove(i);
    let k0 = s[i].0@;
    assert(names_of(t) =~= names_of(s).remove(i));
    assert forall|a: int, b: int| 0 <= a < names_of(t).len() && 0 <= b < names_of(t).len() && a != b implies names_of(t)[a] != names_of(t)[b] by {
        let a2 = if a < i { a } else { a + 1 };
        let b2 = if b < i { b } else { b + 1 };
        assert(names_of(t)[a] == names_of(s)[a2]);
        assert(names_of(t)[b] == names_of(s)[b2]);
    }
    assert forall|k: Seq<char>| #[trigger] map_of(t).dom().contains(k) <==> map_of(s).remove(k0).dom().contains(k) by {
        if names_of(t).contains(k) {
            let a = names_of(t).index_of(k);
            let a2 = if a < i { a } else { a + 1 };
            assert(names_of(s)[a2] == k);
            assert(a2 != i);
            assert(names_of(s)[i] == k0);
        }
        if names_of(s).contains(k) && k != k0 {
            let a = names_of(s).index_of(k);
            assert(a != i);
            let a2 = if a < i { a } else { a - 1 };
            assert(names_of(t)[a2] == k);
        }
    }
    assert forall|k: Seq<char>| #[trigger] map_of(t).dom().contains(k) implies map_of(t)[k] == map_of(s).remove(k0)[k] by {
        let a = names_of(t).index_of(k);
        let a2 = if a < i { a } else { a + 1 };
        assert(t[a] == s[a2]);
        lemma_map_of_index(t, a);
        lemma_map_of_index(s, a2);
    }
    assert(map_of(t) =~= map_of(s).remove(k0));
}

/// Values found by name. Like a hash map keyed by `String`, kept as a list
/// of entries whose names are distinct.
pub struct Registry<V> {
    entries: Vec<(String, V)>,
}

impl<V> View for Registry<V> {
    type V = Map<Seq<char>, V>;

    closed spec fn view(&self) -> Map<Seq<char>, V> {
        map_of(self.entries@)
    }
}

impl<V> Registry<V> {
    #[verifier::type_invariant]
    closed spec fn distinct_names(self) -> bool {
        names_of(self.entries@).no_duplicates()
    }

    /// An empty table.
    pub fn new() -> (r: Self)
        ensures
            r@ == Map::<Seq<char>, V>::empty(),
    {
        let r = Registry { entries: Vec::new() };
        assert(r@ =~= Map::<Seq<char>, V>::empty());
        r
    }

    /// The position of the entry named `name`, if there is one.
    fn find(&self, name: &String) -> (r: Option<usize>)
        ensures
            match r {
                Some(i) => i < self.entries@.len() && self.entries@[i as int].0@ == name@,
                None => !self@.dom().contains(name@),
            },
    {
        let mut i: usize = 0;
        while i < self.entries.len()
            invariant
                i <= self.entries@.len(),
                forall|j: int| 0 <= j < i ==> self.entries@[j].0@ != name@,
            decreases self.entries@.len() - i,
        {
            if self.entries[i].0 == *name {
                return Some(i);
            }
            i = i + 1;
        }
        proof {
            if names_of(self.entries@).contains(name@) {
                let j = names_of(self.entries@).index_of(name@);
                assert(names_of(self.entries@)[j] == self.entries@[j].0@);
            }
        }
        None
    }

    /// The number of names in the table.
    pub fn len(&self) -> (r: usize)
        ensures
            r == self@.len(),
            self@.dom().finite(),
    {
        proof {
            use_type_invariant(self);
            lemma_map_of_len(self.entries@);
        }
        self.entries.len()
    }

    /// Whether `name` is in the table.
    pub fn contains_key(&self, name: &String) -> (r: bool)
        ensures
            r == self@.dom().contains(name@),
    {
        proof {
            use_type_invariant(self);
        }
        match self.find(name) {
            Some(i) => {
                proof {
                    lemma_map_of_index(self.entries@, i as int);
                }
                true
            },
            None => false,
        }
    }

    /// The value stored under `name`, if any.
    pub fn get(&self, name: &String) -> (r: Option<&V>)
        ensures
            r is Some == self@.dom().contains(name@),
            r is Some ==> *r->0 == self@[name@],
    {
        proof {
            use_type_invariant(self);
        }
        match self.find(name) {
            Some(i) => {
                proof {
                    lemma_map_of_index(self.entries@, i as int);
                }
                Some(&self.entries[i].1)
            },
            None => None,
        }
    }

    /// Stores `value` under `name`, and hands back what was stored there.
    pub fn insert(&mut self, name: String, value: V) -> (r: Option<V>)
        ensures
            final(self)@ == old(self)@.insert(name@, value),
            r is Some == old(self)@.dom().contains(name@),
            r is Some ==> r->0 == old(self)@[name@],
    {
        proof {
            use_type_invariant(&*self);
        }
        let old_value = self.remove(&name);
        proof {
            use_type_invariant(&*self);
            lemma_map_of_push(self.entries@, (name, value));
        }
        let mut entries: Vec<(String, V)> = Vec::new();
        std::mem::swap(&mut entries, &mut self.entries);
        entries.push((name, value));
        self.entries = entries;
        proof {
            assert(self@ =~= old(self)@.insert(name@, value));
        }
        old_value
    }

    /// Removes `name` from the table, and hands back what was stored there.
    pub fn remove(&mut self, name: &String) -> (r: Option<V>)
        ensures
            final(self)@ == old(self)@.remove(name@),
            r is Some == old(self)@.dom().contains(name@),
            r is Some ==> r->0 == old(self)@[name@],
    {
        proof {
            use_type_invariant(&*self);
        }
        match self.find(name) {
            Some(i) => {
                proof {
                    lemma_map_of_index(self.entries@, i as int);
                    lemma_map_of_remove(self.entries@, i as int);
                }
                let mut entries: Vec<(String, V)> = Vec::new();
                std::mem::swap(&mut entries, &mut self.entries);
                let entry = entries.remove(i);
                self.entries = entries;
                Some(entry.1)
            },
            None => {
                proof {
                    assert(old(self)@.remove(name@) =~= old(self)@);
                }
                None
            },
        }
    }

    /// The names in the table, each once.
    pub fn names(&self) -> (r: Vec<String>)
        ensures
            r@.len() == self@.len(),
            forall|i: int| 0 <= i < r@.len() ==> self@.dom().contains(#[trigger] r@[i]@),
            forall|k: Seq<char>| self@.dom().contains(k) ==> exists|i: int| 0 <= i < r@.len() && #[trigger] r@[i]@ == k,
            forall|i: int, j: int| 0 <= i < r@.len() && 0 <= j < r@.len() && i != j ==> r@[i]@ != r@[j]@,
    {
        proof {
            use_type_invariant(self);
            lemma_map_of_len(self.entries@);
        }
        let mut r: Vec<String> = Vec::new();
        let mut i: usize = 0;
        while i < self.entries.len()
            invariant
                i <= self.entries@.len(),
                r@.len() == i,
                names_of(self.entries@).no_duplicates(),
                forall|j: int| 0 <= j < i ==> #[trigger] r@[j]@ == self.entries@[j].0@,
            decreases self.entries@.len() - i,
        {
            r.push(self.entries[i].0.clone());
            i = i + 1;
        }
        proof {
            let names = names_of(self.entries@);
            assert forall|j: int| 0 <= j < r@.len() implies self@.dom().contains(#[trigger] r@[j]@) by {
                assert(names[j] == r@[j]@);
            }
            assert forall|k: Seq<char>| self@.dom().contains(k) implies exists|j: int| 0 <= j < r@.len() && #[trigger] r@[j]@ == k by {
                let j = names.index_of(k);
                assert(r@[j]@ == k);
            }
            assert forall|a: int, b: int| 0 <= a < r@.len() && 0 <= b < r@.len() && a != b implies r@[a]@ != r@[b]@ by {
                assert(names[a] == r@[a]@);
                assert(names[b] == r@[b]@);
            }
        }
        r
    }
}

} // verus!
