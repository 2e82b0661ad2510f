//! Small collections keyed by text: a table from names to values and a set of
//! names. Both keep their entries in a vector in which no name occurs twice.

use crate::text::str_eq;
use vstd::prelude::*;
use vstd::std_specs::cmp::PartialEqSpecImpl;
use vstd::string::*;

verus! {

/// One row of a [`Table`].
#[derive(Debug)]
struct Entry<T> {
    key: String,
    value: T,
}

/// A finite map from names to values of type `T`.
///
/// Its view is the `Map` from each name to its value.
#[derive(Debug)]
pub struct Table<T> {
    entries: Vec<Entry<T>>,
}

impl<T> View for Table<T> {
    type V = Map<Seq<char>, T>;

    closed spec fn view(&self) -> Map<Seq<char>, T> {
        Map::new(|k: Seq<char>| self.holds(k), |k: Seq<char>| self.entries[self.index_of(k)].value)
    }
}

impl<T> Table<T> {
    #[verifier::type_invariant]
    spec fn distinct(&self) -> bool {
        forall|i: int, j: int|
            0 <= i < j < self.entries.len() ==> self.entries[i].key@ != self.entries[j].key@
    }

    spec fn holds(&self, key: Seq<char>) -> bool {
        exists|i: int| 0 <= i < self.entries.len() && #[trigger] self.entries[i].key@ == key
    }

    spec fn index_of(&self, key: Seq<char>) -> int {
        choose|i: int| 0 <= i < self.entries.len() && #[trigger] self.entries[i].key@ == key
    }

    /// The number of entries.
    pub closed spec fn spec_len(&self) -> nat {
        self.entries.len() as nat
    }

    /// The table without entries.
    pub fn new() -> (r: Self)
        ensures
            r@ == Map::<Seq<char>, T>::empty(),
            r.spec_len() == 0,
    {
        let r = Table { entries: Vec::new() };
        assert(r@ =~= Map::<Seq<char>, T>::empty());
        r
    }

    fn position(&self, key: &str) -> (r: Option<usize>)
        ensures
            match r {
                Some(i) => i < self.entries.len() && self.entries[i as int].key@ == key@,
                None => !self.holds(key@),
            },
    {
        let mut i: usize = 0;
        while i < self.entries.len()
            invariant
                i <= self.entries.len(),
                forall|j: int| 0 <= j < i ==> self.entries[j].key@ != key@,
            decreases self.entries.len() - i,
        {
            if str_eq(self.entries[i].key.as_str(), key) {
                return Some(i);
            }
            i = i + 1;
        }
        None
    }

    /// Whether `key` has an entry.
    pub fn contains_key(&self, key: &str) -> (r: bool)
        ensures
            r == self@.contains_key(key@),
    {
        self.position(key).is_some()
    }

    /// The value stored under `key`, if there is one.
    pub fn get(&self, key: &str) -> (r: Option<&T>)
        ensures
            match r {
                Some(v) => self@.contains_key(key@) && *v == self@[key@],
                None => !self@.contains_key(key@),
            },
    {
        proof {
            use_type_invariant(self);
        }
        match self.position(key) {
            Some(i) => {
                assert(self.index_of(key@) == i);
                Some(&self.entries[i].value)
            },
            None => None,
        }
    }

    /// Stores `value` under `key`, replacing what was stored there before.
    pub fn insert(&mut self, key: String, value: T)
        ensures
            final(self)@ == old(self)@.insert(key@, value),
            final(self).spec_len() == if old(self)@.contains_key(key@) {
                old(self).spec_len()
            } else {
                old(self).spec_len() + 1
            },
    {
        proof {
            use_type_invariant(&*self);
        }
        let ghost before = self.entries@;
        let ghost name = key@;
        let found = self.position(key.as_str());
        let mut entries: Vec<Entry<T>> = Vec::new();
        core::mem::swap(&mut self.entries, &mut entries);
        match found {
            Some(i) => {
                entries.set(i, Entry { key, value });
                proof {
                    let after = entries@;
                    assert forall|a: int, b: int| 0 <= a < b < after.len() implies after[a].key@
                        != after[b].key@ by {
                        assert(after[a].key@ == before[a].key@);
                        assert(after[b].key@ == before[b].key@);
                    }
                }
            },
            None => {
                entries.push(Entry { key, value });
                proof {
                    let after = entries@;
                    assert forall|a: int, b: int| 0 <= a < b < after.len() implies after[a].key@
                        != after[b].key@ by {
                        if b < before.len() {
                            assert(after[a].key@ == before[a].key@);
                            assert(after[b].key@ == before[b].key@);
                        } else {
                            assert(before[a].key@ != name);
                        }
                    }
                }
            },
        }
        core::mem::swap(&mut self.entries, &mut entries);
        proof {
            let after = self.entries@;
            let target = old(self)@.insert(name, value);
            let at: int = match found {
                Some(i) => i as int,
                None => before.len() as int,
            };
            assert(after[at].key@ == name && after[at].value == value);
            assert forall|k: Seq<char>| #[trigger] self@.contains_key(k) implies target.contains_key(
                k,
            ) by {
                let j = self.index_of(k);
                if k != name {
                    assert(before[j].key@ == k);
                    assert(old(self).holds(k));
                }
            }
            assert forall|k: Seq<char>| #[trigger] target.contains_key(k) implies self@.contains_key(
                k,
            ) && self@[k] == target[k] by {
                if k == name {
                    assert(after[at].key@ == k);
                    assert(self.holds(k));
                    assert(self.index_of(k) == at);
                } else {
                    assert(old(self).holds(k));
                    let j = old(self).index_of(k);
                    assert(after[j].key@ == k);
                    assert(self.holds(k));
                    assert(self.index_of(k) == j);
                }
            }
            assert(self@ =~= target);
        }
    }

    /// The name of the entry at position `i`. Every name of the table stands
    /// at exactly one position below `len()`.
    pub fn key_at(&self, i: usize) -> (r: &str)
        requires
            i < self.spec_len(),
        ensures
            r@ == self.spec_key(i as int),
            self@.contains_key(r@),
    {
        assert(self.holds(self.entries[i as int].key@));
        self.entries[i].key.as_str()
    }

    /// The value of the entry at position `i`.
    pub fn value_at(&self, i: usize) -> (r: &T)
        requires
            i < self.spec_len(),
        ensures
            self@.contains_key(self.spec_key(i as int)),
            *r == self@[self.spec_key(i as int)],
    {
        proof {
            use_type_invariant(self);
        }
        assert(self.holds(self.entries[i as int].key@));
        assert(self.index_of(self.entries[i as int].key@) == i);
        &self.entries[i].value
    }

    /// The name at position `i`.
    pub closed spec fn spec_key(&self, i: int) -> Seq<char> {
        self.entries[i].key@
    }

    /// The number of entries. Every name of the table stands at a position
    /// below it, and no two positions hold the same name.
    pub fn len(&self) -> (n: usize)
        ensures
            n == self.spec_len(),
            forall|k: Seq<char>|
                self@.contains_key(k) <==> exists|i: int|
                    0 <= i < self.spec_len() && #[trigger] self.spec_key(i) == k,
            forall|i: int, j: int|
                0 <= i < j < self.spec_len() ==> self.spec_key(i) != self.spec_key(j),
    {
        proof {
            use_type_invariant(self);
            assert forall|k: Seq<char>| self@.contains_key(k) implies exists|i: int|
                0 <= i < self.spec_len() && #[trigger] self.spec_key(i) == k by {
                let i = self.index_of(k);
                assert(self.spec_key(i) == k);
            }
            assert forall|k: Seq<char>|
                (exists|i: int| 0 <= i < self.spec_len() && #[trigger] self.spec_key(i) == k)
                implies self@.contains_key(k) by {
                let i = choose|i: int| 0 <= i < self.spec_len() && #[trigger] self.spec_key(i) == k;
                assert(self.entries[i].key@ == k);
            }
        }
        self.entries.len()
    }
}

impl Table<String> {
    /// The table as a map from names to text.
    pub open spec fn text(&self) -> Map<Seq<char>, Seq<char>> {
        self@.map_values(|s: String| s@)
    }

    /// Stores the text `value` under `key`, replacing what was stored there
    /// before.
    pub fn set(&mut self, key: String, value: String)
        ensures
            final(self).text() == old(self).text().insert(key@, value@),
    {
        self.insert(key, value);
        assert(self.text() =~= old(self).text().insert(key@, value@));
    }

    /// A copy of the table.
    pub fn duplicate(&self) -> (r: Self)
        ensures
            r.text() == self.text(),
    {
        proof {
            use_type_invariant(self);
        }
        let mut out: Table<String> = Table::new();
        let mut i: usize = 0;
        while i < self.entries.len()
            invariant
                i <= self.entries.len(),
                self.distinct(),
                forall|k: Seq<char>|
                    out@.contains_key(k) <==> exists|j: int|
                        0 <= j < i && #[trigger] self.entries[j].key@ == k,
                forall|j: int|
                    0 <= j < i ==> out@[self.entries[j].key@]@ == (#[trigger] self.entries[j]).value@,
            decreases self.entries.len() - i,
        {
            let ghost prev = out@;
            out.insert(self.entries[i].key.clone(), self.entries[i].value.clone());
            proof {
                let name = self.entries[i as int].key@;
                assert forall|k: Seq<char>| out@.contains_key(k) implies exists|j: int|
                    0 <= j < i + 1 && #[trigger] self.entries[j].key@ == k by {
                    if k != name {
                        assert(prev.contains_key(k));
                        let j = choose|j: int| 0 <= j < i && #[trigger] self.entries[j].key@ == k;
                        assert(self.entries[j].key@ == k);
                    } else {
                        assert(self.entries[i as int].key@ == k);
                    }
                }
                assert forall|j: int| 0 <= j < i + 1 implies out@[self.entries[j].key@]@ == (
                #[trigger] self.entries[j]).value@ by {
                    if j < i {
                        assert(self.entries[j].key@ != name);
                    }
                }
            }
            i = i + 1;
        }
        proof {
            assert forall|k: Seq<char>| self@.contains_key(k) implies out@.contains_key(k) && out@[k]@
                == (#[trigger] self@[k])@ by {
                let j = self.index_of(k);
                assert(self.entries[j].key@ == k);
            }
            assert forall|k: Seq<char>| out@.contains_key(k) implies self@.contains_key(k) by {
                let j = choose|j: int|
                    0 <= j < self.entries.len() && #[trigger] self.entries[j].key@ == k;
                assert(self.holds(k));
            }
            assert(out@.dom() =~= self@.dom());
            assert(out.text() =~= self.text());
        }
        out
    }
}

/// A finite set of names.
///
/// Its view is the `Set` of the names it holds. Two sets are equal when they
/// hold the same names.
#[derive(Debug)]
pub struct NameSet {
    names: Table<()>,
}

impl View for NameSet {
    type V = Set<Seq<char>>;

    closed spec fn view(&self) -> Set<Seq<char>> {
        self.names@.dom()
    }
}

impl NameSet {
    /// The empty set: it holds no name, and its length is zero.
    pub fn new() -> (r: Self)
        ensures
            r@ == Set::<Seq<char>>::empty(),
            r.spec_len() == 0,
    {
        let r = NameSet { names: Table::new() };
        assert(r@ =~= Set::<Seq<char>>::empty());
        r
    }

    /// Adds `name`; a name that is already there stays once.
    pub fn insert(&mut self, name: String)
        ensures
            final(self)@ == old(self)@.insert(name@),
    {
        self.names.insert(name, ());
        assert(self@ =~= old(self)@.insert(name@));
    }

    /// Whether `name` is a member.
    pub fn contains(&self, name: &str) -> (r: bool)
        ensures
            r == self@.contains(name@),
    {
        self.names.contains_key(name)
    }

    /// The number of names.
    pub fn len(&self) -> (n: usize)
        ensures
            n == self.spec_len(),
    {
        self.names.len()
    }

    /// The number of names.
    pub closed spec fn spec_len(&self) -> nat {
        self.names.spec_len()
    }

    /// The name at position `i < len()`.
    pub fn name_at(&self, i: usize) -> (r: &str)
        requires
            i < self.spec_len(),
        ensures
            self@.contains(r@),
    {
        self.names.key_at(i)
    }
}

impl NameSet {
    /// Whether every name of this set is a name of `other`.
    pub fn is_subset_of(&self, other: &NameSet) -> (r: bool)
        ensures
            r == self@.subset_of(other@),
    {
        let n = self.names.len();
        let mut i: usize = 0;
        while i < n
            invariant
                i <= n,
                n == self.names.spec_len(),
                forall|j: int| 0 <= j < i ==> other@.contains(#[trigger] self.names.spec_key(j)),
            decreases n - i,
        {
            if !other.contains(self.names.key_at(i)) {
                return false;
            }
            i = i + 1;
        }
        true
    }
}

impl PartialEq for NameSet {
    fn eq(&self, other: &NameSet) -> (r: bool) {
        let r = self.is_subset_of(other) && other.is_subset_of(self);
        assert(r == (self@ =~= other@));
        r
    }
}

impl PartialEqSpecImpl for NameSet {
    open spec fn obeys_eq_spec() -> bool {
        true
    }

    open spec fn eq_spec(&self, other: &NameSet) -> bool {
        self@ == other@
    }
}

impl Eq for NameSet {

}

} // verus!
