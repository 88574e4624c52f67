//! A map from names to values that keeps the order in which names first came.

use vstd::prelude::*;
use crate::text::str_eq;

verus! {

/// The value stored under `key` in a sequence of named entries; later entries
/// win over earlier ones of the same name.
pub open spec fn find<T>(entries: Seq<(Seq<char>, T)>, key: Seq<char>) -> Option<T>
    decreases entries.len(),
{
    if entries.len() == 0 {
        None
    } else if entries.last().0 == key {
        Some(entries.last().1)
    } else {
        find(entries.drop_last(), key)
    }
}

/// No name occurs twice.
pub open spec fn names_unique<T>(entries: Seq<(Seq<char>, T)>) -> bool {
    forall|i: int, j: int|
        0 <= i < j < entries.len() ==> #[trigger] entries[i].0 != #[trigger] entries[j].0
}

/// The index of the entry named `key`, where there is one.
pub open spec fn index_of<T>(entries: Seq<(Seq<char>, T)>, key: Seq<char>) -> int {
    choose|i: int| 0 <= i < entries.len() && entries[i].0 == key
}

/// The entries of `entries` with their names viewed.
pub open spec fn named<T>(entries: Seq<(String, T)>) -> Seq<(Seq<char>, T)> {
    entries.map_values(|e: (String, T)| (e.0@, e.1))
}

/// In a sequence whose names are unique, `find` gives the entry of that name.
pub proof fn lemma_find_unique<T>(entries: Seq<(Seq<char>, T)>, i: int)
    requires
        names_unique(entries),
        0 <= i < entries.len(),
    ensures
        find(entries, entries[i].0) == Some(entries[i].1),
    decreases entries.len(),
{
    if i != entries.len() - 1 {
        assert(entries.last().0 != entries[i].0);
        let d = entries.drop_last();
        assert(d[i] == entries[i]);
        assert forall|a: int, b: int| 0 <= a < b < d.len() implies #[trigger] d[a].0 != #[trigger] d[b].0 by {
            assert(d[a] == entries[a] && d[b] == entries[b]);
        }
        lemma_find_unique(d, i);
    }
}

/// `find` gives nothing for a name that no entry has.
pub proof fn lemma_find_absent<T>(entries: Seq<(Seq<char>, T)>, key: Seq<char>)
    requires
        forall|i: int| 0 <= i < entries.len() ==> #[trigger] entries[i].0 != key,
    ensures
        find(entries, key) is None,
    decreases entries.len(),
{
    if entries.len() > 0 {
        let d = entries.drop_last();
        assert forall|i: int| 0 <= i < d.len() implies #[trigger] d[i].0 != key by {
            assert(d[i] == entries[i]);
        }
        lemma_find_absent(d, key);
    }
}

/// Where a sequence with unique names changes into another one only in that
/// the entry named `key` now holds `value` (whether or not it was there),
/// `find` changes only at `key`.
proof fn lemma_find_after_change<T>(old_s: Seq<(Seq<char>, T)>, new_s: Seq<(Seq<char>, T)>, key: Seq<char>, value: T)
    requires
        names_unique(old_s),
        names_unique(new_s),
        exists|j: int| 0 <= j < new_s.len() && new_s[j] == (key, value),
        forall|i: int| 0 <= i < old_s.len() && old_s[i].0 != key ==> i < new_s.len() && new_s[i] == old_s[i],
        forall|i: int| 0 <= i < new_s.len() && new_s[i].0 != key ==> i < old_s.len() && new_s[i] == old_s[i],
    ensures
        forall|k: Seq<char>| #[trigger] find(new_s, k) == if k == key { Some(value) } else { find(old_s, k) },
{
    assert forall|k: Seq<char>| #[trigger] find(new_s, k) == if k == key { Some(value) } else { find(old_s, k) } by {
        if k == key {
            let j = choose|j: int| 0 <= j < new_s.len() && new_s[j] == (key, value);
            lemma_find_unique(new_s, j);
        } else if exists|i: int| 0 <= i < old_s.len() && old_s[i].0 == k {
            let i = choose|i: int| 0 <= i < old_s.len() && old_s[i].0 == k;
            lemma_find_unique(old_s, i);
            lemma_find_unique(new_s, i);
        } else {
            lemma_find_absent(old_s, k);
            assert forall|i: int| 0 <= i < new_s.len() implies #[trigger] new_s[i].0 != k by {
                if new_s[i].0 == k {
                    assert(new_s[i] == old_s[i]);
                }
            }
            lemma_find_absent(new_s, k);
        }
    }
}

/// A map from names to values. Each name occurs once; the entries keep the
/// order in which their names were first inserted.
#[derive(Debug)]
pub struct NameMap<T> {
    entries: Vec<(String, T)>,
}

impl<T> View for NameMap<T> {
    type V = Seq<(Seq<char>, T)>;

    closed spec fn view(&self) -> Seq<(Seq<char>, T)> {
        named(self.entries@)
    }
}

impl<T> NameMap<T> {
    #[verifier::type_invariant]
    closed spec fn inv(self) -> bool {
        names_unique(named(self.entries@))
    }

    /// The value stored under `key`.
    pub open spec fn lookup(&self, key: Seq<char>) -> Option<T> {
        find(self@, key)
    }

    /// Whether some entry is named `key`.
    pub open spec fn has(&self, key: Seq<char>) -> bool {
        exists|i: int| 0 <= i < self@.len() && self@[i].0 == key
    }

    /// An empty map.
    pub fn new() -> (res: Self)
        ensures
            res@ == Seq::<(Seq<char>, T)>::empty(),
    {
        let res = NameMap { entries: Vec::new() };
        assert(res@ =~= Seq::<(Seq<char>, T)>::empty());
        res
    }

    /// The number of entries.
    pub fn len(&self) -> (res: usize)
        ensures
            res == self@.len(),
            names_unique(self@),
    {
        proof { use_type_invariant(self); }
        self.entries.len()
    }

    /// The name and value of the `i`-th entry.
    pub fn entry(&self, i: usize) -> (res: (&String, &T))
        requires
            i < self@.len(),
        ensures
            res.0@ == self@[i as int].0,
            *res.1 == self@[i as int].1,
            self.lookup(self@[i as int].0) == Some(self@[i as int].1),
    {
        proof {
            use_type_invariant(self);
            lemma_find_unique(self@, i as int);
        }
        let e = &self.entries[i];
        (&e.0, &e.1)
    }

    /// The index of the entry named `key`, if any.
    fn position(&self, key: &str) -> (res: Option<usize>)
        ensures
            match res {
                Some(i) => i < self@.len() && self@[i as int].0 == key@,
                None => forall|j: int| 0 <= j < self@.len() ==> #[trigger] self@[j].0 != key@,
            },
    {
        let n = self.entries.len();
        let mut i: usize = 0;
        while i < n
            invariant
                n == self@.len(),
                n == self.entries@.len(),
                i <= n,
                forall|j: int| 0 <= j < i ==> #[trigger] self@[j].0 != key@,
            decreases n - i,
        {
            let e = &self.entries[i];
            assert(self@[i as int].0 == e.0@);
            if str_eq(e.0.as_str(), key) {
                return Some(i);
            }
            i = i + 1;
        }
        None
    }

    /// The value stored under `key`, if any.
    pub fn get(&self, key: &str) -> (res: Option<&T>)
        ensures
            match res {
                Some(v) => self.lookup(key@) == Some(*v),
                None => self.lookup(key@) is None,
            },
            res is Some <==> self.has(key@),
    {
        proof { use_type_invariant(self); }
        match self.position(key) {
            Some(i) => {
                proof { lemma_find_unique(self@, i as int); }
                let e = &self.entries[i];
                Some(&e.1)
            },
            None => {
                proof { lemma_find_absent(self@, key@); }
                None
            },
        }
    }

    /// Stores `value` under `key`, in place of any value stored there before.
    pub fn insert(&mut self, key: String, value: T)
        ensures
            old(self).has(key@) ==> final(self)@ == old(self)@.update(index_of(old(self)@, key@), (key@, value)),
            !old(self).has(key@) ==> final(self)@ == old(self)@.push((key@, value)),
            forall|k: Seq<char>| #[trigger] final(self).lookup(k) == if k == key@ { Some(value) } else { old(self).lookup(k) },
    {
        proof { use_type_invariant(&*self); }
        let ghost k = key@;
        match self.position(key.as_str()) {
            Some(i) => {
                let ghost old_named = self@;
                assert(old(self).has(k));
                proof {
                    let j = index_of(old_named, k);
                    assert(0 <= j < old_named.len() && old_named[j].0 == k);
                    if j != i {
                        if j < i { assert(old_named[j].0 != old_named[i as int].0); }
                        else { assert(old_named[i as int].0 != old_named[j].0); }
                    }
                }
                let mut entries: Vec<(String, T)> = Vec::new();
                std::mem::swap(&mut entries, &mut self.entries);
                entries.set(i, (key, value));
                assert(named(entries@) =~= old_named.update(i as int, (k, value)));
                self.entries = entries;
                proof {
                    let new_named = self@;
                    assert forall|a: int, b: int| 0 <= a < b < new_named.len()
                        implies #[trigger] new_named[a].0 != #[trigger] new_named[b].0 by {
                        assert(new_named[a].0 == old_named[a].0 && new_named[b].0 == old_named[b].0);
                    }
                    assert(new_named[i as int] == (k, value));
                    lemma_find_after_change(old_named, new_named, k, value);
                }
            },
            None => {
                let ghost old_named = self@;
                assert(!old(self).has(k));
                let mut entries: Vec<(String, T)> = Vec::new();
                std::mem::swap(&mut entries, &mut self.entries);
                entries.push((key, value));
                assert(named(entries@) =~= old_named.push((k, value)));
                assert forall|a: int, b: int| 0 <= a < b < named(entries@).len()
                    implies #[trigger] named(entries@)[a].0 != #[trigger] named(entries@)[b].0 by {
                    if b == old_named.len() {
                        assert(named(entries@)[a] == old_named[a]);
                    } else {
                        assert(named(entries@)[a] == old_named[a]);
                        assert(named(entries@)[b] == old_named[b]);
                    }
                }
                self.entries = entries;
                proof {
                    assert(self@[old_named.len() as int] == (k, value));
                    lemma_find_after_change(old_named, self@, k, value);
                }
            },
        }
    }

    /// Moves every entry of `other` into the map, in place of any value
    /// stored under the same name.
    pub fn extend(&mut self, other: NameMap<T>)
        ensures
            forall|k: Seq<char>| #[trigger] final(self).lookup(k)
                == if other.has(k) { other.lookup(k) } else { old(self).lookup(k) },
    {
        proof { use_type_invariant(&other); }
        let ghost others = other@;
        let mut rest = other.entries;
        let ghost rest0 = named(rest@);
        assert(rest0 == others);
        while rest.len() > 0
            invariant
                names_unique(others),
                named(rest@) == others.take(rest@.len() as int),
                rest@.len() <= others.len(),
                forall|k: Seq<char>| #[trigger] self.lookup(k) == if (exists|j: int| rest@.len() <= j < others.len() && others[j].0 == k) {
                    find(others, k)
                } else {
                    old(self).lookup(k)
                },
            decreases rest@.len(),
        {
            let ghost len0 = rest@.len();
            let (key, value) = rest.pop().unwrap();
            let ghost j0 = len0 - 1;
            assert(named(rest@) =~= others.take(j0 as int));
            assert(others[j0 as int] == (key@, value)) by {
                assert(others.take(len0 as int)[j0 as int] == others[j0 as int]);
            }
            proof { lemma_find_unique(others, j0 as int); }
            self.insert(key, value);
            assert forall|k: Seq<char>| #[trigger] self.lookup(k) == if (exists|j: int| rest@.len() <= j < others.len() && others[j].0 == k) {
                find(others, k)
            } else {
                old(self).lookup(k)
            } by {
                if k == others[j0 as int].0 {
                    assert(rest@.len() <= j0 < others.len() && others[j0 as int].0 == k);
                } else if exists|j: int| rest@.len() <= j < others.len() && others[j].0 == k {
                    let j = choose|j: int| rest@.len() <= j < others.len() && others[j].0 == k;
                    assert(len0 <= j < others.len() && others[j].0 == k);
                }
            }
        }
        assert forall|k: Seq<char>| #[trigger] self.lookup(k) == if other.has(k) { other.lookup(k) } else { old(self).lookup(k) } by {
            if other.has(k) {
                let j = choose|j: int| 0 <= j < others.len() && others[j].0 == k;
                assert(0 <= j < others.len() && others[j].0 == k);
            }
        }
    }
}

} // verus!
