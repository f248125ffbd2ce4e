use vstd::prelude::*;

use crate::text::{owned, str_eq};

verus! {

/// Items registered under names, each name at most once, in the order in
/// which the names were first registered.
pub struct Registry<T> {
    entries: Vec<(String, T)>,
}

/// The names of a sequence of entries.
pub open spec fn entry_names<T>(es: Seq<(String, T)>) -> Seq<Seq<char>> {
    es.map_values(|e: (String, T)| e.0@)
}

/// In a sequence without duplicates, `index_of` finds the one position of
/// an element.
pub proof fn lemma_index_of_unique<A>(s: Seq<A>, x: A, i: int)
    requires
        s.no_duplicates(),
        0 <= i < s.len(),
        s[i] == x,
    ensures
        s.contains(x),
        s.index_of(x) == i,
{
    assert(s.contains(x));
    let j = s.index_of(x);
    assert(0 <= j < s.len() && s[j] == x);
}

/// The item of the last entry named `name`, if any.
pub open spec fn last_named<T>(es: Seq<(String, T)>, name: Seq<char>) -> Option<T>
    decreases es.len(),
{
    if es.len() == 0 {
        None
    } else if es.last().0@ == name {
        Some(es.last().1)
    } else {
        last_named(es.drop_last(), name)
    }
}

/// Adding an entry makes it the last one of its name.
pub proof fn lemma_last_named_push<T>(es: Seq<(String, T)>, x: (String, T), name: Seq<char>)
    ensures
        last_named(es.push(x), name) == (if x.0@ == name { Some(x.1) } else { last_named(es, name) }),
{
    assert(es.push(x).drop_last() =~= es);
}

impl<T> Registry<T> {
    #[verifier::type_invariant]
    closed spec fn unique_names(&self) -> bool {
        entry_names(self.entries@).no_duplicates()
    }

    /// The registered names, in order.
    pub closed spec fn names(&self) -> Seq<Seq<char>> {
        entry_names(self.entries@)
    }

    /// The registered items, in the order of their names.
    pub closed spec fn items(&self) -> Seq<T> {
        self.entries@.map_values(|e: (String, T)| e.1)
    }

    /// The item registered under `name`, if any.
    pub open spec fn lookup(&self, name: Seq<char>) -> Option<T> {
        if self.names().contains(name) {
            Some(self.items()[self.names().index_of(name)])
        } else {
            None
        }
    }

    pub fn new() -> (r: Registry<T>)
        ensures
            r.names().len() == 0,
            r.items().len() == 0,
    {
        let r = Registry { entries: Vec::new() };
        assert(entry_names(r.entries@) =~= Seq::<Seq<char>>::empty());
        r
    }

    /// How many items are registered.
    pub fn len(&self) -> (n: usize)
        ensures
            n == self.names().len(),
            n == self.items().len(),
    {
        self.entries.len()
    }

    proof fn lemma_shape(&self)
        requires
            self.unique_names(),
        ensures
            self.names().len() == self.entries@.len(),
            self.items().len() == self.entries@.len(),
            self.names().no_duplicates(),
            forall|i: int| 0 <= i < self.entries@.len() ==> #[trigger] self.names()[i] == self.entries@[i].0@ && self.items()[i] == self.entries@[i].1,
    {
    }

    /// The position of `name`, if registered.
    pub fn position(&self, name: &str) -> (r: Option<usize>)
        ensures
            match r {
                Some(i) => i < self.names().len() && self.names()[i as int] == name@,
                None => !self.names().contains(name@),
            },
    {
        proof {
            use_type_invariant(self);
            self.lemma_shape();
        }
        let mut i: usize = 0;
        while i < self.entries.len()
            invariant
                i <= self.entries@.len(),
                self.names().len() == self.entries@.len(),
                forall|k: int| 0 <= k < self.entries@.len() ==> #[trigger] self.names()[k] == self.entries@[k].0@,
                forall|k: int| 0 <= k < i ==> self.names()[k] != name@,
            decreases self.entries.len() - i,
        {
            if str_eq(self.entries[i].0.as_str(), name) {
                return Some(i);
            }
            i = i + 1;
        }
        None
    }

    /// The item registered under `name`.
    pub fn get(&self, name: &str) -> (r: Option<&T>)
        ensures
            match r {
                Some(t) => self.lookup(name@) == Some(*t),
                None => self.lookup(name@) is None,
            },
    {
        proof {
            use_type_invariant(self);
            self.lemma_shape();
        }
        match self.position(name) {
            Some(i) => {
                proof {
                    lemma_index_of_unique(self.names(), name@, i as int);
                }
                Some(&self.entries[i].1)
            },
            None => None,
        }
    }

    /// The name and item at position `i`.
    pub fn entry(&self, i: usize) -> (r: (&String, &T))
        requires
            i < self.names().len(),
        ensures
            r.0@ == self.names()[i as int],
            *r.1 == self.items()[i as int],
    {
        proof {
            use_type_invariant(self);
            self.lemma_shape();
        }
        (&self.entries[i].0, &self.entries[i].1)
    }

    /// Registers `item` under `name`, replacing an item registered under
    /// that name before.
    pub fn insert(&mut self, name: String, item: T)
        ensures
            final(self).lookup(name@) == Some(item),
            forall|other: Seq<char>| other != name@ ==> final(self).lookup(other) == old(self).lookup(other),
            old(self).names().contains(name@) ==> final(self).names() == old(self).names(),
            !old(self).names().contains(name@) ==> final(self).names() == old(self).names().push(name@),
    {
        proof {
            use_type_invariant(&*self);
            self.lemma_shape();
        }
        let ghost old_names = self.names();
        let ghost old_items = self.items();
        match self.position(name.as_str()) {
            Some(i) => {
                let ghost key = name@;
                let mut entries: Vec<(String, T)> = Vec::new();
                std::mem::swap(&mut entries, &mut self.entries);
                proof {
                    assert(entry_names(entries@) == old_names);
                }
                entries.set(i, (name, item));
                proof {
                    assert(entry_names(entries@) =~= old_names);
                    lemma_index_of_unique(old_names, key, i as int);
                }
                self.entries = entries;
                proof {
                    assert(self.items() =~= old_items.update(i as int, item));
                    assert forall|other: Seq<char>| other != key implies #[trigger] self.lookup(other) == old(self).lookup(other) by {
                        if old_names.contains(other) {
                            let j = old_names.index_of(other);
                            assert(0 <= j < old_names.len() && old_names[j] == other);
                            assert(j != i);
                        }
                    }
                }
            },
            None => {
                let ghost key = name@;
                let mut entries: Vec<(String, T)> = Vec::new();
                std::mem::swap(&mut entries, &mut self.entries);
                proof {
                    assert(entry_names(entries@) == old_names);
                }
                entries.push((name, item));
                proof {
                    assert(entry_names(entries@) =~= old_names.push(key));
                    assert(!old_names.contains(key));
                    assert(old_names.push(key).no_duplicates()) by {
                        assert forall|a: int, b: int| 0 <= a < b < old_names.len() + 1 implies old_names.push(key)[a] != old_names.push(key)[b] by {
                            if b == old_names.len() {
                                assert(old_names.contains(old_names[a]));
                            }
                        }
                    }
                }
                self.entries = entries;
                proof {
                    assert(self.items() =~= old_items.push(item));
                    let ns = old_names.push(key);
                    assert(ns[old_names.len() as int] == key);
                    lemma_index_of_unique(ns, key, old_names.len() as int);
                    assert forall|other: Seq<char>| other != key implies #[trigger] self.lookup(other) == old(self).lookup(other) by {
                        if old_names.contains(other) {
                            let j = old_names.index_of(other);
                            assert(0 <= j < old_names.len() && old_names[j] == other);
                            assert(ns[j] == other);
                            lemma_index_of_unique(ns, other, j);
                        } else {
                            if ns.contains(other) {
                                let j = ns.index_of(other);
                                assert(j < old_names.len());
                                assert(old_names[j] == other);
                            }
                        }
                    }
                }
            },
        }
    }

    /// Replaces everything registered by `entries`, registered in order: a
    /// name given twice keeps its last item.
    pub fn replace_all(&mut self, entries: Vec<(String, T)>)
        ensures
            forall|name: Seq<char>| #[trigger] final(self).lookup(name) == last_named(entries@, name),
    {
        self.clear();
        let ghost all = entries@;
        let n: usize = entries.len();
        let mut rest = entries;
        let mut k: usize = 0;
        while rest.len() > 0
            invariant
                k + rest@.len() == all.len(),
                all.len() == n,
                rest@ == all.subrange(k as int, all.len() as int),
                forall|name: Seq<char>| #[trigger] self.lookup(name) == last_named(all.take(k as int), name),
            decreases rest.len(),
        {
            let (name, item) = rest.remove(0);
            let ghost key = name@;
            let ghost before = all.take(k as int);
            let ghost after = all.take(k as int + 1);
            assert(after.drop_last() =~= before);
            assert(after.last() == all[k as int]);
            assert(all[k as int] == (name, item));
            self.insert(name, item);
            k = k + 1;
            assert forall|n: Seq<char>| #[trigger] self.lookup(n) == last_named(all.take(k as int), n) by {
                assert(all.take(k as int) == after);
            }
        }
        assert(all.take(k as int) =~= all);
    }

    /// Removes every item.
    pub fn clear(&mut self)
        ensures
            final(self).names().len() == 0,
            final(self).items().len() == 0,
            forall|name: Seq<char>| #[trigger] final(self).lookup(name) is None,
    {
        self.entries = Vec::new();
        assert(entry_names(self.entries@) =~= Seq::<Seq<char>>::empty());
    }
}

} // verus!
