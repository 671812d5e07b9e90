//! A map from names to values that keeps its entries in a vector.
//!
//! The registry looks its entries up by name. No name occurs twice; that
//! is the invariant of the type, and the view is a mathematical map.

use vstd::prelude::*;
use crate::text::{same_text, views};

verus! {

/// A value under a name.
#[derive(Debug)]
pub struct Named<V> {
    pub name: String,
    pub value: V,
}

/// Whether some entry carries the name `key`.
pub open spec fn has_name<V>(entries: Seq<Named<V>>, key: Seq<char>) -> bool {
    exists|i: int| 0 <= i < entries.len() && (#[trigger] entries[i]).name@ == key
}

/// The place of an entry that carries the name `key`.
pub open spec fn place_of<V>(entries: Seq<Named<V>>, key: Seq<char>) -> int {
    choose|i: int| 0 <= i < entries.len() && (#[trigger] entries[i]).name@ == key
}

/// No two entries carry the same name.
pub open spec fn distinct_names<V>(entries: Seq<Named<V>>) -> bool {
    forall|i: int, j: int|
        0 <= i < j < entries.len() ==> (#[trigger] entries[i]).name@ != (#[trigger] entries[j]).name@
}

/// The map that a list of distinctly named entries stands for.
pub open spec fn as_map<V>(entries: Seq<Named<V>>) -> Map<Seq<char>, V> {
    Map::new(
        |key: Seq<char>| has_name(entries, key),
        |key: Seq<char>| entries[place_of(entries, key)].value,
    )
}

/// The names of the entries, in order.
pub open spec fn names_of<V>(entries: Seq<Named<V>>) -> Seq<Seq<char>> {
    Seq::new(entries.len(), |i: int| entries[i].name@)
}

/// In a list of distinct names, the entry at `i` is the one its name leads to.
pub proof fn lemma_place_of_entry<V>(entries: Seq<Named<V>>, i: int)
    requires
        distinct_names(entries),
        0 <= i < entries.len(),
    ensures
        has_name(entries, entries[i].name@),
        place_of(entries, entries[i].name@) == i,
        as_map(entries)[entries[i].name@] == entries[i].value,
{
    let key = entries[i].name@;
    assert(has_name(entries, key));
    let p = place_of(entries, key);
    assert(entries[p].name@ == key);
    if p < i {
        assert(entries[p].name@ != entries[i].name@);
    } else if i < p {
        assert(entries[i].name@ != entries[p].name@);
    }
}

/// The names of distinctly named entries are as many as the entries.
pub proof fn lemma_domain_size<V>(entries: Seq<Named<V>>)
    requires
        distinct_names(entries),
    ensures
        as_map(entries).dom().finite(),
        as_map(entries).dom().len() == entries.len(),
        as_map(entries).dom() == names_of(entries).to_set(),
    decreases entries.len(),
{
    let names = names_of(entries);
    assert(as_map(entries).dom() =~= names.to_set()) by {
        assert forall|key: Seq<char>| as_map(entries).dom().contains(key) implies names.contains(
            key,
        ) by {
            let i = place_of(entries, key);
            assert(names[i] == key);
        }
        assert forall|key: Seq<char>| names.contains(key) implies has_name(entries, key) by {
            let i = choose|i: int| 0 <= i < names.len() && names[i] == key;
            assert(entries[i].name@ == key);
        }
    }
    assert(names.no_duplicates()) by {
        assert forall|i: int, j: int| 0 <= i < names.len() && 0 <= j < names.len() && i != j implies names[i]
            != names[j] by {
            if i < j {
                assert(entries[i].name@ != entries[j].name@);
            } else {
                assert(entries[j].name@ != entries[i].name@);
            }
        }
    }
    names.unique_seq_to_set();
    vstd::seq_lib::seq_to_set_is_finite(names);
}

/// Appending an entry under a new name adds it to the map.
pub proof fn lemma_push_new<V>(entries: Seq<Named<V>>, entry: Named<V>)
    requires
        distinct_names(entries),
        !has_name(entries, entry.name@),
    ensures
        distinct_names(entries.push(entry)),
        as_map(entries.push(entry)) == as_map(entries).insert(entry.name@, entry.value),
{
    let after = entries.push(entry);
    assert(distinct_names(after)) by {
        assert forall|i: int, j: int| 0 <= i < j < after.len() implies (#[trigger] after[i]).name@ != (
        #[trigger] after[j]).name@ by {
            if j < entries.len() {
                assert(entries[i].name@ != entries[j].name@);
            } else {
                assert(after[i] == entries[i]);
                if entries[i].name@ == entry.name@ {
                    assert(has_name(entries, entry.name@));
                }
            }
        }
    }
    assert(as_map(after) =~= as_map(entries).insert(entry.name@, entry.value)) by {
        assert forall|key: Seq<char>| has_name(after, key) <==> (key == entry.name@ || has_name(
            entries,
            key,
        )) by {
            if has_name(after, key) {
                let i = place_of(after, key);
                if i < entries.len() {
                    assert(entries[i].name@ == key);
                }
            }
            if key == entry.name@ {
                assert(after[entries.len() as int].name@ == key);
            }
            if has_name(entries, key) {
                let i = place_of(entries, key);
                assert(after[i].name@ == key);
            }
        }
        assert forall|key: Seq<char>| has_name(after, key) implies as_map(after)[key] == as_map(
            entries,
        ).insert(entry.name@, entry.value)[key] by {
            let i = place_of(after, key);
            lemma_place_of_entry(after, i);
            if i < entries.len() {
                assert(after[i] == entries[i]);
                lemma_place_of_entry(entries, i);
            }
        }
    }
}

/// Replacing the value of an entry replaces it in the map.
pub proof fn lemma_update_value<V>(entries: Seq<Named<V>>, at: int, entry: Named<V>)
    requires
        distinct_names(entries),
        0 <= at < entries.len(),
        entries[at].name@ == entry.name@,
    ensures
        distinct_names(entries.update(at, entry)),
        as_map(entries.update(at, entry)) == as_map(entries).insert(entry.name@, entry.value),
{
    let after = entries.update(at, entry);
    assert(distinct_names(after)) by {
        assert forall|i: int, j: int| 0 <= i < j < after.len() implies (#[trigger] after[i]).name@ != (
        #[trigger] after[j]).name@ by {
            assert(after[i].name@ == entries[i].name@);
            assert(after[j].name@ == entries[j].name@);
        }
    }
    assert(as_map(after) =~= as_map(entries).insert(entry.name@, entry.value)) by {
        assert forall|key: Seq<char>| has_name(after, key) <==> has_name(entries, key) by {
            if has_name(after, key) {
                let i = place_of(after, key);
                assert(entries[i].name@ == key);
            }
            if has_name(entries, key) {
                let i = place_of(entries, key);
                assert(after[i].name@ == key);
            }
        }
        assert(has_name(entries, entry.name@));
        assert forall|key: Seq<char>| has_name(after, key) implies as_map(after)[key] == as_map(
            entries,
        ).insert(entry.name@, entry.value)[key] by {
            let i = place_of(after, key);
            lemma_place_of_entry(after, i);
            if i != at {
                assert(after[i] == entries[i]);
                lemma_place_of_entry(entries, i);
                assert(entries[i].name@ != entries[at].name@) by {
                    if i < at {
                    } else {
                    }
                }
            }
        }
    }
}

/// Taking an entry out takes its name out of the map.
pub proof fn lemma_remove_entry<V>(entries: Seq<Named<V>>, at: int)
    requires
        distinct_names(entries),
        0 <= at < entries.len(),
    ensures
        distinct_names(entries.remove(at)),
        as_map(entries.remove(at)) == as_map(entries).remove(entries[at].name@),
{
    let after = entries.remove(at);
    let gone = entries[at].name@;
    assert forall|i: int| 0 <= i < after.len() implies #[trigger] after[i] == entries[if i < at {
        i
    } else {
        i + 1
    }] by {}
    assert(distinct_names(after)) by {
        assert forall|i: int, j: int| 0 <= i < j < after.len() implies (#[trigger] after[i]).name@ != (
        #[trigger] after[j]).name@ by {
            let a = if i < at {
                i
            } else {
                i + 1
            };
            let b = if j < at {
                j
            } else {
                j + 1
            };
            assert(entries[a].name@ != entries[b].name@);
        }
    }
    assert(as_map(after) =~= as_map(entries).remove(gone)) by {
        assert forall|key: Seq<char>| has_name(after, key) <==> (key != gone && has_name(
            entries,
            key,
        )) by {
            if has_name(after, key) {
                let i = place_of(after, key);
                let a = if i < at {
                    i
                } else {
                    i + 1
                };
                assert(entries[a].name@ == key);
                if a < at {
                    assert(entries[a].name@ != entries[at].name@);
                } else {
                    assert(entries[at].name@ != entries[a].name@);
                }
            }
            if key != gone && has_name(entries, key) {
                let a = place_of(entries, key);
                let i = if a < at {
                    a
                } else {
                    a - 1
                };
                assert(after[i].name@ == key);
            }
        }
        assert forall|key: Seq<char>| has_name(after, key) implies as_map(after)[key] == as_map(
            entries,
        ).remove(gone)[key] by {
            let i = place_of(after, key);
            lemma_place_of_entry(after, i);
            let a = if i < at {
                i
            } else {
                i + 1
            };
            lemma_place_of_entry(entries, a);
        }
    }
}

/// A map from names to values.
#[derive(Debug)]
pub struct NameMap<V> {
    entries: Vec<Named<V>>,
}

impl<V> View for NameMap<V> {
    type V = Map<Seq<char>, V>;

    closed spec fn view(&self) -> Map<Seq<char>, V> {
        as_map(self.entries@)
    }
}

impl<V> NameMap<V> {
    /// No name occurs twice among the entries.
    pub closed spec fn wf(&self) -> bool {
        distinct_names(self.entries@)
    }

    /// The names in the order in which they were first bound.
    pub closed spec fn order(&self) -> Seq<Seq<char>> {
        names_of(self.entries@)
    }

    /// The values in the order of [`Self::order`].
    pub closed spec fn values(&self) -> Seq<V> {
        Seq::new(self.entries@.len(), |i: int| self.entries@[i].value)
    }

    /// The order holds each name of the map once, with its value beside it.
    pub proof fn lemma_order(&self)
        requires
            self.wf(),
        ensures
            self.order().no_duplicates(),
            self.order().len() == self.values().len(),
            self@.dom().finite(),
            self@.dom().len() == self.order().len(),
            self@.dom() == self.order().to_set(),
            forall|i: int|
                0 <= i < self.order().len() ==> self@.contains_key(#[trigger] self.order()[i])
                    && self@[self.order()[i]] == self.values()[i],
    {
        let entries = self.entries@;
        lemma_domain_size(entries);
        assert forall|i: int, j: int|
            0 <= i < self.order().len() && 0 <= j < self.order().len() && i != j implies self.order()[i]
            != self.order()[j] by {
            if i < j {
                assert(entries[i].name@ != entries[j].name@);
            } else {
                assert(entries[j].name@ != entries[i].name@);
            }
        }
        assert forall|i: int| 0 <= i < self.order().len() implies self@.contains_key(
            #[trigger] self.order()[i],
        ) && self@[self.order()[i]] == self.values()[i] by {
            lemma_place_of_entry(entries, i);
        }
    }

    /// A map without entries.
    pub fn new() -> (m: Self)
        ensures
            m.wf(),
            m@ == Map::<Seq<char>, V>::empty(),
            m.order() == Seq::<Seq<char>>::empty(),
    {
        let m = NameMap { entries: Vec::new() };
        assert(m@ =~= Map::<Seq<char>, V>::empty());
        assert(m.order() =~= Seq::<Seq<char>>::empty());
        m
    }

    /// The number of names.
    pub fn len(&self) -> (n: usize)
        requires
            self.wf(),
        ensures
            n == self@.dom().len(),
            n == self.order().len(),
            self@.dom().finite(),
    {
        proof {
            lemma_domain_size(self.entries@);
        }
        self.entries.len()
    }

    /// The place of `name` among the entries.
    fn find(&self, name: &str) -> (r: Option<usize>)
        ensures
            r is Some <==> has_name(self.entries@, name@),
            r matches Some(i) ==> i < self.entries@.len() && self.entries@[i as int].name@ == name@,
    {
        let mut i: usize = 0;
        while i < self.entries.len()
            invariant
                0 <= i <= self.entries@.len(),
                forall|k: int| 0 <= k < i ==> (#[trigger] self.entries@[k]).name@ != name@,
            decreases self.entries@.len() - i,
        {
            if same_text(self.entries[i].name.as_str(), name) {
                return Some(i);
            }
            i += 1;
        }
        None
    }

    /// Whether `name` is bound.
    pub fn contains(&self, name: &str) -> (r: bool)
        ensures
            r == self@.contains_key(name@),
    {
        self.find(name).is_some()
    }

    /// The value bound to `name`.
    pub fn get(&self, name: &str) -> (r: Option<&V>)
        requires
            self.wf(),
        ensures
            r is Some <==> self@.contains_key(name@),
            r matches Some(v) ==> *v == self@[name@],
    {
        match self.find(name) {
            Some(i) => {
                proof {
                    lemma_place_of_entry(self.entries@, i as int);
                }
                Some(&self.entries[i].value)
            },
            None => None,
        }
    }

    /// Binds `name` to `value`, in place of what it was bound to. Returns
    /// whether the name was bound before.
    pub fn insert(&mut self, name: String, value: V) -> (replaced: bool)
        requires
            old(self).wf(),
        ensures
            final(self).wf(),
            final(self)@ == old(self)@.insert(name@, value),
            replaced == old(self)@.contains_key(name@),
            final(self).order() == if replaced {
                old(self).order()
            } else {
                old(self).order().push(name@)
            },
    {
        let ghost before = self.entries@;
        let entry = Named { name, value };
        match self.find(entry.name.as_str()) {
            Some(i) => {
                proof {
                    lemma_update_value(before, i as int, entry);
                }
                self.entries.set(i, entry);
                assert(names_of(self.entries@) =~= names_of(before));
                true
            },
            None => {
                proof {
                    lemma_push_new(before, entry);
                }
                self.entries.push(entry);
                assert(names_of(self.entries@) =~= names_of(before).push(entry.name@));
                false
            },
        }
    }

    /// Takes `name` out. Returns whether it was bound.
    pub fn remove(&mut self, name: &str) -> (removed: bool)
        requires
            old(self).wf(),
        ensures
            final(self).wf(),
            final(self)@ == old(self)@.remove(name@),
            removed == old(self)@.contains_key(name@),
    {
        let ghost before = self.entries@;
        match self.find(name) {
            Some(i) => {
                proof {
                    lemma_remove_entry(before, i as int);
                }
                self.entries.remove(i);
                true
            },
            None => {
                assert(as_map(before).remove(name@) =~= as_map(before));
                false
            },
        }
    }

    /// The name at place `i` of [`Self::order`].
    pub fn name_at(&self, i: usize) -> (name: &str)
        requires
            i < self.order().len(),
        ensures
            name@ == self.order()[i as int],
    {
        self.entries[i].name.as_str()
    }

    /// The value at place `i` of [`Self::values`].
    pub fn value_at(&self, i: usize) -> (value: &V)
        requires
            i < self.order().len(),
        ensures
            *value == self.values()[i as int],
    {
        &self.entries[i].value
    }

    /// The names, each once.
    pub fn names(&self) -> (out: Vec<String>)
        ensures
            views(out@) == self.order(),
    {
        let mut out: Vec<String> = Vec::new();
        let mut i: usize = 0;
        while i < self.entries.len()
            invariant
                0 <= i <= self.entries@.len(),
                out@.len() == i,
                forall|k: int| 0 <= k < i ==> (#[trigger] out@[k])@ == self.entries@[k].name@,
            decreases self.entries@.len() - i,
        {
            out.push(self.entries[i].name.clone());
            i += 1;
        }
        assert(views(out@) =~= self.order());
        out
    }
}

} // verus!
