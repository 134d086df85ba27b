//! A map keyed by text, kept in listing order.

use crate::util::text::texts;
use vstd::prelude::*;
use vstd::string::*;

verus! {

/// A map from text keys to values. No key occurs twice; keys are listed in
/// the order in which they were first stored.
pub struct TextMap<V: View> {
    entries: Vec<(String, V)>,
}

/// A list of names without one of them.
pub open spec fn without(names: Seq<Seq<char>>, name: Seq<char>) -> Seq<Seq<char>> {
    if names.contains(name) {
        names.remove(names.index_of(name))
    } else {
        names
    }
}

spec fn has_name<V: View>(entries: Seq<(String, V)>, name: Seq<char>) -> bool {
    exists|i: int| 0 <= i < entries.len() && (#[trigger] entries[i]).0@ == name
}

spec fn index_of<V: View>(entries: Seq<(String, V)>, name: Seq<char>) -> int {
    choose|i: int| 0 <= i < entries.len() && (#[trigger] entries[i]).0@ == name
}

spec fn unique_names<V: View>(entries: Seq<(String, V)>) -> bool {
    forall|i: int, j: int|
        0 <= i < entries.len() && 0 <= j < entries.len() && i != j ==> (#[trigger] entries[i]).0@
            != (#[trigger] entries[j]).0@
}

spec fn entries_map<V: View>(entries: Seq<(String, V)>) -> Map<Seq<char>, V::V> {
    Map::new(
        |name: Seq<char>| has_name(entries, name),
        |name: Seq<char>| entries[index_of(entries, name)].1@,
    )
}

spec fn entry_names<V: View>(entries: Seq<(String, V)>) -> Seq<Seq<char>> {
    Seq::new(entries.len(), |i: int| entries[i].0@)
}

proof fn lemma_lookup<V: View>(entries: Seq<(String, V)>, i: int)
    requires
        unique_names(entries),
        0 <= i < entries.len(),
    ensures
        has_name(entries, entries[i].0@),
        index_of(entries, entries[i].0@) == i,
        entries_map(entries).contains_key(entries[i].0@),
        entries_map(entries)[entries[i].0@] == entries[i].1@,
{
    assert(has_name(entries, entries[i].0@));
}

proof fn lemma_push<V: View>(entries: Seq<(String, V)>, entry: (String, V))
    requires
        unique_names(entries),
        !has_name(entries, entry.0@),
    ensures
        unique_names(entries.push(entry)),
        entries_map(entries.push(entry)) == entries_map(entries).insert(entry.0@, entry.1@),
        entry_names(entries.push(entry)) == entry_names(entries).push(entry.0@),
{
    let after = entries.push(entry);
    assert(unique_names(after)) by {
        assert forall|i: int, j: int|
            0 <= i < after.len() && 0 <= j < after.len() && i != j implies (#[trigger] after[i]).0@
            != (#[trigger] after[j]).0@ by {
            if i < entries.len() && j < entries.len() {
                assert(after[i] == entries[i] && after[j] == entries[j]);
            } else if i < entries.len() {
                assert(after[i] == entries[i]);
            } else {
                assert(after[j] == entries[j]);
            }
        }
    }
    assert forall|name: Seq<char>|
        has_name(after, name) <==> (name == entry.0@ || has_name(entries, name)) by {
        if has_name(after, name) {
            let i = index_of(after, name);
            if i < entries.len() {
                assert(entries[i] == after[i]);
            }
        }
        if has_name(entries, name) {
            let i = index_of(entries, name);
            assert(after[i] == entries[i]);
        }
        if name == entry.0@ {
            assert(after[entries.len() as int] == entry);
        }
    }
    assert forall|name: Seq<char>| has_name(after, name) implies #[trigger] entries_map(after)[name]
        == entries_map(entries).insert(entry.0@, entry.1@)[name] by {
        let i = index_of(after, name);
        lemma_lookup(after, i);
        if i < entries.len() {
            assert(after[i] == entries[i]);
            lemma_lookup(entries, i);
        }
    }
    assert(entries_map(after) =~= entries_map(entries).insert(entry.0@, entry.1@));
    assert(entry_names(after) =~= entry_names(entries).push(entry.0@));
}

proof fn lemma_update<V: View>(entries: Seq<(String, V)>, i: int, entry: (String, V))
    requires
        unique_names(entries),
        0 <= i < entries.len(),
        entry.0@ == entries[i].0@,
    ensures
        unique_names(entries.update(i, entry)),
        entries_map(entries.update(i, entry)) == entries_map(entries).insert(
            entry.0@,
            entry.1@,
        ),
        entry_names(entries.update(i, entry)) == entry_names(entries),
{
    let after = entries.update(i, entry);
    assert forall|a: int, b: int|
        0 <= a < after.len() && 0 <= b < after.len() && a != b implies (#[trigger] after[a]).0@
        != (#[trigger] after[b]).0@ by {
        assert(after[a].0@ == entries[a].0@);
        assert(after[b].0@ == entries[b].0@);
    }
    assert forall|name: Seq<char>| has_name(after, name) <==> has_name(entries, name) by {
        if has_name(after, name) {
            let a = index_of(after, name);
            assert(entries[a].0@ == name);
        }
        if has_name(entries, name) {
            let a = index_of(entries, name);
            assert(after[a].0@ == name);
        }
    }
    lemma_lookup(entries, i);
    assert forall|name: Seq<char>| has_name(after, name) implies #[trigger] entries_map(after)[name]
        == entries_map(entries).insert(entry.0@, entry.1@)[name] by {
        let a = index_of(after, name);
        lemma_lookup(after, a);
        if a != i {
            assert(after[a] == entries[a]);
            lemma_lookup(entries, a);
        }
    }
    assert(entries_map(after) =~= entries_map(entries).insert(entry.0@, entry.1@));
    assert(entry_names(after) =~= entry_names(entries));
}

proof fn lemma_remove<V: View>(entries: Seq<(String, V)>, i: int)
    requires
        unique_names(entries),
        0 <= i < entries.len(),
    ensures
        unique_names(entries.remove(i)),
        entries_map(entries.remove(i)) == entries_map(entries).remove(entries[i].0@),
        entry_names(entries.remove(i)) == entry_names(entries).remove(i),
{
    let after = entries.remove(i);
    assert forall|a: int| 0 <= a < after.len() implies #[trigger] after[a] == entries[if a < i {
        a
    } else {
        a + 1
    }] by {}
    assert forall|a: int, b: int|
        0 <= a < after.len() && 0 <= b < after.len() && a != b implies (#[trigger] after[a]).0@
        != (#[trigger] after[b]).0@ by {
        let a0 = if a < i { a } else { a + 1 };
        let b0 = if b < i { b } else { b + 1 };
        assert(after[a] == entries[a0] && after[b] == entries[b0]);
    }
    assert forall|name: Seq<char>|
        has_name(after, name) <==> (has_name(entries, name) && name != entries[i].0@) by {
        if has_name(after, name) {
            let a = index_of(after, name);
            let a0 = if a < i { a } else { a + 1 };
            assert(after[a] == entries[a0]);
            assert(entries[a0].0@ == name);
        }
        if has_name(entries, name) && name != entries[i].0@ {
            let a0 = index_of(entries, name);
            let a = if a0 < i { a0 } else { a0 - 1 };
            assert(after[a] == entries[a0]);
        }
    }
    assert forall|name: Seq<char>| has_name(after, name) implies #[trigger] entries_map(after)[name]
        == entries_map(entries).remove(entries[i].0@)[name] by {
        let a = index_of(after, name);
        let a0 = if a < i { a } else { a + 1 };
        lemma_lookup(after, a);
        assert(after[a] == entries[a0]);
        lemma_lookup(entries, a0);
    }
    assert(entries_map(after) =~= entries_map(entries).remove(entries[i].0@));
    assert(entry_names(after) =~= entry_names(entries).remove(i));
}

proof fn lemma_names<V: View>(entries: Seq<(String, V)>)
    requires
        unique_names(entries),
    ensures
        entry_names(entries).no_duplicates(),
        forall|name: Seq<char>|
            entry_names(entries).contains(name) <==> entries_map(entries).contains_key(name),
        entries_map(entries).dom().finite(),
        entries_map(entries).len() == entries.len(),
{
    let names = entry_names(entries);
    assert forall|i: int, j: int|
        0 <= i < names.len() && 0 <= j < names.len() && i != j implies names[i] != names[j] by {
        assert(entries[i].0@ != entries[j].0@);
    }
    assert forall|name: Seq<char>|
        names.contains(name) <==> entries_map(entries).contains_key(name) by {
        if names.contains(name) {
            let i = choose|i: int| 0 <= i < names.len() && names[i] == name;
            assert(entries[i].0@ == name);
        }
        if entries_map(entries).contains_key(name) {
            let i = index_of(entries, name);
            assert(names[i] == name);
        }
    }
    assert(names.to_set() =~= entries_map(entries).dom());
    names.unique_seq_to_set();
}

impl<V: View> View for TextMap<V> {
    type V = Map<Seq<char>, V::V>;

    closed spec fn view(&self) -> Map<Seq<char>, V::V> {
        entries_map(self.entries@)
    }
}

impl<V: View> TextMap<V> {
    #[verifier::type_invariant]
    spec fn well_formed(self) -> bool {
        unique_names(self.entries@)
    }

    /// The keys in listing order.
    pub closed spec fn names(&self) -> Seq<Seq<char>> {
        entry_names(self.entries@)
    }

    /// An empty map.
    pub fn new() -> (map: Self)
        ensures
            map@ == Map::<Seq<char>, V::V>::empty(),
            map.names() == Seq::<Seq<char>>::empty(),
    {
        let map = TextMap { entries: Vec::new() };
        assert(map@ =~= Map::<Seq<char>, V::V>::empty());
        assert(map.names() =~= Seq::<Seq<char>>::empty());
        map
    }

    /// How many keys the map holds.
    pub fn len(&self) -> (n: usize)
        ensures
            self@.dom().finite(),
            n == self@.len(),
            n == self.names().len(),
    {
        proof {
            use_type_invariant(self);
            lemma_names(self.entries@);
        }
        self.entries.len()
    }

    fn find(&self, key: &str) -> (found: Option<usize>)
        ensures
            match found {
                Some(i) => i < self.entries@.len() && self.entries@[i as int].0@ == key@,
                None => !has_name(self.entries@, key@),
            },
    {
        let wanted = key.to_owned();
        let mut i: usize = 0;
        while i < self.entries.len()
            invariant
                i <= self.entries@.len(),
                wanted@ == key@,
                forall|j: int| 0 <= j < i ==> (#[trigger] self.entries@[j]).0@ != key@,
            decreases self.entries@.len() - i,
        {
            if self.entries[i].0 == wanted {
                return Some(i);
            }
            i = i + 1;
        }
        None
    }

    /// Whether a key is present.
    pub fn contains(&self, key: &str) -> (present: bool)
        ensures
            present == self@.contains_key(key@),
    {
        self.find(key).is_some()
    }

    /// The value stored under a key, if it is present.
    pub fn get(&self, key: &str) -> (value: Option<&V>)
        ensures
            value is Some <==> self@.contains_key(key@),
            value matches Some(v) ==> v@ == self@[key@],
    {
        proof {
            use_type_invariant(self);
        }
        match self.find(key) {
            Some(i) => {
                proof {
                    lemma_lookup(self.entries@, i as int);
                }
                Some(&self.entries[i].1)
            },
            None => None,
        }
    }

    /// Stores `value` under `key`, replacing what was stored there. A new
    /// key is listed last; a replaced one keeps its place.
    pub fn put(&mut self, key: String, value: V)
        ensures
            final(self)@ == old(self)@.insert(key@, value@),
            final(self).names() == if old(self)@.contains_key(key@) {
                old(self).names()
            } else {
                old(self).names().push(key@)
            },
    {
        proof {
            use_type_invariant(&*self);
        }
        let found = self.find(key.as_str());
        let mut entries: Vec<(String, V)> = Vec::new();
        std::mem::swap(&mut entries, &mut self.entries);
        let entry = (key, value);
        match found {
            Some(i) => {
                proof {
                    lemma_update(entries@, i as int, entry);
                    lemma_lookup(entries@, i as int);
                }
                entries[i] = entry;
            },
            None => {
                proof {
                    lemma_push(entries@, entry);
                }
                entries.push(entry);
            },
        }
        self.entries = entries;
    }

    /// Removes a key and hands out what was stored under it.
    pub fn remove(&mut self, key: &str) -> (removed: Option<V>)
        ensures
            removed is Some <==> old(self)@.contains_key(key@),
            removed matches Some(v) ==> v@ == old(self)@[key@],
            final(self)@ == old(self)@.remove(key@),
            final(self).names() == without(old(self).names(), key@),
    {
        proof {
            use_type_invariant(&*self);
        }
        match self.find(key) {
            Some(i) => {
                let mut entries: Vec<(String, V)> = Vec::new();
                std::mem::swap(&mut entries, &mut self.entries);
                proof {
                    lemma_remove(entries@, i as int);
                    lemma_lookup(entries@, i as int);
                    assert(entry_names(entries@)[i as int] == key@);
                }
                let entry = entries.remove(i);
                self.entries = entries;
                proof {
                    let names = old(self).names();
                    lemma_names(old(self).entries@);
                    assert(names[i as int] == key@);
                    assert(names.contains(key@));
                    assert(names.index_of(key@) == i);
                }
                Some(entry.1)
            },
            None => {
                proof {
                    lemma_names(self.entries@);
                    assert(self@ =~= self@.remove(key@));
                }
                None
            },
        }
    }

    /// The keys, each once, in listing order: the keys of the map and
    /// nothing else.
    pub fn keys(&self) -> (names: Vec<String>)
        ensures
            texts(names@) == self.names(),
            self.names().no_duplicates(),
            forall|name: Seq<char>| self.names().contains(name) <==> self@.contains_key(name),
            self@.dom().finite(),
            self@.len() == names@.len(),
    {
        proof {
            use_type_invariant(self);
            lemma_names(self.entries@);
        }
        let mut names: Vec<String> = Vec::new();
        let mut i: usize = 0;
        while i < self.entries.len()
            invariant
                i <= self.entries@.len(),
                names@.len() == i,
                forall|j: int| 0 <= j < i ==> (#[trigger] names@[j])@ == self.entries@[j].0@,
            decreases self.entries@.len() - i,
        {
            names.push(self.entries[i].0.clone());
            i = i + 1;
        }
        assert(texts(names@) =~= self.names());
        names
    }
}

} // verus!
