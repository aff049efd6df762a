//! A small map from names to values that keeps insertion order.

use vstd::prelude::*;

verus! {

/// One named slot of a [`Table`].
#[derive(Debug)]
pub struct Entry<V> {
    pub name: String,
    pub value: V,
}

/// A map from names to values that keeps the order in which the names were
/// first inserted. No name occurs twice.
#[derive(Debug)]
pub struct Table<V> {
    entries: Vec<Entry<V>>,
}

/// Where `name` stands in `names`, if it stands there at all.
pub open spec fn position(names: Seq<Seq<char>>, name: Seq<char>) -> Option<int> {
    if names.contains(name) {
        Some(names.index_of(name))
    } else {
        None
    }
}

/// The map that sends each of `names` to the value at its index.
pub open spec fn table_map<V>(names: Seq<Seq<char>>, values: Seq<V>) -> Map<Seq<char>, V> {
    Map::new(
        |name: Seq<char>| names.contains(name),
        |name: Seq<char>| values[names.index_of(name)],
    )
}

/// In a sequence without duplicates, an element's index is the only index
/// that holds it.
pub proof fn lemma_position_unique(names: Seq<Seq<char>>, i: int)
    requires
        names.no_duplicates(),
        0 <= i < names.len(),
    ensures
        position(names, names[i]) == Some(i),
{
    assert(names.contains(names[i]));
    let j = names.index_of(names[i]);
    assert(0 <= j < names.len() && names[j] == names[i]);
}

impl<V> Table<V> {
    /// The names, in insertion order.
    pub closed spec fn names(&self) -> Seq<Seq<char>> {
        Seq::new(self.entries@.len(), |i: int| self.entries@[i].name@)
    }

    /// The values, each at the index of its name.
    pub closed spec fn values(&self) -> Seq<V> {
        Seq::new(self.entries@.len(), |i: int| self.entries@[i].value)
    }

    /// As many values as names, and no name twice.
    pub open spec fn wf(&self) -> bool {
        &&& self.names().len() == self.values().len()
        &&& self.names().no_duplicates()
    }

    /// The table as a mathematical map.
    pub open spec fn view(&self) -> Map<Seq<char>, V> {
        table_map(self.names(), self.values())
    }

    /// The empty table.
    pub fn new() -> (table: Self)
        ensures
            table.wf(),
            table.names() == Seq::<Seq<char>>::empty(),
            table.values() == Seq::<V>::empty(),
            table@ == Map::<Seq<char>, V>::empty(),
    {
        let table = Table { entries: Vec::new() };
        assert(table.names() =~= Seq::<Seq<char>>::empty());
        assert(table.values() =~= Seq::<V>::empty());
        assert(table@ =~= Map::<Seq<char>, V>::empty());
        table
    }

    /// The number of names.
    pub fn len(&self) -> (n: usize)
        ensures
            n == self.names().len(),
            n == self.values().len(),
    {
        self.entries.len()
    }

    /// Whether the table holds nothing.
    pub fn is_empty(&self) -> (empty: bool)
        ensures
            empty == (self.names().len() == 0),
    {
        self.entries.len() == 0
    }

    /// The name at `index`.
    pub fn name(&self, index: usize) -> (name: &String)
        requires
            index < self.names().len(),
        ensures
            name@ == self.names()[index as int],
    {
        &self.entries[index].name
    }

    /// The value at `index`.
    pub fn value(&self, index: usize) -> (value: &V)
        requires
            index < self.values().len(),
        ensures
            *value == self.values()[index as int],
    {
        &self.entries[index].value
    }

    /// The value at `index`, to be changed in place. Names and the other
    /// values stay as they are.
    pub fn value_mut(&mut self, index: usize) -> (value: &mut V)
        requires
            index < old(self).values().len(),
        ensures
            *value == old(self).values()[index as int],
            final(self).names() == old(self).names(),
            final(self).values() == old(self).values().update(index as int, *final(value)),
    {
        &mut self.entries[index].value
    }

    /// The index of `name`: `Some` exactly when the table holds it.
    pub fn find(&self, name: &String) -> (found: Option<usize>)
        requires
            self.wf(),
        ensures
            found.is_some() == self.names().contains(name@),
            found matches Some(i) ==> i < self.names().len() && self.names()[i as int] == name@,
            found matches Some(i) ==> position(self.names(), name@) == Some(i as int),
            found.is_none() ==> position(self.names(), name@).is_none(),
    {
        let mut i: usize = 0;
        while i < self.entries.len()
            invariant
                self.wf(),
                i <= self.entries@.len(),
                self.names().len() == self.entries@.len(),
                forall|j: int| 0 <= j < i ==> self.names()[j] != name@,
            decreases self.entries@.len() - i,
        {
            if self.entries[i].name == *name {
                proof {
                    lemma_position_unique(self.names(), i as int);
                }
                return Some(i);
            }
            i += 1;
        }
        None
    }

    /// Whether the table holds `name`.
    pub fn contains_key(&self, name: &String) -> (present: bool)
        requires
            self.wf(),
        ensures
            present == self@.contains_key(name@),
            present == self.names().contains(name@),
    {
        self.find(name).is_some()
    }

    /// The value stored under `name`, if the table holds it.
    pub fn get(&self, name: &String) -> (value: Option<&V>)
        requires
            self.wf(),
        ensures
            value.is_some() == self@.contains_key(name@),
            value matches Some(v) ==> *v == self@[name@],
    {
        match self.find(name) {
            Some(i) => Some(&self.entries[i].value),
            None => None,
        }
    }

    /// Stores `value` under `name`. A name that the table already holds keeps
    /// its place and gets the new value; a new name goes to the end.
    pub fn insert(&mut self, name: String, value: V)
        requires
            old(self).wf(),
        ensures
            final(self).wf(),
            final(self)@ == old(self)@.insert(name@, value),
            match position(old(self).names(), name@) {
                Some(i) => {
                    &&& final(self).names() == old(self).names()
                    &&& final(self).values() == old(self).values().update(i, value)
                },
                None => {
                    &&& final(self).names() == old(self).names().push(name@)
                    &&& final(self).values() == old(self).values().push(value)
                },
            },
    {
        let ghost key = name@;
        match self.find(&name) {
            Some(i) => {
                self.entries.set(i, Entry { name, value });
                assert(self.names() =~= old(self).names());
                assert(self.values() =~= old(self).values().update(i as int, value));
            },
            None => {
                self.entries.push(Entry { name, value });
                assert(self.names() =~= old(self).names().push(key));
                assert(self.values() =~= old(self).values().push(value));
                assert(self.names().no_duplicates());
            },
        }
        proof {
            lemma_insert_view(
                old(self).names(),
                old(self).values(),
                key,
                value,
                self.names(),
                self.values(),
            );
        }
    }
}

impl<V: Clone> Clone for Table<V> {
    /// A table with the same names in the same order, each with a clone of
    /// its value.
    fn clone(&self) -> (copy: Self)
        ensures
            copy.names() == self.names(),
            copy.values().len() == self.values().len(),
            forall|i: int|
                0 <= i < self.values().len() ==> cloned(
                    #[trigger] self.values()[i],
                    copy.values()[i],
                ),
    {
        let mut entries: Vec<Entry<V>> = Vec::new();
        let mut index: usize = 0;
        while index < self.entries.len()
            invariant
                index <= self.entries@.len(),
                entries@.len() == index,
                forall|i: int| 0 <= i < index ==> (#[trigger] entries@[i]).name@ == self.entries@[i].name@,
                forall|i: int|
                    0 <= i < index ==> cloned(self.entries@[i].value, (#[trigger] entries@[i]).value),
            decreases self.entries@.len() - index,
        {
            let name: String = self.entries[index].name.clone();
            let value: V = self.entries[index].value.clone();
            entries.push(Entry { name, value });
            index += 1;
        }
        let copy = Table { entries };
        assert(copy.names() =~= self.names());
        copy
    }
}

/// The map of a table after an insertion is the old map with the one key set.
proof fn lemma_insert_view<V>(
    names: Seq<Seq<char>>,
    values: Seq<V>,
    key: Seq<char>,
    value: V,
    after_names: Seq<Seq<char>>,
    after_values: Seq<V>,
)
    requires
        names.len() == values.len(),
        names.no_duplicates(),
        after_names.no_duplicates(),
        names.contains(key) ==> after_names == names && after_values == values.update(
            names.index_of(key),
            value,
        ),
        !names.contains(key) ==> after_names == names.push(key) && after_values == values.push(
            value,
        ),
    ensures
        table_map(after_names, after_values) == table_map(names, values).insert(key, value),
{
    let before = table_map(names, values);
    let after = table_map(after_names, after_values);
    if !names.contains(key) {
        assert(after_names[names.len() as int] == key);
    }
    assert(after_names.contains(key));
    assert forall|n: Seq<char>| after.dom().contains(n) <==> before.insert(key, value).dom().contains(
        n,
    ) by {
        if names.contains(n) {
            let i = names.index_of(n);
            assert(after_names[i] == n);
        }
    }
    assert forall|n: Seq<char>| after.dom().contains(n) implies after[n] == before.insert(
        key,
        value,
    )[n] by {
        let j = after_names.index_of(n);
        assert(after_names[j] == n);
        if n == key {
            if names.contains(key) {
                let i = names.index_of(key);
                assert(names[i] == key);
                assert(i == j);
            } else {
                assert(j == names.len());
            }
        } else {
            assert(names.contains(n));
            let i = names.index_of(n);
            assert(names[i] == n);
            assert(after_names[i] == n);
            assert(i == j);
        }
    }
    assert(after =~= before.insert(key, value));
}

} // verus!
