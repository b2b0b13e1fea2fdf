//! A small string-keyed table that keeps its entries in insertion order.

use vstd::prelude::*;

verus! {

/// What a sequence of entries maps `key` to: the value of the first entry
/// that carries the key.
pub open spec fn first_value<V>(entries: Seq<(String, V)>, key: Seq<char>) -> Option<V>
    decreases entries.len(),
{
    if entries.len() == 0 {
        None
    } else if entries[0].0@ == key {
        Some(entries[0].1)
    } else {
        first_value(entries.drop_first(), key)
    }
}

/// Nothing before `end` carries `key`.
pub open spec fn absent_before<V>(entries: Seq<(String, V)>, key: Seq<char>, end: int) -> bool {
    forall|j: int| 0 <= j < end && j < entries.len() ==> (#[trigger] entries[j]).0@ != key
}

/// If no entry before `i` carries the key, the lookup is decided by the
/// entries from `i` on.
pub proof fn lemma_first_value_skip<V>(entries: Seq<(String, V)>, key: Seq<char>, i: int)
    requires
        0 <= i <= entries.len(),
        absent_before(entries, key, i),
    ensures
        first_value(entries, key) == first_value(entries.subrange(i, entries.len() as int), key),
    decreases i,
{
    if i == 0 {
        assert(entries.subrange(0, entries.len() as int) =~= entries);
    } else {
        let rest = entries.drop_first();
        assert(entries[0].0@ != key);
        assert forall|j: int| 0 <= j < i - 1 && j < rest.len() implies (#[trigger] rest[j]).0@
            != key by {
            assert(rest[j] == entries[j + 1]);
        }
        lemma_first_value_skip(rest, key, i - 1);
        assert(rest.subrange(i - 1, rest.len() as int) =~= entries.subrange(
            i,
            entries.len() as int,
        ));
    }
}

/// A key that some entry carries is found.
pub proof fn lemma_first_value_present<V>(entries: Seq<(String, V)>, i: int)
    requires
        0 <= i < entries.len(),
    ensures
        first_value(entries, entries[i].0@) is Some,
    decreases entries.len(),
{
    if entries[0].0@ != entries[i].0@ {
        lemma_first_value_present(entries.drop_first(), i - 1);
    }
}

/// A key that is found is carried by some entry.
pub proof fn lemma_first_value_entry<V>(entries: Seq<(String, V)>, key: Seq<char>) -> (i: int)
    requires
        first_value(entries, key) is Some,
    ensures
        0 <= i < entries.len(),
        entries[i].0@ == key,
    decreases entries.len(),
{
    if entries[0].0@ == key {
        0
    } else {
        lemma_first_value_entry(entries.drop_first(), key) + 1
    }
}

/// Replacing the first entry that carries a key changes what is found under
/// that key, and nothing else.
pub proof fn lemma_first_value_update<V>(
    entries: Seq<(String, V)>,
    i: int,
    key: String,
    value: V,
    other: Seq<char>,
)
    requires
        0 <= i < entries.len(),
        entries[i].0@ == key@,
        absent_before(entries, key@, i),
    ensures
        first_value(entries.update(i, (key, value)), other) == if other == key@ {
            Some(value)
        } else {
            first_value(entries, other)
        },
    decreases i,
{
    let updated = entries.update(i, (key, value));
    if i == 0 {
        assert(updated.drop_first() =~= entries.drop_first());
    } else {
        assert(entries[0].0@ != key@);
        let rest = entries.drop_first();
        assert forall|j: int| 0 <= j < i - 1 && j < rest.len() implies (#[trigger] rest[j]).0@
            != key@ by {
            assert(rest[j] == entries[j + 1]);
        }
        lemma_first_value_update(rest, i - 1, key, value, other);
        assert(updated.drop_first() =~= rest.update(i - 1, (key, value)));
    }
}

/// An entry added at the end is found under its key where nothing was
/// found before, and changes nothing else.
pub proof fn lemma_first_value_push<V>(
    entries: Seq<(String, V)>,
    key: String,
    value: V,
    other: Seq<char>,
)
    ensures
        first_value(entries.push((key, value)), other) == match first_value(entries, other) {
            Some(found) => Some(found),
            None => if other == key@ {
                Some(value)
            } else {
                None
            },
        },
    decreases entries.len(),
{
    let pushed = entries.push((key, value));
    if entries.len() == 0 {
        assert(pushed[0] == (key, value));
        assert(pushed.drop_first().len() == 0);
        assert(first_value(pushed.drop_first(), other) is None);
    } else {
        lemma_first_value_push(entries.drop_first(), key, value, other);
        assert(pushed[0] == entries[0]);
        assert(pushed.drop_first() =~= entries.drop_first().push((key, value)));
    }
}

/// A table from strings to values, kept as a list of entries.
///
/// A lookup returns the first entry with the key, so the table has a
/// meaning whatever its entries are; `insert` keeps the keys distinct.
#[derive(Clone, Debug)]
pub struct StringTable<V> {
    pub entries: Vec<(String, V)>,
}

impl<V> View for StringTable<V> {
    type V = Map<Seq<char>, V>;

    open spec fn view(&self) -> Map<Seq<char>, V> {
        Map::new(
            |k: Seq<char>| first_value(self.entries@, k) is Some,
            |k: Seq<char>| first_value(self.entries@, k)->0,
        )
    }
}

impl<V> StringTable<V> {
    /// No key occurs in two entries.
    pub open spec fn distinct_keys(&self) -> bool {
        forall|i: int, j: int|
            0 <= i < j < self.entries@.len() ==> (#[trigger] self.entries@[i]).0@ != (
            #[trigger] self.entries@[j]).0@
    }

    /// The key of every entry is a key of the table.
    pub proof fn lemma_entry_key(&self, i: int)
        requires
            0 <= i < self.entries@.len(),
        ensures
            self@.contains_key(self.entries@[i].0@),
    {
        lemma_first_value_present(self.entries@, i);
    }

    /// Every key of the table is the key of an entry.
    pub proof fn lemma_key_entry(&self, key: Seq<char>) -> (i: int)
        requires
            self@.contains_key(key),
        ensures
            0 <= i < self.entries@.len(),
            self.entries@[i].0@ == key,
    {
        lemma_first_value_entry(self.entries@, key)
    }

    /// The empty table.
    pub fn new() -> (table: Self)
        ensures
            table@ == Map::<Seq<char>, V>::empty(),
            table.entries@.len() == 0,
            table.distinct_keys(),
    {
        let table = StringTable { entries: Vec::new() };
        assert(table@ =~= Map::<Seq<char>, V>::empty());
        table
    }

    /// Stores `value` under `key`, in place of what was stored there
    /// before, if anything was.
    pub fn insert(&mut self, key: String, value: V)
        ensures
            final(self)@ == old(self)@.insert(key@, value),
            old(self).distinct_keys() ==> final(self).distinct_keys(),
    {
        let ghost before = self.entries@;
        match self.position(key.as_str()) {
            Some(i) => {
                proof {
                    assert forall|other: Seq<char>|
                        first_value(before.update(i as int, (key, value)), other) == if other
                            == key@ {
                            Some(value)
                        } else {
                            first_value(before, other)
                        } by {
                        lemma_first_value_update(before, i as int, key, value, other);
                    }
                }
                self.entries.set(i, (key, value));
            },
            None => {
                proof {
                    assert forall|other: Seq<char>|
                        first_value(before.push((key, value)), other) == match first_value(
                            before,
                            other,
                        ) {
                            Some(found) => Some(found),
                            None => if other == key@ {
                                Some(value)
                            } else {
                                None
                            },
                        } by {
                        lemma_first_value_push(before, key, value, other);
                    }
                }
                self.entries.push((key, value));
            },
        }
        assert(self@ =~= old(self)@.insert(key@, value));
    }

    /// The position of the first entry with `key`, if there is one.
    pub fn position(&self, key: &str) -> (found: Option<usize>)
        ensures
            match found {
                Some(i) => i < self.entries@.len() && self.entries@[i as int].0@ == key@
                    && absent_before(self.entries@, key@, i as int)
                    && first_value(self.entries@, key@) == Some(self.entries@[i as int].1),
                None => absent_before(self.entries@, key@, self.entries@.len() as int)
                    && first_value(self.entries@, key@) is None,
            },
    {
        let mut i: usize = 0;
        while i < self.entries.len()
            invariant
                i <= self.entries@.len(),
                absent_before(self.entries@, key@, i as int),
            decreases self.entries@.len() - i,
        {
            if self.entries[i].0.as_str().eq(key) {
                proof {
                    lemma_first_value_skip(self.entries@, key@, i as int);
                }
                return Some(i);
            }
            i += 1;
        }
        proof {
            lemma_first_value_skip(self.entries@, key@, self.entries@.len() as int);
        }
        None
    }

    /// The value stored under `key`.
    pub fn get(&self, key: &str) -> (value: Option<&V>)
        ensures
            match value {
                Some(v) => self@.contains_key(key@) && *v == self@[key@],
                None => !self@.contains_key(key@),
            },
    {
        match self.position(key) {
            Some(i) => Some(&self.entries[i].1),
            None => None,
        }
    }

    /// Whether a value is stored under `key`.
    pub fn contains_key(&self, key: &str) -> (present: bool)
        ensures
            present == self@.contains_key(key@),
    {
        self.position(key).is_some()
    }
}

} // verus!
