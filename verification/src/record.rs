//! Ordered records: keys in the order in which they were first inserted,
//! each bound to one value.

use vstd::prelude::*;
use crate::value::{Value, ValueView};

verus! {

/// The entries of a record as a sequence of key and value, in order.
pub type Entries = Seq<(Seq<char>, ValueView)>;

/// Whether some entry of `entries` has the key `key`.
pub open spec fn has_key(entries: Entries, key: Seq<char>) -> bool {
    exists|i: int| 0 <= i < entries.len() && (#[trigger] entries[i]).0 == key
}

/// Whether no two entries of `entries` share a key.
pub open spec fn distinct_keys(entries: Entries) -> bool {
    forall|i: int, j: int|
        0 <= i < j < entries.len() ==> (#[trigger] entries[i]).0 != (#[trigger] entries[j]).0
}

/// An index at which `entries` holds the key `key`, if there is one.
pub open spec fn position(entries: Entries, key: Seq<char>) -> int {
    choose|i: int| 0 <= i < entries.len() && (#[trigger] entries[i]).0 == key
}

/// The value bound to `key` in `entries`, if the key is present.
pub open spec fn lookup(entries: Entries, key: Seq<char>) -> Option<ValueView> {
    if has_key(entries, key) {
        Some(entries[position(entries, key)].1)
    } else {
        None
    }
}

/// `entries` after `key` has been bound to `value`: a key that is present
/// keeps its place and gets the new value, a new key goes to the end.
pub open spec fn with_entry(entries: Entries, key: Seq<char>, value: ValueView) -> Entries {
    if has_key(entries, key) {
        entries.update(position(entries, key), (key, value))
    } else {
        entries.push((key, value))
    }
}

/// Where the keys of `entries` are distinct, the entry at index `i` is the
/// one that its key is looked up to.
pub proof fn key_is_found_at(entries: Entries, i: int)
    requires
        distinct_keys(entries),
        0 <= i < entries.len(),
    ensures
        has_key(entries, entries[i].0),
        position(entries, entries[i].0) == i,
        lookup(entries, entries[i].0) == Some(entries[i].1),
{
    let key = entries[i].0;
    let j = position(entries, key);
    if j < i {
        assert(entries[j].0 != entries[i].0);
    } else if i < j {
        assert(entries[i].0 != entries[j].0);
    }
}

/// Binding a key keeps the keys distinct and the order of the keys that
/// were there, makes the key read as the new value, and leaves what every
/// other key reads as it was.
pub proof fn binding_is_read_back(entries: Entries, key: Seq<char>, value: ValueView, other: Seq<char>)
    requires
        distinct_keys(entries),
    ensures
        distinct_keys(with_entry(entries, key, value)),
        lookup(with_entry(entries, key, value), key) == Some(value),
        other != key ==> lookup(with_entry(entries, key, value), other) == lookup(entries, other),
        has_key(with_entry(entries, key, value), other) <==> other == key
            || has_key(entries, other),
        forall|i: int|
            0 <= i < entries.len() ==> (#[trigger] with_entry(entries, key, value)[i]).0
                == entries[i].0,
{
    let bound = with_entry(entries, key, value);
    let at = if has_key(entries, key) {
        position(entries, key)
    } else {
        entries.len() as int
    };
    assert(bound[at] == (key, value));
    assert forall|i: int| 0 <= i < bound.len() && i != at implies #[trigger] bound[i]
        == entries[i] by {}
    assert(distinct_keys(bound)) by {
        assert forall|i: int, j: int| 0 <= i < j < bound.len() implies (#[trigger] bound[i]).0
            != (#[trigger] bound[j]).0 by {
            if i != at && j != at {
                assert(entries[i].0 != entries[j].0);
            } else if has_key(entries, key) {
                if i == at {
                    assert(entries[i].0 != entries[j].0);
                } else {
                    assert(entries[i].0 != entries[j].0);
                }
            } else {
                assert(entries[i].0 != key);
            }
        }
    }
    key_is_found_at(bound, at);
    if other != key {
        if has_key(entries, other) {
            let i = position(entries, other);
            assert(bound[i] == entries[i]);
            key_is_found_at(entries, i);
            key_is_found_at(bound, i);
        }
        if has_key(bound, other) {
            let i = position(bound, other);
            assert(i != at);
            assert(entries[i] == bound[i]);
        }
    }
}

/// The entries of a record that may be absent.
pub open spec fn payload(record: Option<Record>) -> Option<Entries> {
    match record {
        Some(r) => Some(r@),
        None => None,
    }
}

/// The entries of the record that a call returned, or its error.
pub open spec fn outcome<E>(result: Result<Record, E>) -> Result<Entries, E> {
    match result {
        Ok(r) => Ok(r@),
        Err(e) => Err(e),
    }
}

/// The entries of the record that a call returned, where it may return
/// none, or its error.
pub open spec fn reply<E>(result: Result<Option<Record>, E>) -> Result<Option<Entries>, E> {
    match result {
        Ok(r) => Ok(payload(r)),
        Err(e) => Err(e),
    }
}

/// An ordered mapping from text keys to values, each key present once.
#[derive(Debug, PartialEq, Eq)]
pub struct Record {
    entries: Vec<(String, Value)>,
}

/// A snapshot of named sensor outputs.
pub type ReadingsResult = Record;

/// The payload of a status summary, of a command or of its response.
pub type StructuredRecord = Record;

impl View for Record {
    type V = Entries;

    closed spec fn view(&self) -> Entries {
        Seq::new(self.entries@.len(), |i: int| (self.entries@[i].0@, self.entries@[i].1@))
    }
}

impl Record {
    #[verifier::type_invariant]
    spec fn keys_are_distinct(self) -> bool {
        distinct_keys(self@)
    }

    /// The record without entries.
    pub fn new() -> (record: Record)
        ensures
            record@ == Entries::empty(),
    {
        let record = Record { entries: Vec::new() };
        assert(record@ =~= Entries::empty());
        record
    }

    /// The number of entries.
    pub fn len(&self) -> (n: usize)
        ensures
            n == self@.len(),
    {
        self.entries.len()
    }

    /// Whether the record has no entry.
    pub fn is_empty(&self) -> (empty: bool)
        ensures
            empty == (self@.len() == 0),
    {
        self.entries.len() == 0
    }

    /// The index of the entry with the key `key`, if there is one.
    fn find(&self, key: &str) -> (found: Option<usize>)
        ensures
            distinct_keys(self@),
            match found {
                Some(i) => i < self@.len() && self@[i as int].0 == key@ && has_key(self@, key@)
                    && position(self@, key@) == i,
                None => !has_key(self@, key@),
            },
    {
        proof {
            use_type_invariant(self);
        }
        let wanted: String = key.to_owned();
        let mut i: usize = 0;
        while i < self.entries.len()
            invariant
                i <= self.entries@.len(),
                wanted@ == key@,
                distinct_keys(self@),
                forall|j: int| 0 <= j < i ==> (#[trigger] self@[j]).0 != key@,
            decreases self.entries@.len() - i,
        {
            if self.entries[i].0 == wanted {
                assert(self@[i as int].0 == key@);
                return Some(i);
            }
            i += 1;
        }
        None
    }

    /// Whether the key `key` is present.
    pub fn contains_key(&self, key: &str) -> (present: bool)
        ensures
            distinct_keys(self@),
            present == has_key(self@, key@),
    {
        self.find(key).is_some()
    }

    /// The value bound to `key`, if the key is present.
    pub fn get(&self, key: &str) -> (value: Option<&Value>)
        ensures
            distinct_keys(self@),
            match lookup(self@, key@) {
                Some(v) => value matches Some(held) && held@ == v,
                None => value is None,
            },
    {
        match self.find(key) {
            Some(i) => Some(&self.entries[i].1),
            None => None,
        }
    }

    /// Binds `key` to `value`. A key that is present keeps its place in the
    /// order; a new key is put behind the others.
    pub fn insert(&mut self, key: &str, value: Value)
        ensures
            distinct_keys(old(self)@),
            distinct_keys(final(self)@),
            final(self)@ == with_entry(old(self)@, key@, value@),
    {
        let found = self.find(key);
        // The entries are taken out, changed and put back as a whole, so
        // that the record is only ever built with distinct keys.
        let mut taken = Record { entries: Vec::new() };
        assert(taken@ =~= Entries::empty());
        core::mem::swap(self, &mut taken);
        let mut entries = taken.entries;
        match found {
            Some(i) => {
                entries.set(i, (key.to_owned(), value));
            },
            None => {
                entries.push((key.to_owned(), value));
            },
        }
        let ghost bound = Seq::new(entries@.len(), |i: int| (entries@[i].0@, entries@[i].1@));
        assert(bound =~= with_entry(old(self)@, key@, value@));
        proof {
            binding_is_read_back(old(self)@, key@, value@, key@);
        }
        *self = Record { entries };
    }

    /// The key of the entry at index `i`.
    pub fn key_at(&self, i: usize) -> (key: &str)
        requires
            i < self@.len(),
        ensures
            key@ == self@[i as int].0,
    {
        self.entries[i].0.as_str()
    }

    /// The value of the entry at index `i`.
    pub fn value_at(&self, i: usize) -> (value: &Value)
        requires
            i < self@.len(),
        ensures
            value@ == self@[i as int].1,
    {
        &self.entries[i].1
    }
}

} // verus!
