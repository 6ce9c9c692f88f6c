//! The collections that the records are built from.
//!
//! [`array::Array`] and [`map::LinkedMap`] live in nodes that the caller
//! owns and need no heap. Where a heap is at hand, a `Vec` serves as a
//! sequence and [`VecMap`] as an association.

pub mod array;
pub mod map;

use crate::buffer::{lemma_overwrite_keeps, overwrite};
use crate::json_text::{
    bytes_of, lemma_literals, lemma_object_prefix_grows, lemma_object_prefix_push, object_prefix,
    object_text,
};
use crate::serialization::{
    rendered_members, JsonString, JsonValue, SerializableField, SerializationError,
};
use crate::steps::{lemma_member_written, lemma_object_closed, lemma_object_opened};
use vstd::prelude::*;
use vstd::std_specs::iter::IteratorSpec;

verus! {

/// A sequence on the heap.
pub type Array<T> = Vec<T>;

/// An association on the heap: a list of entries, each a key and its value,
/// in the order in which they were inserted.
#[derive(Debug, Default)]
pub struct VecMap<'a, T> {
    entries: Vec<(&'a str, T)>,
}

/// The entries of a list, each key as the text it holds.
pub open spec fn entries_of<'a, T>(list: Seq<(&'a str, T)>) -> Seq<(Seq<char>, T)> {
    Seq::new(list.len(), |i: int| (list[i].0@, list[i].1))
}

/// The index of the first entry at or behind `from` that has the key.
pub open spec fn index_of<T>(entries: Seq<(Seq<char>, T)>, key: Seq<char>, from: int) -> Option<
    int,
>
    decreases entries.len() - from,
{
    if from < 0 || from >= entries.len() {
        None
    } else if entries[from].0 == key {
        Some(from)
    } else {
        index_of(entries, key, from + 1)
    }
}

/// What [`index_of`] finds is the first entry with the key, and it finds
/// nothing only where no entry has the key.
pub proof fn lemma_index_of_is_first<T>(entries: Seq<(Seq<char>, T)>, key: Seq<char>, from: int)
    requires
        0 <= from,
    ensures
        match index_of(entries, key, from) {
            Some(i) => {
                &&& from <= i < entries.len()
                &&& entries[i].0 == key
                &&& forall|j: int| from <= j < i ==> entries[j].0 != key
            },
            None => forall|j: int| from <= j < entries.len() ==> entries[j].0 != key,
        },
    decreases entries.len() - from,
{
    if from < entries.len() && entries[from].0 != key {
        lemma_index_of_is_first(entries, key, from + 1);
    }
}

/// How many entries have the key.
pub open spec fn occurrences<T>(entries: Seq<(Seq<char>, T)>, key: Seq<char>) -> nat
    decreases entries.len(),
{
    if entries.len() == 0 {
        0
    } else {
        occurrences(entries.drop_last(), key) + if entries.last().0 == key {
            1nat
        } else {
            0nat
        }
    }
}

/// The entries after `key` has been given `value`: the first entry with the
/// key, if there is one, is taken out, and the new entry is put at the end.
pub open spec fn inserted<T>(entries: Seq<(Seq<char>, T)>, key: Seq<char>, value: T) -> Seq<
    (Seq<char>, T),
> {
    match index_of(entries, key, 0) {
        Some(i) => entries.remove(i).push((key, value)),
        None => entries.push((key, value)),
    }
}

/// No entry has the key exactly where the key occurs zero times.
pub proof fn lemma_occurrences_none<T>(entries: Seq<(Seq<char>, T)>, key: Seq<char>)
    ensures
        occurrences(entries, key) == 0 <==> forall|j: int|
            0 <= j < entries.len() ==> entries[j].0 != key,
    decreases entries.len(),
{
    if entries.len() > 0 {
        let front = entries.drop_last();
        lemma_occurrences_none(front, key);
        assert(forall|j: int| 0 <= j < front.len() ==> front[j] == entries[j]);
        if occurrences(entries, key) == 0 {
            assert forall|j: int| 0 <= j < entries.len() implies entries[j].0 != key by {
                if j < front.len() {
                    assert(front[j].0 != key);
                }
            }
        }
    }
}

/// Taking an entry out lowers the count of its key by one and leaves the
/// count of every other key as it was.
pub proof fn lemma_occurrences_remove<T>(entries: Seq<(Seq<char>, T)>, key: Seq<char>, i: int)
    requires
        0 <= i < entries.len(),
    ensures
        occurrences(entries, key) == occurrences(entries.remove(i), key) + if entries[i].0 == key {
            1nat
        } else {
            0nat
        },
    decreases entries.len(),
{
    let front = entries.drop_last();
    if i == entries.len() - 1 {
        assert(entries.remove(i) =~= front);
    } else {
        lemma_occurrences_remove(front, key, i);
        assert(entries.remove(i).drop_last() =~= front.remove(i));
        assert(entries.remove(i).last() == entries.last());
    }
}

/// Inserting a value for a key that occurs at most once leaves exactly one
/// entry for that key, and that entry holds the new value. Where the key was
/// present the number of entries stays the same; where it was not, it grows
/// by one.
pub proof fn lemma_insert_replaces<T>(entries: Seq<(Seq<char>, T)>, key: Seq<char>, value: T)
    requires
        occurrences(entries, key) <= 1,
    ensures
        occurrences(inserted(entries, key, value), key) == 1,
        forall|j: int|
            0 <= j < inserted(entries, key, value).len() && inserted(entries, key, value)[j].0
                == key ==> inserted(entries, key, value)[j].1 == value,
        index_of(entries, key, 0) is Some <==> occurrences(entries, key) == 1,
        index_of(entries, key, 0) is Some ==> inserted(entries, key, value).len()
            == entries.len(),
        index_of(entries, key, 0) is None ==> inserted(entries, key, value).len() == entries.len()
            + 1,
{
    lemma_index_of_is_first(entries, key, 0);
    lemma_occurrences_none(entries, key);
    let after = inserted(entries, key, value);
    let rest = match index_of(entries, key, 0) {
        Some(i) => entries.remove(i),
        None => entries,
    };
    match index_of(entries, key, 0) {
        Some(i) => {
            lemma_occurrences_remove(entries, key, i);
        },
        None => {},
    }
    assert(after == rest.push((key, value)));
    assert(after.drop_last() =~= rest);
    assert(occurrences(rest, key) == 0);
    lemma_occurrences_none(rest, key);
    assert forall|j: int| 0 <= j < after.len() && after[j].0 == key implies after[j].1
        == value by {
        if j < rest.len() {
            assert(rest[j].0 != key);
        }
    }
}

/// Whether two texts are the same, byte by byte.
pub fn same_text(a: &str, b: &str) -> (r: bool)
    ensures
        r == (a@ == b@),
{
    let x = a.as_bytes();
    let y = b.as_bytes();
    proof {
        vstd::utf8::encode_utf8_decode_utf8(a@);
        vstd::utf8::encode_utf8_decode_utf8(b@);
        assert(x@ == bytes_of(a@));
        assert(y@ == bytes_of(b@));
    }
    if x.len() != y.len() {
        return false;
    }
    let mut i: usize = 0;
    while i < x.len()
        invariant
            i <= x@.len(),
            x@.len() == y@.len(),
            x@ == bytes_of(a@),
            y@ == bytes_of(b@),
            forall|k: int| 0 <= k < i ==> x@[k] == y@[k],
        decreases x@.len() - i,
    {
        if x[i] != y[i] {
            return false;
        }
        i += 1;
    }
    assert(x@ =~= y@);
    true
}

impl<'a, T> VecMap<'a, T> {
    /// The entries in order, each a key and its value.
    pub closed spec fn view(&self) -> Seq<(Seq<char>, T)> {
        entries_of(self.entries@)
    }

    /// The association that holds the given entries in the given order.
    /// Entries that share a key are all kept.
    pub fn new(entries: Vec<(&'a str, T)>) -> (r: Self)
        ensures
            r@ == entries_of(entries@),
    {
        VecMap { entries }
    }

    /// A traversal of the entries in order. Every call yields the same
    /// entries in the same order.
    pub fn iter(&'a self) -> (r: core::slice::Iter<'a, (&'a str, T)>)
        ensures
            r.remaining().len() == self@.len(),
            forall|i: int|
                0 <= i < self@.len() ==> (#[trigger] r.remaining()[i]).0@ == self@[i].0
                    && r.remaining()[i].1 == self@[i].1,
    {
        self.entries.iter()
    }

    /// The number of entries.
    pub fn len(&self) -> (r: usize)
        ensures
            r == self@.len(),
    {
        self.entries.len()
    }

    /// The value of the first entry with the key.
    pub fn find_value(&mut self, key: &'a str) -> (r: Option<&T>)
        ensures
            final(self)@ == old(self)@,
            match index_of(old(self)@, key@, 0) {
                Some(i) => r == Some(&old(self)@[i].1),
                None => r is None,
            },
    {
        let mut i: usize = 0;
        while i < self.entries.len()
            invariant
                i <= self.entries@.len(),
                index_of(self@, key@, 0) == index_of(self@, key@, i as int),
            decreases self.entries@.len() - i,
        {
            if same_text(self.entries[i].0, key) {
                return Some(&self.entries[i].1);
            }
            i += 1;
        }
        None
    }

    /// The index of the first entry with the key.
    pub fn find_index(&mut self, key: &'a str) -> (r: Option<usize>)
        ensures
            final(self)@ == old(self)@,
            index_of(old(self)@, key@, 0) == match r {
                Some(i) => Some(i as int),
                None => None,
            },
    {
        let mut index: usize = 0;
        while index < self.entries.len()
            invariant
                index <= self.entries@.len(),
                index_of(self@, key@, 0) == index_of(self@, key@, index as int),
            decreases self.entries@.len() - index,
        {
            if same_text(self.entries[index].0, key) {
                return Some(index);
            }
            index = index + 1;
        }
        None
    }

    /// Gives `key` the value `value`. The first entry with the key, if there
    /// is one, is taken out and its value returned; the new entry is put at
    /// the end.
    pub fn insert(&mut self, key: &'a str, value: T) -> (r: Option<T>)
        ensures
            final(self)@ == inserted(old(self)@, key@, value),
            match index_of(old(self)@, key@, 0) {
                Some(i) => r == Some(old(self)@[i].1),
                None => r is None,
            },
    {
        let mut removed: Option<T> = None;
        let index = self.find_index(key);
        proof {
            lemma_index_of_is_first(self@, key@, 0);
        }
        if let Some(index) = index {
            assert(index_of(old(self)@, key@, 0) == Some(index as int));
            removed = Some(self.entries.remove(index).1);
            assert(entries_of(self.entries@) =~= old(self)@.remove(index as int));
        }
        let ghost rest = self@;
        assert(rest == match index_of(old(self)@, key@, 0) {
            Some(i) => old(self)@.remove(i),
            None => old(self)@,
        });
        self.entries.push((key, value));
        assert(self@ =~= rest.push((key@, value)));
        removed
    }
}

impl<'a, T: JsonValue> JsonValue for VecMap<'a, T> {
    open spec fn json_value(&self) -> Seq<u8> {
        object_text(rendered_members(self@))
    }

    fn to_json_value(&self, buf: &mut [u8], index: usize) -> (r: Result<
        usize,
        SerializationError,
    >) {
        let ghost members = rendered_members(self@);
        proof {
            lemma_literals();
            assert(self.json_value() == object_text(members));
            let m = lemma_object_opened(buf@, index as int);
            assert(members.take(0) =~= m);
        }
        let mut cursor = "{".to_json_string(buf, index)?;
        let mut i: usize = 0;
        while i < self.entries.len()
            invariant
                i <= self.entries@.len(),
                members == rendered_members(self@),
                buf@.len() == old(buf)@.len(),
                index + object_prefix(members.take(i as int)).len() == cursor <= buf@.len(),
                buf@ == overwrite(old(buf)@, index as int, object_prefix(members.take(i as int))),
            decreases self.entries@.len() - i,
        {
            proof {
                let front = members.take(i as int);
                assert(members[i as int] == (
                    bytes_of(self.entries@[i as int].0@),
                    self.entries@[i as int].1.json_value(),
                ));
                assert(members.take(i as int + 1) =~= front.push(members[i as int]));
                assert(members.take(members.len() as int) =~= members);
                lemma_object_prefix_grows(members, i as int + 1, members.len() as int);
                lemma_object_prefix_push(front, members[i as int]);
                lemma_member_written(old(buf)@, index as int, front, members[i as int]);
                lemma_overwrite_keeps(old(buf)@, index as int, object_prefix(front));
            }
            cursor = self.entries[i].1.serialize_field(self.entries[i].0, buf, cursor, i > 0)?;
            i += 1;
        }
        proof {
            lemma_literals();
            assert(members.take(i as int) =~= members);
            lemma_object_closed(old(buf)@, index as int, members);
            lemma_overwrite_keeps(old(buf)@, index as int, object_prefix(members));
        }
        cursor = "}".to_json_string(buf, cursor)?;
        Ok(cursor)
    }
}

} // verus!
