//! An association of keys with values that lives in nodes which the caller
//! owns.
//!
//! The nodes are linked as those of a sequence are. Keys need not be unique:
//! an association holds every entry that was added to it, the one added last
//! first, and all of them are written.

use crate::buffer::{emitted, lemma_overwrite_keeps, overwrite};
use crate::json_text::{
    bytes_of, lemma_literals, lemma_object_prefix_grows, lemma_object_prefix_push, object_prefix,
    object_text,
};
use crate::serialization::{
    rendered_members, JsonString, JsonValue, SerializableField, SerializationError,
};
use crate::steps::{lemma_member_written, lemma_object_closed, lemma_object_opened};
use vstd::prelude::*;

verus! {

/// One node of an association: a key, its value and the rest of the
/// association.
#[derive(Debug, Default)]
pub struct MapEntry<'a, T> {
    key: &'a str,
    value: T,
    next: Option<&'a MapEntry<'a, T>>,
}

/// An association: a handle on its first node, or on nothing if it is empty.
#[derive(Debug, Default)]
pub struct LinkedMap<'a, T> {
    first: Option<&'a MapEntry<'a, T>>,
}

/// A traversal of an association from some node to the end.
pub struct Iter<'a, T> {
    current: Option<&'a MapEntry<'a, T>>,
}

/// One entry as a traversal yields it.
pub struct MapItem<'a, T> {
    pub key: &'a str,
    pub value: &'a T,
}

impl<'a, T> MapEntry<'a, T> {
    /// The entries from this node to the end of the chain, each a key and
    /// its value.
    pub closed spec fn view(&self) -> Seq<(Seq<char>, T)>
        decreases self,
    {
        match self.next {
            Some(next) => seq![(self.key@, self.value)] + next.view(),
            None => seq![(self.key@, self.value)],
        }
    }

    /// Every value of a chain is a part of its first node, so that a function
    /// that descends from a value to the values inside it terminates.
    pub proof fn lemma_values_decrease(&self, i: int)
        requires
            0 <= i < self@.len(),
        ensures
            decreases_to!(self => self@[i].1),
        decreases self,
    {
        match self.next {
            Some(next) => {
                if i > 0 {
                    next.lemma_values_decrease(i - 1);
                    assert(self@[i] == next@[i - 1]);
                }
            },
            None => {},
        }
    }

    /// A node that stands alone.
    pub fn new(key: &'a str, value: T) -> (r: Self)
        ensures
            r@ == seq![(key@, value)],
    {
        MapEntry { key, value, next: None }
    }

    /// A node in front of the chain that starts at `next`.
    pub fn add(key: &'a str, value: T, next: &'a MapEntry<'a, T>) -> (r: Self)
        ensures
            r@ == seq![(key@, value)] + next@,
    {
        MapEntry { key, value, next: Some(next) }
    }

    /// A traversal of the chain that starts at this node.
    pub fn iter(&'a self) -> (r: Iter<'a, T>)
        ensures
            r@ == self@,
    {
        Iter { current: Some(self) }
    }
}

impl<'a, T> LinkedMap<'a, T> {
    /// The entries of the association, first to last.
    pub closed spec fn view(&self) -> Seq<(Seq<char>, T)> {
        match self.first {
            Some(first) => first.view(),
            None => Seq::empty(),
        }
    }

    /// Every value of an association is a part of it, so that a function
    /// that descends from a value to the values inside it terminates.
    pub proof fn lemma_values_decrease(&self, i: int)
        requires
            0 <= i < self@.len(),
        ensures
            decreases_to!(self => self@[i].1),
    {
        match self.first {
            Some(first) => {
                first.lemma_values_decrease(i);
            },
            None => {},
        }
    }

    /// The empty association.
    pub fn new() -> (r: Self)
        ensures
            r@ == Seq::<(Seq<char>, T)>::empty(),
    {
        LinkedMap { first: None }
    }

    /// Puts the node `next` in front of the association. Whatever chain hung
    /// on `next` before is let go.
    pub fn add(self, next: &'a mut MapEntry<'a, T>) -> (r: Self)
        ensures
            r@ == seq![old(next)@[0]] + self@,
            final(next)@ == r@,
    {
        let mut list = self;
        next.next = list.first;
        list.first = Some(next);
        proof {
            assert(old(next)@[0] == (old(next).key@, old(next).value));
        }
        list
    }

    /// A node that stands alone, ready to be added.
    pub fn new_entry(key: &'a str, value: T) -> (r: MapEntry<'a, T>)
        ensures
            r@ == seq![(key@, value)],
    {
        MapEntry { key, value, next: None }
    }

    /// A fresh traversal from the head. Every call yields the same entries
    /// in the same order.
    pub fn iter(&'a self) -> (r: Iter<'a, T>)
        ensures
            r@ == self@,
    {
        Iter { current: self.first }
    }
}

impl<'a, T> Iter<'a, T> {
    /// The entries that the traversal has yet to yield, in order.
    pub closed spec fn view(&self) -> Seq<(Seq<char>, T)> {
        match self.current {
            Some(node) => node.view(),
            None => Seq::empty(),
        }
    }

    /// Yields the next entry, or `None` at the end.
    pub fn next(&mut self) -> (r: Option<MapItem<'a, T>>)
        ensures
            old(self)@.len() == 0 ==> r is None && final(self)@ == old(self)@,
            old(self)@.len() > 0 ==> r is Some && r->0.key@ == old(self)@[0].0 && *r->0.value
                == old(self)@[0].1 && final(self)@ == old(self)@.drop_first(),
    {
        match self.current {
            Some(node) => {
                proof {
                    let head = (node.key@, node.value);
                    match node.next {
                        Some(rest) => {
                            assert((seq![head] + rest.view()).drop_first() =~= rest.view());
                        },
                        None => {
                            assert(seq![head].drop_first() =~= Seq::<(Seq<char>, T)>::empty());
                        },
                    }
                }
                self.current = node.next;
                Some(MapItem { key: node.key, value: &node.value })
            },
            None => None,
        }
    }
}

/// Writes the entries that `iter` yields as a JSON object.
fn write_object<'a, T: JsonValue>(iter: Iter<'a, T>, buf: &mut [u8], index: usize) -> (r: Result<
    usize,
    SerializationError,
>)
    ensures
        emitted(old(buf)@, final(buf)@, index, object_text(rendered_members(iter@)), r),
{
    let ghost members = rendered_members(iter@);
    proof {
        lemma_literals();
        let m = lemma_object_opened(buf@, index as int);
        assert(members.take(0) =~= m);
    }
    let mut rest = iter;
    let mut cursor = "{".to_json_string(buf, index)?;
    let mut first = true;
    let ghost mut done: int = 0;
    loop
        invariant
            members == rendered_members(iter@),
            0 <= done <= members.len(),
            first == (done == 0),
            members.len() == done + rest@.len(),
            forall|k: int|
                0 <= k < rest@.len() ==> members[done + k] == (
                    bytes_of(rest@[k].0),
                    rest@[k].1.json_value(),
                ),
            buf@.len() == old(buf)@.len(),
            index + object_prefix(members.take(done)).len() == cursor <= buf@.len(),
            buf@ == overwrite(old(buf)@, index as int, object_prefix(members.take(done))),
        ensures
            done == members.len(),
        decreases rest@.len(),
    {
        let ghost left = rest@;
        let ghost front = members.take(done);
        match rest.next() {
            Some(item) => {
                proof {
                    assert(members[done] == (bytes_of(left[0].0), left[0].1.json_value()));
                    assert(members.take(done + 1) =~= front.push(members[done]));
                    assert(members.take(members.len() as int) =~= members);
                    lemma_object_prefix_grows(members, done + 1, members.len() as int);
                    lemma_object_prefix_push(front, members[done]);
                    lemma_member_written(old(buf)@, index as int, front, members[done]);
                    lemma_overwrite_keeps(old(buf)@, index as int, object_prefix(front));
                }
                cursor = item.value.serialize_field(item.key, buf, cursor, !first)?;
                first = false;
                proof {
                    done = done + 1;
                }
            },
            None => {
                break ;
            },
        }
    }
    proof {
        lemma_literals();
        assert(members.take(done) =~= members);
        lemma_object_closed(old(buf)@, index as int, members);
        lemma_overwrite_keeps(old(buf)@, index as int, object_prefix(members));
    }
    cursor = "}".to_json_string(buf, cursor)?;
    Ok(cursor)
}

impl<'a, T: JsonValue> JsonValue for MapEntry<'a, T> {
    open spec fn json_value(&self) -> Seq<u8> {
        object_text(rendered_members(self@))
    }

    fn to_json_value(&self, buf: &mut [u8], index: usize) -> (r: Result<
        usize,
        SerializationError,
    >) {
        assert(self.json_value() == object_text(rendered_members(self@)));
        write_object(self.iter(), buf, index)
    }
}

impl<'a, T: JsonValue> JsonValue for LinkedMap<'a, T> {
    open spec fn json_value(&self) -> Seq<u8> {
        object_text(rendered_members(self@))
    }

    fn to_json_value(&self, buf: &mut [u8], index: usize) -> (r: Result<
        usize,
        SerializationError,
    >) {
        assert(self.json_value() == object_text(rendered_members(self@)));
        write_object(self.iter(), buf, index)
    }
}

} // verus!
