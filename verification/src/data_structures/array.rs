//! A sequence that lives in nodes which the caller owns.
//!
//! Each node holds one value and a reference to the node behind it. A node
//! can only refer to a node that was made before it, so a chain never
//! closes into a cycle. A sequence grows at its head: the value added last
//! comes first.

use crate::buffer::{emitted, lemma_overwrite_keeps, overwrite};
use crate::json_text::{array_prefix, array_text, lemma_array_prefix_grows, lemma_literals};
use crate::serialization::{rendered, JsonString, JsonValue, SerializationError};
use crate::steps::{lemma_array_closed, lemma_array_opened, lemma_item_written};
use vstd::prelude::*;

verus! {

/// One node of a sequence: a value and the rest of the sequence.
#[derive(Debug, Default)]
pub struct ArrayEntry<'a, T> {
    value: T,
    next: Option<&'a ArrayEntry<'a, T>>,
}

/// A sequence: a handle on its first node, or on nothing if it is empty.
#[derive(Debug, Default)]
pub struct Array<'a, T> {
    first: Option<&'a ArrayEntry<'a, T>>,
}

/// A traversal of a sequence from some node to the end.
pub struct Iter<'a, T> {
    current: Option<&'a ArrayEntry<'a, T>>,
}

impl<'a, T> ArrayEntry<'a, T> {
    /// The values from this node to the end of the chain.
    pub closed spec fn view(&self) -> Seq<T>
        decreases self,
    {
        match self.next {
            Some(next) => seq![self.value] + next.view(),
            None => seq![self.value],
        }
    }

    /// Every value of a chain is a part of its first node, so that a function
    /// that descends from a value to the values inside it terminates.
    pub proof fn lemma_values_decrease(&self, i: int)
        requires
            0 <= i < self@.len(),
        ensures
            decreases_to!(self => self@[i]),
        decreases self,
    {
        match self.next {
            Some(next) => {
                if i > 0 {
                    next.lemma_values_decrease(i - 1);
                    assert(self@[i] == next@[i - 1]);
                }
            },
            None => {},
        }
    }

    /// A node that stands alone.
    pub fn new(value: T) -> (r: Self)
        ensures
            r@ == seq![value],
    {
        ArrayEntry { value, next: None }
    }

    /// A node in front of the chain that starts at `next`.
    pub fn add(value: T, next: &'a ArrayEntry<'a, T>) -> (r: Self)
        ensures
            r@ == seq![value] + next@,
    {
        ArrayEntry { value, next: Some(next) }
    }

    /// A traversal of the chain that starts at this node.
    pub fn iter(&'a self) -> (r: Iter<'a, T>)
        ensures
            r@ == self@,
    {
        Iter { current: Some(self) }
    }
}

impl<'a, T> Array<'a, T> {
    /// The values of the sequence, first to last.
    pub closed spec fn view(&self) -> Seq<T> {
        match self.first {
            Some(first) => first.view(),
            None => Seq::empty(),
        }
    }

    /// Every value of a sequence is a part of it, so that a function that
    /// descends from a value to the values inside it terminates.
    pub proof fn lemma_values_decrease(&self, i: int)
        requires
            0 <= i < self@.len(),
        ensures
            decreases_to!(self => self@[i]),
    {
        match self.first {
            Some(first) => {
                first.lemma_values_decrease(i);
            },
            None => {},
        }
    }

    /// The empty sequence.
    pub fn new() -> (r: Self)
        ensures
            r@ == Seq::<T>::empty(),
    {
        Array { first: None }
    }

    /// Puts the node `next` in front of the sequence. Whatever chain hung on
    /// `next` before is let go.
    pub fn add(self, next: &'a mut ArrayEntry<'a, T>) -> (r: Self)
        ensures
            r@ == seq![old(next)@[0]] + self@,
            final(next)@ == r@,
    {
        let mut list = self;
        next.next = list.first;
        list.first = Some(next);
        proof {
            assert(old(next)@[0] == old(next).value);
        }
        list
    }

    /// A node that stands alone, ready to be added.
    pub fn new_entry(value: T) -> (r: ArrayEntry<'a, T>)
        ensures
            r@ == seq![value],
    {
        ArrayEntry { value, next: None }
    }

    /// A fresh traversal from the head. Every call yields the same values in
    /// the same order.
    pub fn iter(&'a self) -> (r: Iter<'a, T>)
        ensures
            r@ == self@,
    {
        Iter { current: self.first }
    }
}

impl<'a, T> Iter<'a, T> {
    /// The values that the traversal has yet to yield, in order.
    pub closed spec fn view(&self) -> Seq<T> {
        match self.current {
            Some(node) => node.view(),
            None => Seq::empty(),
        }
    }

    /// Yields the next value, or `None` at the end.
    pub fn next(&mut self) -> (r: Option<&'a T>)
        ensures
            old(self)@.len() == 0 ==> r is None && final(self)@ == old(self)@,
            old(self)@.len() > 0 ==> r == Some(&old(self)@[0]) && final(self)@ == old(
                self,
            )@.drop_first(),
    {
        match self.current {
            Some(node) => {
                proof {
                    match node.next {
                        Some(rest) => {
                            assert((seq![node.value] + rest.view()).drop_first() =~= rest.view());
                        },
                        None => {
                            assert(seq![node.value].drop_first() =~= Seq::<T>::empty());
                        },
                    }
                }
                self.current = node.next;
                Some(&node.value)
            },
            None => None,
        }
    }
}

/// What a sequence holds after the values of `added` have been added to the
/// empty sequence one after the other: each addition puts its value in front
/// of those that were added before it.
pub open spec fn added_in_order<T>(added: Seq<T>) -> Seq<T>
    decreases added.len(),
{
    if added.len() == 0 {
        Seq::empty()
    } else {
        seq![added.last()] + added_in_order(added.drop_last())
    }
}

/// A sequence yields its values in the reverse of the order in which they
/// were added, on every traversal: the value added last comes first.
pub proof fn lemma_added_last_comes_first<T>(added: Seq<T>)
    ensures
        added_in_order(added) == added.reverse(),
    decreases added.len(),
{
    if added.len() > 0 {
        lemma_added_last_comes_first(added.drop_last());
        assert(added_in_order(added) =~= added.reverse());
    } else {
        assert(added_in_order(added) =~= added.reverse());
    }
}

/// Writes the values that `iter` yields as a JSON array.
fn write_array<'a, T: JsonValue>(iter: Iter<'a, T>, buf: &mut [u8], index: usize) -> (r: Result<
    usize,
    SerializationError,
>)
    ensures
        emitted(old(buf)@, final(buf)@, index, array_text(rendered(iter@)), r),
{
    proof {
        lemma_literals();
        lemma_array_opened(buf@, index as int);
    }
    let ghost items = rendered(iter@);
    let mut rest = iter;
    let mut cursor = "[".to_json_string(buf, index)?;
    let mut first = true;
    let ghost mut done: int = 0;
    loop
        invariant
            items == rendered(iter@),
            0 <= done <= items.len(),
            first == (done == 0),
            items.len() == done + rest@.len(),
            forall|k: int| 0 <= k < rest@.len() ==> items[done + k] == rest@[k].json_value(),
            buf@.len() == old(buf)@.len(),
            index + array_prefix(items.take(done)).len() == cursor <= buf@.len(),
            buf@ == overwrite(old(buf)@, index as int, array_prefix(items.take(done))),
        ensures
            done == items.len(),
        decreases rest@.len(),
    {
        let ghost left = rest@;
        let ghost front = items.take(done);
        match rest.next() {
            Some(value) => {
                proof {
                    lemma_literals();
                    assert(items[done] == left[0].json_value());
                    assert(items.take(done + 1) =~= front.push(items[done]));
                    assert(items.take(items.len() as int) =~= items);
                    lemma_array_prefix_grows(items, done + 1, items.len() as int);
                    lemma_item_written(old(buf)@, index as int, front, items[done]);
                    lemma_overwrite_keeps(old(buf)@, index as int, array_prefix(front));
                }
                if !first {
                    cursor = ",".to_json_string(buf, cursor)?;
                    proof {
                        lemma_overwrite_keeps(
                            overwrite(old(buf)@, index as int, array_prefix(front)),
                            cursor - 1,
                            seq![0x2cu8],
                        );
                    }
                }
                cursor = value.to_json_value(buf, cursor)?;
                first = false;
                proof {
                    done = done + 1;
                }
            },
            None => {
                break ;
            },
        }
    }
    proof {
        assert(items.take(done) =~= items);
        lemma_array_closed(old(buf)@, index as int, items);
        lemma_overwrite_keeps(old(buf)@, index as int, array_prefix(items));
    }
    cursor = "]".to_json_string(buf, cursor)?;
    Ok(cursor)
}

impl<'a, T: JsonValue> JsonValue for ArrayEntry<'a, T> {
    open spec fn json_value(&self) -> Seq<u8> {
        array_text(rendered(self@))
    }

    fn to_json_value(&self, buf: &mut [u8], index: usize) -> (r: Result<
        usize,
        SerializationError,
    >) {
        assert(self.json_value() == array_text(rendered(self@)));
        write_array(self.iter(), buf, index)
    }
}

impl<'a, T: JsonValue> JsonValue for Array<'a, T> {
    open spec fn json_value(&self) -> Seq<u8> {
        array_text(rendered(self@))
    }

    fn to_json_value(&self, buf: &mut [u8], index: usize) -> (r: Result<
        usize,
        SerializationError,
    >) {
        assert(self.json_value() == array_text(rendered(self@)));
        write_array(self.iter(), buf, index)
    }
}

} // verus!
