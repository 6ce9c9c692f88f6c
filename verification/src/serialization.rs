//! Rendering of values as JSON text into a byte buffer.
//!
//! Every function here takes the buffer and the cursor, writes its text at the
//! cursor and returns the new cursor, or fails with [`SerializationError`] when
//! the text does not fit. What is written is described in the module
//! `json_text`, what a write does to the buffer in the module `buffer`.

use crate::buffer::{
    emitted, lemma_overwrite_keeps, lemma_overwrite_nothing, lemma_overwrite_twice,
    lemma_rendering_is_deterministic, overwrite, write_raw,
};
use crate::json_text::{
    array_prefix, array_text, bytes_of, decimal_text, digits_text, key_text,
    lemma_array_prefix_grows, lemma_literals, lemma_literals_sign, members_text,
    optional_field_text, quoted,
};
use crate::steps::{lemma_array_closed, lemma_array_opened, lemma_item_written};
use vstd::prelude::*;

verus! {

/// The one failure of rendering: the buffer is too small for the text.
#[derive(Debug, Clone, Copy, PartialEq, Eq)]
pub struct SerializationError;

/// A text that is written as it stands.
pub trait JsonString: View<V = Seq<char>> {
    /// Writes the bytes of the text at the cursor. The call succeeds exactly
    /// when the bytes fit between the cursor and the end of the buffer; a
    /// cursor behind the end of the buffer fails even where the text is
    /// empty.
    fn to_json_string(&self, buf: &mut [u8], index: usize) -> (r: Result<
        usize,
        SerializationError,
    >)
        ensures
            r is Ok <==> index + bytes_of(self@).len() <= old(buf)@.len(),
            index <= old(buf)@.len() || bytes_of(self@).len() > 0 ==> emitted(
                old(buf)@,
                final(buf)@,
                index,
                bytes_of(self@),
                r,
            ),
    ;
}

impl JsonString for str {
    fn to_json_string(&self, buf: &mut [u8], index: usize) -> (r: Result<
        usize,
        SerializationError,
    >) {
        let bytes = self.as_bytes();
        assert(bytes@ == bytes_of(self@));
        write_raw(buf, index, bytes)
    }
}

/// A value with a JSON text.
pub trait JsonValue {
    /// The JSON text of the value.
    spec fn json_value(&self) -> Seq<u8>;

    /// Writes the JSON text of the value at the cursor.
    fn to_json_value(&self, buf: &mut [u8], index: usize) -> (r: Result<
        usize,
        SerializationError,
    >)
        ensures
            emitted(old(buf)@, final(buf)@, index, self.json_value(), r),
    ;
}

impl JsonValue for str {
    open spec fn json_value(&self) -> Seq<u8> {
        quoted(bytes_of(self@))
    }

    fn to_json_value(&self, buf: &mut [u8], index: usize) -> (r: Result<
        usize,
        SerializationError,
    >) {
        broadcast use lemma_overwrite_keeps, lemma_overwrite_twice;

        proof {
            lemma_literals();
            assert(self.json_value() == quoted(bytes_of(self@)));
        }
        let mut index = "\"".to_json_string(buf, index)?;
        index = self.to_json_string(buf, index)?;
        index = "\"".to_json_string(buf, index)?;
        Ok(index)
    }
}

impl JsonValue for bool {
    open spec fn json_value(&self) -> Seq<u8> {
        if *self {
            bytes_of("true"@)
        } else {
            bytes_of("false"@)
        }
    }

    fn to_json_value(&self, buf: &mut [u8], index: usize) -> (r: Result<
        usize,
        SerializationError,
    >) {
        proof {
            lemma_literals();
        }
        assert(self.json_value() == if *self {
            bytes_of("true"@)
        } else {
            bytes_of("false"@)
        });
        if *self {
            "true".to_json_string(buf, index)
        } else {
            "false".to_json_string(buf, index)
        }
    }
}

/// A text that can stand as the key of a member.
pub trait JsonKey: View<V = Seq<char>> {
    /// Writes the quoted key and the colon behind it.
    fn to_json_key(&self, buf: &mut [u8], index: usize) -> (r: Result<
        usize,
        SerializationError,
    >)
        ensures
            emitted(old(buf)@, final(buf)@, index, key_text(bytes_of(self@)), r),
    ;
}

impl JsonKey for str {
    fn to_json_key(&self, buf: &mut [u8], index: usize) -> (r: Result<
        usize,
        SerializationError,
    >) {
        broadcast use lemma_overwrite_keeps, lemma_overwrite_twice;

        proof {
            lemma_literals();
        }
        let mut index = index;
        index = self.to_json_value(buf, index)?;
        index = ":".to_json_string(buf, index)?;
        Ok(index)
    }
}

/// A value that can stand as a field of a record.
pub trait SerializableField {
    /// The JSON text of the field's value, or `None` where the field is absent.
    spec fn field_value(&self) -> Option<Seq<u8>>;

    /// Writes the field as a member `"key":value`, behind a comma where
    /// `has_previous` is set. An absent field writes nothing and returns the
    /// cursor as it was.
    fn serialize_field(&self, key: &str, buf: &mut [u8], index: usize, has_previous: bool) -> (r:
        Result<usize, SerializationError>)
        ensures
            emitted(
                old(buf)@,
                final(buf)@,
                index,
                optional_field_text(bytes_of(key@), self.field_value(), has_previous),
                r,
            ),
    ;
}

impl<T: JsonValue> SerializableField for T {
    open spec fn field_value(&self) -> Option<Seq<u8>> {
        Some(self.json_value())
    }

    fn serialize_field(&self, key: &str, buf: &mut [u8], index: usize, has_previous: bool) -> (r:
        Result<usize, SerializationError>) {
        broadcast use lemma_overwrite_keeps, lemma_overwrite_twice;

        proof {
            lemma_literals();
            reveal(optional_field_text);
            assert(self.field_value() == Some(self.json_value()));
        }
        let mut index = index;
        if has_previous {
            index = ",".to_json_string(buf, index)?;
        }
        index = key.to_json_key(buf, index)?;
        index = self.to_json_value(buf, index)?;
        Ok(index)
    }
}

impl<T: JsonValue> SerializableField for Option<T> {
    open spec fn field_value(&self) -> Option<Seq<u8>> {
        match self {
            Some(value) => Some(value.json_value()),
            None => None,
        }
    }

    fn serialize_field(&self, key: &str, buf: &mut [u8], index: usize, has_previous: bool) -> (r:
        Result<usize, SerializationError>) {
        broadcast use lemma_overwrite_keeps, lemma_overwrite_twice, lemma_overwrite_nothing;

        proof {
            lemma_literals();
            reveal(optional_field_text);
            assert(self.field_value() == match self {
                Some(value) => Some(value.json_value()),
                None => None,
            });
        }
        let mut index = index;
        if let Some(value) = self {
            if has_previous {
                index = ",".to_json_string(buf, index)?;
            }
            index = key.to_json_key(buf, index)?;
            index = value.to_json_value(buf, index)?;
        }
        Ok(index)
    }
}

impl JsonValue for String {
    open spec fn json_value(&self) -> Seq<u8> {
        quoted(bytes_of(self@))
    }

    fn to_json_value(&self, buf: &mut [u8], index: usize) -> (r: Result<
        usize,
        SerializationError,
    >) {
        let text = self.as_str();
        assert(self.json_value() == text.json_value());
        text.to_json_value(buf, index)
    }
}

impl<'a, T: JsonValue + ?Sized> JsonValue for &'a T {
    open spec fn json_value(&self) -> Seq<u8> {
        (**self).json_value()
    }

    fn to_json_value(&self, buf: &mut [u8], index: usize) -> (r: Result<
        usize,
        SerializationError,
    >) {
        assert(self.json_value() == (**self).json_value());
        (**self).to_json_value(buf, index)
    }
}

/// Writes the decimal digits of `n` at the cursor.
pub fn write_digits(buf: &mut [u8], index: usize, n: u64) -> (r: Result<usize, SerializationError>)
    ensures
        emitted(old(buf)@, final(buf)@, index, digits_text(n as nat), r),
    decreases n,
{
    broadcast use lemma_overwrite_keeps, lemma_overwrite_twice;

    let mut cursor = index;
    if n >= 10 {
        cursor = write_digits(buf, cursor, n / 10)?;
    }
    let digit: [u8; 1] = [0x30u8 + (n % 10) as u8];
    let last = digit.as_slice();
    assert(last@ =~= seq![(0x30 + n % 10) as u8]);
    write_raw(buf, cursor, last)
}

impl JsonValue for u64 {
    open spec fn json_value(&self) -> Seq<u8> {
        decimal_text(*self as int)
    }

    fn to_json_value(&self, buf: &mut [u8], index: usize) -> (r: Result<
        usize,
        SerializationError,
    >) {
        assert(self.json_value() == digits_text(*self as nat));
        write_digits(buf, index, *self)
    }
}

impl JsonValue for i64 {
    open spec fn json_value(&self) -> Seq<u8> {
        decimal_text(*self as int)
    }

    fn to_json_value(&self, buf: &mut [u8], index: usize) -> (r: Result<
        usize,
        SerializationError,
    >) {
        broadcast use lemma_overwrite_keeps;

        assert(self.json_value() == decimal_text(*self as int));
        if *self < 0 {
            let magnitude: u64 = (-(*self + 1)) as u64 + 1;
            proof {
                lemma_literals_sign();
                lemma_overwrite_twice(
                    buf@,
                    index as int,
                    seq![0x2du8],
                    index + 1,
                    digits_text(magnitude as nat),
                );
            }
            let cursor = "-".to_json_string(buf, index)?;
            write_digits(buf, cursor, magnitude)
        } else {
            write_digits(buf, index, *self as u64)
        }
    }
}

/// The JSON texts of the values of a sequence, in its order.
pub open spec fn rendered<T: JsonValue>(values: Seq<T>) -> Seq<Seq<u8>> {
    Seq::new(values.len(), |i: int| values[i].json_value())
}

/// The members that the entries of an association are written as: each key
/// with the JSON text of its value, in the order of the entries.
pub open spec fn rendered_members<T: JsonValue>(entries: Seq<(Seq<char>, T)>) -> Seq<
    (Seq<u8>, Seq<u8>),
> {
    Seq::new(entries.len(), |i: int| (bytes_of(entries[i].0), entries[i].1.json_value()))
}

impl<T: JsonValue> JsonValue for Vec<T> {
    open spec fn json_value(&self) -> Seq<u8> {
        array_text(rendered(self@))
    }

    fn to_json_value(&self, buf: &mut [u8], index: usize) -> (r: Result<
        usize,
        SerializationError,
    >) {
        proof {
            lemma_literals();
            lemma_array_opened(buf@, index as int);
            assert(self.json_value() == array_text(rendered(self@)));
        }
        let ghost items = rendered(self@);
        let mut cursor = "[".to_json_string(buf, index)?;
        let mut i: usize = 0;
        while i < self.len()
            invariant
                i <= self@.len(),
                items == rendered(self@),
                buf@.len() == old(buf)@.len(),
                index + array_prefix(items.take(i as int)).len() == cursor <= buf@.len(),
                buf@ == overwrite(old(buf)@, index as int, array_prefix(items.take(i as int))),
            decreases self@.len() - i,
        {
            let ghost done = items.take(i as int);
            proof {
                lemma_literals();
                assert(items.take(i as int + 1) =~= done.push(items[i as int]));
                assert(items.take(items.len() as int) =~= items);
                lemma_array_prefix_grows(items, i as int + 1, items.len() as int);
                lemma_item_written(old(buf)@, index as int, done, items[i as int]);
                lemma_overwrite_keeps(old(buf)@, index as int, array_prefix(done));
            }
            if i > 0 {
                cursor = ",".to_json_string(buf, cursor)?;
                proof {
                    lemma_overwrite_keeps(
                        overwrite(old(buf)@, index as int, array_prefix(done)),
                        cursor - 1,
                        seq![0x2cu8],
                    );
                }
            }
            cursor = self[i].to_json_value(buf, cursor)?;
            i += 1;
        }
        proof {
            assert(items.take(i as int) =~= items);
            lemma_array_closed(old(buf)@, index as int, items);
            lemma_overwrite_keeps(old(buf)@, index as int, array_prefix(items));
        }
        cursor = "]".to_json_string(buf, cursor)?;
        Ok(cursor)
    }
}

/// A record whose members can be inlined into the object of another record.
pub trait NestedJsonValue {
    /// The members that the record contributes.
    spec fn members(&self) -> Seq<(Seq<u8>, Seq<u8>)>;

    /// Writes the members at the cursor, without braces, behind a comma where
    /// `has_previous` is set and there is a member to write.
    fn to_nested_json_value(&self, buf: &mut [u8], index: usize, has_previous: bool) -> (r: Result<
        usize,
        SerializationError,
    >)
        ensures
            emitted(old(buf)@, final(buf)@, index, members_text(self.members(), has_previous), r),
    ;
}

/// A value that can be rendered as a JSON document of its own.
pub trait ToJson {
    /// The JSON document.
    spec fn json(&self) -> Seq<u8>;

    /// Writes the document at the start of the buffer and returns its length.
    /// The call succeeds exactly when the buffer is at least as long as the
    /// document.
    fn to_json(&self, buf: &mut [u8]) -> (r: Result<usize, SerializationError>)
        ensures
            emitted(old(buf)@, final(buf)@, 0, self.json(), r),
            r is Ok <==> self.json().len() <= old(buf)@.len(),
    ;
}

/// Rendering one value twice, into buffers of the same length and at the
/// same cursor, gives the same result and the same text both times.
pub proof fn lemma_same_value_same_text<T: JsonValue>(
    value: &T,
    at: usize,
    first: Seq<u8>,
    first_after: Seq<u8>,
    first_result: Result<usize, SerializationError>,
    second: Seq<u8>,
    second_after: Seq<u8>,
    second_result: Result<usize, SerializationError>,
)
    requires
        first.len() == second.len(),
        emitted(first, first_after, at, value.json_value(), first_result),
        emitted(second, second_after, at, value.json_value(), second_result),
    ensures
        first_result == second_result,
        first_result is Ok && value.json_value().len() > 0 ==> first_after.subrange(
            at as int,
            at + value.json_value().len(),
        ) == second_after.subrange(at as int, at + value.json_value().len()),
{
    lemma_rendering_is_deterministic(
        value.json_value(),
        at,
        first,
        first_after,
        first_result,
        second,
        second_after,
        second_result,
    );
}

impl<T: JsonValue> ToJson for T {
    open spec fn json(&self) -> Seq<u8> {
        self.json_value()
    }

    fn to_json(&self, buf: &mut [u8]) -> (r: Result<usize, SerializationError>) {
        assert(self.json() == self.json_value());
        self.to_json_value(buf, 0)
    }
}

} // verus!
