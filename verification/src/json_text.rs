//! The JSON text of values, as sequences of bytes.
//!
//! Texts are compact: no white space stands between their parts. Strings are
//! written as they are, between quotes and without escaping, so that a quote or
//! a control character inside a string goes into the text unchanged. Integers
//! are written in decimal, without leading zeros, behind a minus sign if they
//! are negative. An object is written member by member in the order in which a
//! record lists its fields, and a field that is absent is left out altogether.

use vstd::prelude::*;

verus! {

/// The bytes of a text: its UTF-8 encoding.
pub open spec fn bytes_of(text: Seq<char>) -> Seq<u8> {
    vstd::utf8::encode_utf8(text)
}

/// A text between double quotes. Nothing inside it is escaped.
pub open spec fn quoted(text: Seq<u8>) -> Seq<u8> {
    seq![0x22u8] + text + seq![0x22u8]
}

/// A member's key: the quoted key and a colon.
pub open spec fn key_text(key: Seq<u8>) -> Seq<u8> {
    quoted(key) + seq![0x3au8]
}

/// One member of an object, `"key":value`, behind a comma if another member
/// stands in front of it.
pub open spec fn field_text(key: Seq<u8>, value: Seq<u8>, has_previous: bool) -> Seq<u8> {
    if has_previous {
        seq![0x2cu8] + key_text(key) + value
    } else {
        key_text(key) + value
    }
}

/// The text of a field that may be absent: an absent field has no text at all.
#[verifier::opaque]
pub open spec fn optional_field_text(
    key: Seq<u8>,
    value: Option<Seq<u8>>,
    has_previous: bool,
) -> Seq<u8> {
    match value {
        Some(v) => field_text(key, v, has_previous),
        None => Seq::empty(),
    }
}

/// The list of no members.
pub open spec fn no_members() -> Seq<(Seq<u8>, Seq<u8>)> {
    Seq::empty()
}

/// The list with one more member behind it, if there is a value for it.
#[verifier::opaque]
pub open spec fn with_field(
    members: Seq<(Seq<u8>, Seq<u8>)>,
    key: Seq<u8>,
    value: Option<Seq<u8>>,
) -> Seq<(Seq<u8>, Seq<u8>)> {
    match value {
        Some(v) => members.push((key, v)),
        None => members,
    }
}

/// The list with the members of another list behind it.
#[verifier::opaque]
pub open spec fn with_members(
    members: Seq<(Seq<u8>, Seq<u8>)>,
    inner: Seq<(Seq<u8>, Seq<u8>)>,
) -> Seq<(Seq<u8>, Seq<u8>)> {
    members + inner
}

/// The members of an object in the order in which they are written, each
/// the bytes of its key and the JSON text of its value. A record builds the
/// list field by field; a field that is absent leaves no trace in it.
pub trait MemberList: Sized {
    /// The list with the field `key` behind it, if the field is present.
    spec fn field(self, key: &str, value: Option<Seq<u8>>) -> Self;

    /// The list with the members of an inlined record behind it.
    spec fn nested(self, members: Self) -> Self;
}

impl MemberList for Seq<(Seq<u8>, Seq<u8>)> {
    open spec fn field(self, key: &str, value: Option<Seq<u8>>) -> Self {
        with_field(self, bytes_of(key@), value)
    }

    open spec fn nested(self, members: Self) -> Self {
        with_members(self, members)
    }
}

/// The members one after the other, with a comma between each two, and with
/// a comma in front of the first where `has_previous` is set.
#[verifier::opaque]
pub open spec fn members_text(members: Seq<(Seq<u8>, Seq<u8>)>, has_previous: bool) -> Seq<u8>
    decreases members.len(),
{
    if members.len() == 0 {
        Seq::empty()
    } else {
        let last = members.last();
        members_text(members.drop_last(), has_previous) + field_text(
            last.0,
            last.1,
            has_previous || members.len() > 1,
        )
    }
}

/// An object up to its last member, without the closing brace.
#[verifier::opaque]
pub open spec fn object_prefix(members: Seq<(Seq<u8>, Seq<u8>)>) -> Seq<u8> {
    seq![0x7bu8] + members_text(members, false)
}

/// The JSON text of the object with the given members.
pub open spec fn object_text(members: Seq<(Seq<u8>, Seq<u8>)>) -> Seq<u8> {
    object_prefix(members) + seq![0x7du8]
}

/// The items one after the other, with a comma between each two.
pub open spec fn items_text(items: Seq<Seq<u8>>) -> Seq<u8>
    decreases items.len(),
{
    if items.len() == 0 {
        Seq::empty()
    } else if items.len() == 1 {
        items[0]
    } else {
        items_text(items.drop_last()) + seq![0x2cu8] + items.last()
    }
}

/// An array up to its last item, without the closing bracket.
pub open spec fn array_prefix(items: Seq<Seq<u8>>) -> Seq<u8> {
    seq![0x5bu8] + items_text(items)
}

/// The JSON text of the array with the given items.
pub open spec fn array_text(items: Seq<Seq<u8>>) -> Seq<u8> {
    array_prefix(items) + seq![0x5du8]
}

/// The decimal digits of a natural number, without leading zeros.
pub open spec fn digits_text(n: nat) -> Seq<u8>
    decreases n,
{
    if n < 10 {
        seq![(0x30 + n) as u8]
    } else {
        digits_text(n / 10) + seq![(0x30 + n % 10) as u8]
    }
}

/// The JSON text of an integer: its decimal digits without leading zeros,
/// behind a minus sign if it is negative.
pub open spec fn decimal_text(n: int) -> Seq<u8> {
    if n < 0 {
        seq![0x2du8] + digits_text((-n) as nat)
    } else {
        digits_text(n as nat)
    }
}

/// A field that is absent adds nothing to the members of an object, and a
/// field that is present adds one member at the end.
pub proof fn lemma_field_of_members(
    members: Seq<(Seq<u8>, Seq<u8>)>,
    key: &str,
    value: Option<Seq<u8>>,
)
    ensures
        value is None ==> members.field(key, value) == members,
        value is Some ==> members.field(key, value) == members.push((bytes_of(key@), value->0)),
{
    reveal(with_field);
}

/// The text of a list that ends in a field is the text of the list in front
/// of the field, followed by the text of the field.
pub proof fn lemma_members_text_field(
    members: Seq<(Seq<u8>, Seq<u8>)>,
    key: &str,
    value: Option<Seq<u8>>,
    has_previous: bool,
)
    ensures
        members_text(members.field(key, value), has_previous) == members_text(
            members,
            has_previous,
        ) + optional_field_text(bytes_of(key@), value, has_previous || members.len() > 0),
        members.field(key, value).len() > 0 <==> members.len() > 0 || value is Some,
{
    reveal(with_field);
    reveal(optional_field_text);
    reveal_with_fuel(members_text, 2);
    match value {
        Some(v) => {
            let all = members.field(key, value);
            assert(all.drop_last() =~= members);
        },
        None => {
            assert(members_text(members, has_previous) + Seq::<u8>::empty() =~= members_text(
                members,
                has_previous,
            ));
        },
    }
}

/// The text of a list that ends in the members of an inlined record is the
/// text of the list in front of them, followed by their text.
pub proof fn lemma_members_text_nested(
    members: Seq<(Seq<u8>, Seq<u8>)>,
    inner: Seq<(Seq<u8>, Seq<u8>)>,
    has_previous: bool,
)
    ensures
        members_text(members.nested(inner), has_previous) == members_text(members, has_previous)
            + members_text(inner, has_previous || members.len() > 0),
        members.nested(inner).len() > 0 <==> members.len() > 0 || inner.len() > 0,
    decreases inner.len(),
{
    reveal(with_members);
    reveal_with_fuel(members_text, 2);
    let all = members.nested(inner);
    let front = members_text(members, has_previous);
    if inner.len() == 0 {
        assert(all =~= members);
        assert(front + Seq::<u8>::empty() =~= front);
    } else {
        let rest = inner.drop_last();
        let last = inner.last();
        lemma_members_text_nested(members, rest, has_previous);
        assert(all.drop_last() =~= members.nested(rest));
        assert(all.last() == last);
        let mid = members_text(rest, has_previous || members.len() > 0);
        let end = field_text(last.0, last.1, has_previous || all.len() > 1);
        assert((front + mid) + end =~= front + (mid + end));
    }
}

/// An object that ends in a field is the object in front of the field,
/// followed by the text of the field.
pub proof fn lemma_object_prefix_field(
    members: Seq<(Seq<u8>, Seq<u8>)>,
    key: &str,
    value: Option<Seq<u8>>,
)
    ensures
        object_prefix(members.field(key, value)) == object_prefix(members) + optional_field_text(
            bytes_of(key@),
            value,
            members.len() > 0,
        ),
        members.field(key, value).len() > 0 <==> members.len() > 0 || value is Some,
{
    reveal(object_prefix);
    lemma_members_text_field(members, key, value, false);
    let front = members_text(members, false);
    let end = optional_field_text(bytes_of(key@), value, members.len() > 0);
    assert(seq![0x7bu8] + (front + end) =~= (seq![0x7bu8] + front) + end);
}

/// An object that ends in the members of an inlined record is the object in
/// front of them, followed by their text.
pub proof fn lemma_object_prefix_nested(
    members: Seq<(Seq<u8>, Seq<u8>)>,
    inner: Seq<(Seq<u8>, Seq<u8>)>,
)
    ensures
        object_prefix(members.nested(inner)) == object_prefix(members) + members_text(
            inner,
            members.len() > 0,
        ),
        members.nested(inner).len() > 0 <==> members.len() > 0 || inner.len() > 0,
{
    reveal(object_prefix);
    lemma_members_text_nested(members, inner, false);
    let front = members_text(members, false);
    let end = members_text(inner, members.len() > 0);
    assert(seq![0x7bu8] + (front + end) =~= (seq![0x7bu8] + front) + end);
}

/// An object that ends in a member is the object in front of the member,
/// followed by the text of the member.
pub proof fn lemma_object_prefix_push(members: Seq<(Seq<u8>, Seq<u8>)>, member: (Seq<u8>, Seq<u8>))
    ensures
        object_prefix(members.push(member)) == object_prefix(members) + optional_field_text(
            member.0,
            Some(member.1),
            members.len() > 0,
        ),
{
    reveal(object_prefix);
    reveal(optional_field_text);
    reveal_with_fuel(members_text, 2);
    let all = members.push(member);
    assert(all.drop_last() =~= members);
    let front = members_text(members, false);
    let end = field_text(member.0, member.1, members.len() > 0);
    assert(seq![0x7bu8] + (front + end) =~= (seq![0x7bu8] + front) + end);
}

/// An object does not get shorter as members are added to it.
pub proof fn lemma_object_prefix_grows(members: Seq<(Seq<u8>, Seq<u8>)>, i: int, k: int)
    requires
        0 <= i <= k <= members.len(),
    ensures
        object_prefix(members.take(i)).len() <= object_prefix(members.take(k)).len(),
    decreases k - i,
{
    if i < k {
        lemma_object_prefix_grows(members, i, k - 1);
        assert(members.take(k) =~= members.take(k - 1).push(members[k - 1]));
        lemma_object_prefix_push(members.take(k - 1), members[k - 1]);
    }
}

/// An array that ends in an item is the array in front of the item, followed
/// by a comma unless the item is the first, followed by the item.
pub proof fn lemma_array_prefix_push(items: Seq<Seq<u8>>, item: Seq<u8>)
    ensures
        array_prefix(items.push(item)) == if items.len() == 0 {
            array_prefix(items) + item
        } else {
            array_prefix(items) + seq![0x2cu8] + item
        },
{
    let all = items.push(item);
    assert(all.drop_last() =~= items);
    if items.len() == 0 {
        assert(array_prefix(all) =~= array_prefix(items) + item);
    } else {
        assert(array_prefix(all) =~= array_prefix(items) + seq![0x2cu8] + item);
    }
}

/// An array does not get shorter as items are added to it.
pub proof fn lemma_array_prefix_grows(items: Seq<Seq<u8>>, i: int, k: int)
    requires
        0 <= i <= k <= items.len(),
    ensures
        array_prefix(items.take(i)).len() <= array_prefix(items.take(k)).len(),
    decreases k - i,
{
    if i < k {
        lemma_array_prefix_grows(items, i, k - 1);
        assert(items.take(k) =~= items.take(k - 1).push(items[k - 1]));
        lemma_array_prefix_push(items.take(k - 1), items[k - 1]);
    }
}

/// The members of an inlined record behind no member are those members.
pub proof fn lemma_members_nested_alone(inner: Seq<(Seq<u8>, Seq<u8>)>)
    ensures
        no_members().nested(inner) == inner,
{
    reveal(with_members);
    assert(no_members() + inner =~= inner);
}

/// A text of one ASCII character is one byte, the character's code.
proof fn lemma_one_ascii(s: &str, c: char)
    requires
        s@.len() == 1,
        s@[0] == c,
        c <= '\u{7f}',
    ensures
        bytes_of(s@) == seq![c as u8],
{
    assert(vstd::utf8::is_ascii_chars(s@));
    vstd::utf8::is_ascii_chars_encode_utf8(s@);
    assert(bytes_of(s@) =~= seq![c as u8]);
}

/// The punctuation and the literals that the renderer writes, byte by byte.
pub proof fn lemma_literals()
    ensures
        bytes_of("true"@) == seq![0x74u8, 0x72u8, 0x75u8, 0x65u8],
        bytes_of("false"@) == seq![0x66u8, 0x61u8, 0x6cu8, 0x73u8, 0x65u8],
        bytes_of("\""@) == seq![0x22u8],
        bytes_of(":"@) == seq![0x3au8],
        bytes_of(","@) == seq![0x2cu8],
        bytes_of("{"@) == seq![0x7bu8],
        bytes_of("}"@) == seq![0x7du8],
        bytes_of("["@) == seq![0x5bu8],
        bytes_of("]"@) == seq![0x5du8],
{
    reveal_strlit("true");
    reveal_strlit("false");
    assert(vstd::utf8::is_ascii_chars("true"@));
    assert(vstd::utf8::is_ascii_chars("false"@));
    vstd::utf8::is_ascii_chars_encode_utf8("true"@);
    vstd::utf8::is_ascii_chars_encode_utf8("false"@);
    assert(bytes_of("true"@) =~= seq![0x74u8, 0x72u8, 0x75u8, 0x65u8]);
    assert(bytes_of("false"@) =~= seq![0x66u8, 0x61u8, 0x6cu8, 0x73u8, 0x65u8]);
    reveal_strlit("\"");
    reveal_strlit(":");
    reveal_strlit(",");
    reveal_strlit("{");
    reveal_strlit("}");
    reveal_strlit("[");
    reveal_strlit("]");
    lemma_one_ascii("\"", '"');
    lemma_one_ascii(":", ':');
    lemma_one_ascii(",", ',');
    lemma_one_ascii("{", '{');
    lemma_one_ascii("}", '}');
    lemma_one_ascii("[", '[');
    lemma_one_ascii("]", ']');
}

/// The minus sign, as a byte.
pub proof fn lemma_literals_sign()
    ensures
        bytes_of("-"@) == seq![0x2du8],
{
    reveal_strlit("-");
    lemma_one_ascii("-", '-');
}

/// An object without members is a pair of braces.
pub proof fn lemma_object_without_members()
    ensures
        object_text(no_members()) == seq![0x7bu8, 0x7du8],
{
    reveal(object_prefix);
    reveal_with_fuel(members_text, 2);
    assert(object_text(no_members()) =~= seq![0x7bu8, 0x7du8]);
}

/// An object with members has no comma in front of its first member and none
/// behind its last: the opening brace is followed by the quote of the first
/// key, and the value of the last member by the closing brace.
pub proof fn lemma_no_stray_commas(members: Seq<(Seq<u8>, Seq<u8>)>)
    requires
        members.len() > 0,
    ensures
        object_text(members)[0] == 0x7bu8,
        object_text(members)[1] == 0x22u8,
        object_text(members) == object_prefix(members.drop_last()) + field_text(
            members.last().0,
            members.last().1,
            members.len() > 1,
        ) + seq![0x7du8],
    decreases members.len(),
{
    reveal(object_prefix);
    reveal(optional_field_text);
    reveal_with_fuel(members_text, 2);
    let front = members.drop_last();
    let last = members.last();
    assert(members =~= front.push(last));
    lemma_object_prefix_push(front, last);
    if front.len() > 0 {
        lemma_no_stray_commas(front);
        assert(object_text(front)[1] == object_prefix(front)[1]);
    }
}

} // verus!
