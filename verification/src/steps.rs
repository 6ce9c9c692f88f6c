//! The steps in which an object or an array gets into the buffer.
//!
//! A rendering writes piece by piece: an opening brace, one member after the
//! other, a closing brace. Each lemma here says that the buffer after one more
//! piece holds the text so far with that piece behind it. A function that
//! renders a record calls them in the order in which it writes.

use crate::buffer::{
    lemma_overwrite_keeps, lemma_overwrite_nothing, lemma_overwrite_twice, overwrite,
};
use crate::json_text::{
    array_prefix, array_text, bytes_of, lemma_array_prefix_push, lemma_members_text_field,
    lemma_members_text_nested, lemma_object_prefix_field, lemma_object_prefix_nested,
    lemma_object_prefix_push, members_text, no_members, object_prefix, object_text,
    optional_field_text, MemberList,
};
use vstd::prelude::*;

verus! {

/// After the opening brace the buffer holds an object without members. The
/// result is the list of no members.
pub proof fn lemma_object_opened(before: Seq<u8>, at: int) -> (r: Seq<(Seq<u8>, Seq<u8>)>)
    ensures
        r == no_members(),
        r.len() == 0,
        object_prefix(r).len() == 1,
        overwrite(before, at, seq![0x7bu8]) == overwrite(before, at, object_prefix(r)),
        forall|i: int|
            0 <= i < at && i < before.len() ==> #[trigger] overwrite(before, at, object_prefix(r))[i]
                == before[i],
{
    reveal(object_prefix);
    reveal_with_fuel(members_text, 2);
    assert(object_prefix(no_members()) =~= seq![0x7bu8]);
    lemma_overwrite_keeps(before, at, object_prefix(no_members()));
    no_members()
}

/// After one more field the buffer holds the object with one more field.
/// The result is the list of members with that field.
pub proof fn lemma_field_written(
    before: Seq<u8>,
    at: int,
    members: Seq<(Seq<u8>, Seq<u8>)>,
    key: &str,
    value: Option<Seq<u8>>,
    has_previous: bool,
) -> (r: Seq<(Seq<u8>, Seq<u8>)>)
    requires
        0 <= at,
        has_previous == (members.len() > 0),
    ensures
        r == members.field(key, value),
        (has_previous || value is Some) == (r.len() > 0),
        object_prefix(r).len() == object_prefix(members).len() + optional_field_text(
            bytes_of(key@),
            value,
            has_previous,
        ).len(),
        overwrite(
            overwrite(before, at, object_prefix(members)),
            at + object_prefix(members).len(),
            optional_field_text(bytes_of(key@), value, has_previous),
        ) == overwrite(before, at, object_prefix(r)),
        forall|i: int|
            0 <= i < at && i < before.len() ==> #[trigger] overwrite(before, at, object_prefix(r))[i]
                == before[i],
{
    lemma_object_prefix_field(members, key, value);
    lemma_overwrite_twice(
        before,
        at,
        object_prefix(members),
        at + object_prefix(members).len(),
        optional_field_text(bytes_of(key@), value, has_previous),
    );
    lemma_overwrite_keeps(before, at, object_prefix(members.field(key, value)));
    members.field(key, value)
}

/// After the members of an inlined record the buffer holds the object with
/// those members. The result is the list of members with them.
pub proof fn lemma_nested_written(
    before: Seq<u8>,
    at: int,
    members: Seq<(Seq<u8>, Seq<u8>)>,
    inner: Seq<(Seq<u8>, Seq<u8>)>,
    has_previous: bool,
) -> (r: Seq<(Seq<u8>, Seq<u8>)>)
    requires
        0 <= at,
        has_previous == (members.len() > 0),
    ensures
        r == members.nested(inner),
        (has_previous || inner.len() > 0) == (r.len() > 0),
        object_prefix(r).len() == object_prefix(members).len() + members_text(
            inner,
            has_previous,
        ).len(),
        overwrite(
            overwrite(before, at, object_prefix(members)),
            at + object_prefix(members).len(),
            members_text(inner, has_previous),
        ) == overwrite(before, at, object_prefix(r)),
        forall|i: int|
            0 <= i < at && i < before.len() ==> #[trigger] overwrite(before, at, object_prefix(r))[i]
                == before[i],
{
    lemma_object_prefix_nested(members, inner);
    lemma_overwrite_twice(
        before,
        at,
        object_prefix(members),
        at + object_prefix(members).len(),
        members_text(inner, has_previous),
    );
    lemma_overwrite_keeps(before, at, object_prefix(members.nested(inner)));
    members.nested(inner)
}

/// After one more member the buffer holds the object with one more member.
pub proof fn lemma_member_written(
    before: Seq<u8>,
    at: int,
    members: Seq<(Seq<u8>, Seq<u8>)>,
    member: (Seq<u8>, Seq<u8>),
)
    requires
        0 <= at,
    ensures
        object_prefix(members.push(member)).len() == object_prefix(members).len()
            + optional_field_text(member.0, Some(member.1), members.len() > 0).len(),
        overwrite(
            overwrite(before, at, object_prefix(members)),
            at + object_prefix(members).len(),
            optional_field_text(member.0, Some(member.1), members.len() > 0),
        ) == overwrite(before, at, object_prefix(members.push(member))),
{
    lemma_object_prefix_push(members, member);
    lemma_overwrite_twice(
        before,
        at,
        object_prefix(members),
        at + object_prefix(members).len(),
        optional_field_text(member.0, Some(member.1), members.len() > 0),
    );
}

/// After the closing brace the buffer holds the whole object.
pub proof fn lemma_object_closed(before: Seq<u8>, at: int, members: Seq<(Seq<u8>, Seq<u8>)>)
    requires
        0 <= at,
    ensures
        object_text(members).len() == object_prefix(members).len() + 1,
        overwrite(
            overwrite(before, at, object_prefix(members)),
            at + object_prefix(members).len(),
            seq![0x7du8],
        ) == overwrite(before, at, object_text(members)),
{
    lemma_overwrite_twice(
        before,
        at,
        object_prefix(members),
        at + object_prefix(members).len(),
        seq![0x7du8],
    );
}

/// Before the first member of an inlined record is written the buffer is as
/// it was. The result is the list of no members.
pub proof fn lemma_nested_opened(before: Seq<u8>, at: int, has_previous: bool) -> (r: Seq<
    (Seq<u8>, Seq<u8>),
>)
    ensures
        r == no_members(),
        r.len() == 0,
        members_text(r, has_previous).len() == 0,
        before == overwrite(before, at, members_text(r, has_previous)),
{
    reveal_with_fuel(members_text, 2);
    lemma_overwrite_nothing(before, at);
    no_members()
}

/// After one more field of an inlined record the buffer holds the members
/// with one more field. The result is the list of members with that field.
/// `outer_previous` says whether a member stands in front of the inlined
/// record, `has_previous` whether one stands in front of the field.
pub proof fn lemma_nested_field_written(
    before: Seq<u8>,
    at: int,
    members: Seq<(Seq<u8>, Seq<u8>)>,
    key: &str,
    value: Option<Seq<u8>>,
    outer_previous: bool,
    has_previous: bool,
) -> (r: Seq<(Seq<u8>, Seq<u8>)>)
    requires
        0 <= at,
        has_previous == (outer_previous || members.len() > 0),
    ensures
        r == members.field(key, value),
        (has_previous || value is Some) == (outer_previous || r.len() > 0),
        members_text(r, outer_previous).len() == members_text(members, outer_previous).len()
            + optional_field_text(bytes_of(key@), value, has_previous).len(),
        overwrite(
            overwrite(before, at, members_text(members, outer_previous)),
            at + members_text(members, outer_previous).len(),
            optional_field_text(bytes_of(key@), value, has_previous),
        ) == overwrite(before, at, members_text(r, outer_previous)),
        forall|i: int|
            0 <= i < at && i < before.len() ==> #[trigger] overwrite(
                before,
                at,
                members_text(r, outer_previous),
            )[i] == before[i],
{
    lemma_members_text_field(members, key, value, outer_previous);
    lemma_overwrite_twice(
        before,
        at,
        members_text(members, outer_previous),
        at + members_text(members, outer_previous).len(),
        optional_field_text(bytes_of(key@), value, has_previous),
    );
    lemma_overwrite_keeps(before, at, members_text(members.field(key, value), outer_previous));
    members.field(key, value)
}

/// After the members of another list behind the members of an inlined record
/// the buffer holds the members of both. The result is the list of both.
/// `outer_previous` says whether a member stands in front of the inlined
/// record, `has_previous` whether one stands in front of the other list.
pub proof fn lemma_nested_members_written(
    before: Seq<u8>,
    at: int,
    members: Seq<(Seq<u8>, Seq<u8>)>,
    inner: Seq<(Seq<u8>, Seq<u8>)>,
    outer_previous: bool,
    has_previous: bool,
) -> (r: Seq<(Seq<u8>, Seq<u8>)>)
    requires
        0 <= at,
        has_previous == (outer_previous || members.len() > 0),
    ensures
        r == members.nested(inner),
        (has_previous || inner.len() > 0) == (outer_previous || r.len() > 0),
        members_text(r, outer_previous).len() == members_text(members, outer_previous).len()
            + members_text(inner, has_previous).len(),
        overwrite(
            overwrite(before, at, members_text(members, outer_previous)),
            at + members_text(members, outer_previous).len(),
            members_text(inner, has_previous),
        ) == overwrite(before, at, members_text(r, outer_previous)),
        forall|i: int|
            0 <= i < at && i < before.len() ==> #[trigger] overwrite(
                before,
                at,
                members_text(r, outer_previous),
            )[i] == before[i],
{
    lemma_members_text_nested(members, inner, outer_previous);
    lemma_overwrite_twice(
        before,
        at,
        members_text(members, outer_previous),
        at + members_text(members, outer_previous).len(),
        members_text(inner, has_previous),
    );
    lemma_overwrite_keeps(before, at, members_text(members.nested(inner), outer_previous));
    members.nested(inner)
}

/// After the opening bracket the buffer holds an array without items.
pub proof fn lemma_array_opened(before: Seq<u8>, at: int)
    ensures
        overwrite(before, at, seq![0x5bu8]) == overwrite(before, at, array_prefix(Seq::empty())),
{
    assert(array_prefix(Seq::empty()) =~= seq![0x5bu8]);
}

/// After one more item, behind a comma unless it is the first, the buffer
/// holds the array with one more item.
pub proof fn lemma_item_written(before: Seq<u8>, at: int, items: Seq<Seq<u8>>, item: Seq<u8>)
    requires
        0 <= at,
    ensures
        items.len() == 0 ==> overwrite(
            overwrite(before, at, array_prefix(items)),
            at + array_prefix(items).len(),
            item,
        ) == overwrite(before, at, array_prefix(items.push(item))),
        items.len() > 0 ==> overwrite(
            overwrite(
                overwrite(before, at, array_prefix(items)),
                at + array_prefix(items).len(),
                seq![0x2cu8],
            ),
            at + array_prefix(items).len() + 1,
            item,
        ) == overwrite(before, at, array_prefix(items.push(item))),
        array_prefix(items.push(item)).len() == array_prefix(items).len() + item.len() + if items.len()
            > 0 {
            1int
        } else {
            0int
        },
{
    let front = array_prefix(items);
    lemma_array_prefix_push(items, item);
    if items.len() == 0 {
        lemma_overwrite_twice(before, at, front, at + front.len(), item);
    } else {
        lemma_overwrite_twice(before, at, front, at + front.len(), seq![0x2cu8]);
        lemma_overwrite_twice(before, at, front + seq![0x2cu8], at + front.len() + 1, item);
    }
}

/// After the closing bracket the buffer holds the whole array.
pub proof fn lemma_array_closed(before: Seq<u8>, at: int, items: Seq<Seq<u8>>)
    requires
        0 <= at,
    ensures
        overwrite(
            overwrite(before, at, array_prefix(items)),
            at + array_prefix(items).len(),
            seq![0x5du8],
        ) == overwrite(before, at, array_text(items)),
{
    lemma_overwrite_twice(
        before,
        at,
        array_prefix(items),
        at + array_prefix(items).len(),
        seq![0x5du8],
    );
}

} // verus!
