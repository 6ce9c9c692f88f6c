//! The byte buffer that a rendering writes into.
//!
//! A buffer is a byte region that the caller owns, together with a cursor, the
//! offset of the next byte to write. The region has a fixed length and the
//! cursor never exceeds it. A write either fits between the cursor and the end
//! of the region, or fails with [`SerializationError`] and leaves the bytes in
//! front of the cursor as they were. After a failure the rest of the region
//! holds no meaningful content.

use crate::serialization::SerializationError;
use vstd::prelude::*;

verus! {

/// The buffer `buf` after `text` has been written at offset `at`.
#[verifier::opaque]
pub open spec fn overwrite(buf: Seq<u8>, at: int, text: Seq<u8>) -> Seq<u8> {
    Seq::new(
        buf.len(),
        |i: int|
            if at <= i < at + text.len() {
                text[i - at]
            } else {
                buf[i]
            },
    )
}

/// What every rendering function promises.
///
/// The buffer keeps its length. A text that fits between the cursor `at` and
/// the end of the buffer is written: the buffer then holds `text` at `at`,
/// every other byte is unchanged, and the result is the cursor behind the
/// text. A text that does not fit is not written: the result is the error,
/// and the bytes in front of `at` are unchanged. Where there is nothing to
/// write the call succeeds and returns the cursor as it was, wherever the
/// cursor stands.
pub open spec fn emitted(
    before: Seq<u8>,
    after: Seq<u8>,
    at: usize,
    text: Seq<u8>,
    r: Result<usize, SerializationError>,
) -> bool {
    &&& after.len() == before.len()
    &&& match r {
        Ok(end) => {
            &&& at + text.len() <= before.len() || text.len() == 0
            &&& end == at + text.len()
            &&& after == overwrite(before, at as int, text)
        },
        Err(_) => {
            &&& at + text.len() > before.len()
            &&& text.len() > 0
            &&& forall|i: int| 0 <= i < at && i < before.len() ==> #[trigger] after[i] == before[i]
        },
    }
}

/// Writing leaves the buffer's length as it is, and every byte outside the
/// written text.
pub broadcast proof fn lemma_overwrite_keeps(buf: Seq<u8>, at: int, text: Seq<u8>)
    ensures
        (#[trigger] overwrite(buf, at, text)).len() == buf.len(),
        forall|i: int|
            0 <= i < buf.len() ==> #[trigger] overwrite(buf, at, text)[i] == if at <= i < at
                + text.len() {
                text[i - at]
            } else {
                buf[i]
            },
{
    reveal(overwrite);
}

/// Writing `first` and then `second` right behind it is writing `first + second`.
pub broadcast proof fn lemma_overwrite_twice(
    buf: Seq<u8>,
    at: int,
    first: Seq<u8>,
    mid: int,
    second: Seq<u8>,
)
    requires
        0 <= at,
        mid == at + first.len(),
    ensures
        #[trigger] overwrite(overwrite(buf, at, first), mid, second) == overwrite(
            buf,
            at,
            first + second,
        ),
{
    reveal(overwrite);
    assert(overwrite(overwrite(buf, at, first), mid, second) =~= overwrite(
        buf,
        at,
        first + second,
    ));
}

/// Writing no text leaves the buffer as it is.
pub broadcast proof fn lemma_overwrite_nothing(buf: Seq<u8>, at: int)
    ensures
        #[trigger] overwrite(buf, at, Seq::empty()) == buf,
{
    reveal(overwrite);
    assert(overwrite(buf, at, Seq::empty()) =~= buf);
}

/// Copies `bytes` into the buffer at the cursor. The call succeeds exactly
/// when the bytes fit between the cursor and the end of the buffer; a cursor
/// behind the end of the buffer fails even where there is nothing to copy.
/// A call that fails leaves the buffer as it was.
pub fn write_raw(buf: &mut [u8], index: usize, bytes: &[u8]) -> (r: Result<
    usize,
    SerializationError,
>)
    ensures
        r is Ok <==> index + bytes@.len() <= old(buf)@.len(),
        r is Err ==> final(buf)@ == old(buf)@,
        index <= old(buf)@.len() || bytes@.len() > 0 ==> emitted(
            old(buf)@,
            final(buf)@,
            index,
            bytes@,
            r,
        ),
{
    if index > buf.len() || bytes.len() > buf.len() - index {
        return Err(SerializationError {  });
    }
    proof {
        reveal(overwrite);
        assert(buf@ =~= overwrite(old(buf)@, index as int, bytes@.take(0)));
    }
    let mut i: usize = 0;
    while i < bytes.len()
        invariant
            i <= bytes@.len(),
            index + bytes@.len() <= buf@.len() <= usize::MAX,
            buf@.len() == old(buf)@.len(),
            buf@ == overwrite(old(buf)@, index as int, bytes@.take(i as int)),
        decreases bytes@.len() - i,
    {
        buf[index + i] = bytes[i];
        i += 1;
        proof {
            reveal(overwrite);
            assert(buf@ =~= overwrite(old(buf)@, index as int, bytes@.take(i as int)));
        }
    }
    assert(bytes@.take(i as int) =~= bytes@);
    Ok(index + i)
}

/// A text is written exactly when it fits between the cursor and the end of
/// the buffer: a text of `n` bytes goes into a buffer of `n` bytes and does
/// not go into one of `n - 1` bytes.
pub proof fn lemma_overflow_boundary(
    text: Seq<u8>,
    exact: Seq<u8>,
    exact_after: Seq<u8>,
    exact_result: Result<usize, SerializationError>,
    short: Seq<u8>,
    short_after: Seq<u8>,
    short_result: Result<usize, SerializationError>,
)
    requires
        exact.len() == text.len(),
        short.len() == text.len() - 1,
        emitted(exact, exact_after, 0, text, exact_result),
        emitted(short, short_after, 0, text, short_result),
    ensures
        exact_result == Ok::<usize, SerializationError>(text.len() as usize),
        exact_after == text,
        short_result is Err,
{
    lemma_overwrite_keeps(exact, 0, text);
    assert(exact_after =~= text);
}

/// Writing the same text at the same cursor into buffers of the same length
/// gives the same result and, where it succeeds, the same bytes.
pub proof fn lemma_rendering_is_deterministic(
    text: Seq<u8>,
    at: usize,
    first: Seq<u8>,
    first_after: Seq<u8>,
    first_result: Result<usize, SerializationError>,
    second: Seq<u8>,
    second_after: Seq<u8>,
    second_result: Result<usize, SerializationError>,
)
    requires
        first.len() == second.len(),
        emitted(first, first_after, at, text, first_result),
        emitted(second, second_after, at, text, second_result),
    ensures
        first_result == second_result,
        first_result is Ok && text.len() > 0 ==> first_after.subrange(at as int, at + text.len())
            == text && second_after.subrange(at as int, at + text.len()) == text,
        first == second ==> first_result is Ok ==> first_after == second_after,
{
    if first_result is Ok && text.len() > 0 {
        lemma_overwrite_keeps(first, at as int, text);
        lemma_overwrite_keeps(second, at as int, text);
        assert(first_after.subrange(at as int, at + text.len()) =~= text);
        assert(second_after.subrange(at as int, at + text.len()) =~= text);
    } else if first_result is Err {
        assert(first_result->Err_0 == SerializationError {  });
        assert(second_result->Err_0 == SerializationError {  });
    }
}

} // verus!
