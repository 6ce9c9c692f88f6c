//! Numbers that are not integers, as decimal texts.
//!
//! The library does no arithmetic on such numbers; it only writes them. So a
//! number is held as the text that is written for it, and the text is held
//! to the grammar of a JSON number: an optional minus sign, an integer part
//! without leading zeros, an optional fraction, an optional exponent.

use crate::json_text::bytes_of;
use crate::serialization::{JsonString, JsonValue, SerializationError};
use vstd::prelude::*;

verus! {

/// Whether a byte is a decimal digit.
pub open spec fn is_digit(byte: u8) -> bool {
    0x30 <= byte <= 0x39
}

/// The index behind the digits that start at `from`; `from` itself where no
/// digit stands there.
pub open spec fn digits_end(text: Seq<u8>, from: int) -> int
    decreases text.len() - from,
{
    if 0 <= from < text.len() && is_digit(text[from]) {
        digits_end(text, from + 1)
    } else {
        from
    }
}

/// The index behind the sign and the integer part at the start of a text, or
/// `None` where the text does not start with an integer part. An integer
/// part is a single zero, or digits that start with another digit than
/// zero.
pub open spec fn integer_end(text: Seq<u8>) -> Option<int> {
    let start: int = if text.len() > 0 && text[0] == 0x2du8 {
        1
    } else {
        0
    };
    let end = digits_end(text, start);
    if end == start || (text[start] == 0x30u8 && end > start + 1) {
        None
    } else {
        Some(end)
    }
}

/// The index behind the fraction that starts at `from`, or `from` where no
/// point stands there, or `None` where no digit follows the point.
pub open spec fn fraction_end(text: Seq<u8>, from: int) -> Option<int> {
    if 0 <= from < text.len() && text[from] == 0x2eu8 {
        let end = digits_end(text, from + 1);
        if end == from + 1 {
            None
        } else {
            Some(end)
        }
    } else {
        Some(from)
    }
}

/// The index behind the exponent that starts at `from`, or `from` where no
/// `e` or `E` stands there, or `None` where no digit follows the `e` and its
/// sign.
pub open spec fn exponent_end(text: Seq<u8>, from: int) -> Option<int> {
    if 0 <= from < text.len() && (text[from] == 0x65u8 || text[from] == 0x45u8) {
        let digits: int = if from + 1 < text.len() && (text[from + 1] == 0x2bu8 || text[from + 1]
            == 0x2du8) {
            from + 2
        } else {
            from + 1
        };
        let end = digits_end(text, digits);
        if end == digits {
            None
        } else {
            Some(end)
        }
    } else {
        Some(from)
    }
}

/// Whether a text is a JSON number, from its first byte to its last.
pub open spec fn is_number(text: Seq<u8>) -> bool {
    match integer_end(text) {
        Some(integer) => match fraction_end(text, integer) {
            Some(fraction) => exponent_end(text, fraction) == Some(text.len() as int),
            None => false,
        },
        None => false,
    }
}

/// The digits that start at `from` end inside the text.
pub proof fn lemma_digits_end_in_text(text: Seq<u8>, from: int)
    requires
        0 <= from <= text.len(),
    ensures
        from <= digits_end(text, from) <= text.len(),
    decreases text.len() - from,
{
    if from < text.len() && is_digit(text[from]) {
        lemma_digits_end_in_text(text, from + 1);
    }
}

/// A number has at least one byte.
pub proof fn lemma_number_is_not_empty(text: Seq<u8>)
    requires
        is_number(text),
    ensures
        text.len() > 0,
{
    if text.len() == 0 {
        assert(digits_end(text, 0) == 0);
    }
}

/// The index behind the digits that start at `from`.
fn skip_digits(text: &[u8], from: usize) -> (end: usize)
    requires
        from <= text@.len(),
    ensures
        end == digits_end(text@, from as int),
        from <= end <= text@.len(),
{
    let mut end = from;
    while end < text.len() && text[end] >= 0x30 && text[end] <= 0x39
        invariant
            from <= end <= text@.len(),
            digits_end(text@, from as int) == digits_end(text@, end as int),
        decreases text@.len() - end,
    {
        end += 1;
    }
    end
}

/// Whether a text is a JSON number.
pub fn is_number_text(text: &[u8]) -> (r: bool)
    ensures
        r == is_number(text@),
{
    let length = text.len();
    let start: usize = if length > 0 && text[0] == 0x2d {
        1
    } else {
        0
    };
    let integer = skip_digits(text, start);
    if integer == start || (text[start] == 0x30 && integer > start + 1) {
        return false;
    }
    let mut end = integer;
    if end < length && text[end] == 0x2e {
        let fraction = skip_digits(text, end + 1);
        if fraction == end + 1 {
            return false;
        }
        end = fraction;
    }
    if end < length && (text[end] == 0x65 || text[end] == 0x45) {
        let digits: usize = if end + 1 < length && (text[end + 1] == 0x2b || text[end + 1] == 0x2d) {
            end + 2
        } else {
            end + 1
        };
        let exponent = skip_digits(text, digits);
        if exponent == digits {
            return false;
        }
        end = exponent;
    }
    end == length
}

/// A number as its decimal text.
#[derive(Debug, Clone, Copy)]
pub struct Decimal<'a> {
    text: &'a str,
}

impl<'a> Decimal<'a> {
    /// The text of every number is a JSON number.
    #[verifier::type_invariant]
    pub closed spec fn well_formed(&self) -> bool {
        is_number(bytes_of(self.text@))
    }

    /// The text of the number.
    pub closed spec fn view(&self) -> Seq<char> {
        self.text@
    }

    /// The number that `text` is the decimal text of, or `None` where `text`
    /// is not a JSON number.
    pub fn new(text: &'a str) -> (r: Option<Decimal<'a>>)
        ensures
            r is Some <==> is_number(bytes_of(text@)),
            r is Some ==> r->0@ == text@,
    {
        let bytes = text.as_bytes();
        assert(bytes@ == bytes_of(text@));
        if is_number_text(bytes) {
            Some(Decimal { text })
        } else {
            None
        }
    }

    /// The text of the number.
    pub fn as_str(&self) -> (r: &'a str)
        ensures
            r@ == self@,
            is_number(bytes_of(r@)),
    {
        proof {
            use_type_invariant(self);
        }
        self.text
    }
}

impl<'a> JsonValue for Decimal<'a> {
    /// A number is written as its text stands, without quotes.
    open spec fn json_value(&self) -> Seq<u8> {
        bytes_of(self@)
    }

    fn to_json_value(&self, buf: &mut [u8], index: usize) -> (r: Result<
        usize,
        SerializationError,
    >) {
        let text = self.as_str();
        proof {
            lemma_number_is_not_empty(bytes_of(text@));
            assert(self.json_value() == bytes_of(text@));
        }
        text.to_json_string(buf, index)
    }
}

} // verus!
