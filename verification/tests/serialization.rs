use wot_td_embedded::buffer::write_raw;
use wot_td_embedded::models::link::Link;
use wot_td_embedded::serialization::{
    write_digits, JsonKey, JsonString, JsonValue, SerializableField, SerializationError, ToJson,
};

fn text_of<T: JsonValue + ?Sized>(value: &T) -> String {
    let mut buf = [0u8; 256];
    let length = value.to_json_value(&mut buf, 0).unwrap();
    String::from_utf8(buf[..length].to_vec()).unwrap()
}

#[test]
fn write_raw_copies_bytes_at_the_cursor() {
    let mut buf = [b'.'; 8];
    let end = write_raw(&mut buf, 2, b"abc").unwrap();
    assert_eq!(end, 5);
    assert_eq!(&buf, b"..abc...");
}

#[test]
fn write_raw_fills_the_buffer_to_its_last_byte() {
    let mut buf = [b'.'; 5];
    assert_eq!(write_raw(&mut buf, 2, b"abc"), Ok(5));
    assert_eq!(&buf, b"..abc");
}

#[test]
fn write_raw_fails_when_one_byte_is_missing() {
    let mut buf = [b'.'; 4];
    assert_eq!(write_raw(&mut buf, 2, b"abc"), Err(SerializationError));
    assert_eq!(&buf, b"....");
}

#[test]
fn write_raw_of_nothing_at_the_end_succeeds() {
    let mut buf = [b'.'; 3];
    assert_eq!(write_raw(&mut buf, 3, b""), Ok(3));
    assert_eq!(&buf, b"...");
}

#[test]
fn write_raw_fails_at_a_cursor_behind_the_end() {
    let mut buf = [b'.'; 3];
    assert_eq!(write_raw(&mut buf, 4, b""), Err(SerializationError));
    assert_eq!(write_raw(&mut buf, 4, b"a"), Err(SerializationError));
    assert_eq!(write_raw(&mut buf, usize::MAX, b"ab"), Err(SerializationError));
    assert_eq!(&buf, b"...");
}

#[test]
fn write_raw_into_an_empty_buffer() {
    let mut buf = [0u8; 0];
    assert_eq!(write_raw(&mut buf, 0, b""), Ok(0));
    assert_eq!(write_raw(&mut buf, 0, b"a"), Err(SerializationError));
}

#[test]
fn to_json_string_writes_the_text_as_it_stands() {
    let mut buf = [b'.'; 6];
    assert_eq!("true".to_json_string(&mut buf, 1), Ok(5));
    assert_eq!(&buf, b".true.");
}

#[test]
fn string_is_written_between_quotes() {
    assert_eq!(text_of("coap://example.org"), r#""coap://example.org""#);
    assert_eq!(text_of(""), r#""""#);
}

#[test]
fn string_is_not_escaped() {
    assert_eq!(text_of("a\"b\\c\n"), "\"a\"b\\c\n\"");
}

#[test]
fn string_is_written_as_utf8() {
    let mut buf = [0u8; 16];
    let length = "grün".to_json_value(&mut buf, 0).unwrap();
    assert_eq!(length, 7);
    assert_eq!(&buf[..length], "\"grün\"".as_bytes());
}

#[test]
fn owned_string_is_written_like_a_borrowed_one() {
    assert_eq!(text_of(&String::from("application/json")), r#""application/json""#);
}

#[test]
fn reference_is_written_like_the_value() {
    let value = true;
    let reference = &value;
    assert_eq!(text_of(&reference), "true");
}

#[test]
fn booleans_are_written_as_literals() {
    assert_eq!(text_of(&true), "true");
    assert_eq!(text_of(&false), "false");
}

#[test]
fn integers_are_written_in_minimal_decimal() {
    assert_eq!(text_of(&0i64), "0");
    assert_eq!(text_of(&7i64), "7");
    assert_eq!(text_of(&10i64), "10");
    assert_eq!(text_of(&1203i64), "1203");
    assert_eq!(text_of(&-1i64), "-1");
    assert_eq!(text_of(&-450i64), "-450");
    assert_eq!(text_of(&i64::MAX), "9223372036854775807");
    assert_eq!(text_of(&i64::MIN), "-9223372036854775808");
}

#[test]
fn unsigned_integers_are_written_in_minimal_decimal() {
    assert_eq!(text_of(&0u64), "0");
    assert_eq!(text_of(&42u64), "42");
    assert_eq!(text_of(&u64::MAX), "18446744073709551615");
}

#[test]
fn write_digits_fails_when_the_digits_do_not_fit() {
    let mut buf = [0u8; 3];
    assert_eq!(write_digits(&mut buf, 0, 999), Ok(3));
    assert_eq!(&buf, b"999");
    assert_eq!(write_digits(&mut buf, 0, 1000), Err(SerializationError));
    assert_eq!(write_digits(&mut buf, 1, 999), Err(SerializationError));
}

#[test]
fn key_is_written_quoted_with_a_colon() {
    let mut buf = [0u8; 16];
    let length = "href".to_json_key(&mut buf, 0).unwrap();
    assert_eq!(&buf[..length], br#""href":"#);
}

#[test]
fn field_is_written_without_a_comma_when_it_is_the_first() {
    let mut buf = [0u8; 32];
    let length = "Test".serialize_field("title", &mut buf, 0, false).unwrap();
    assert_eq!(&buf[..length], br#""title":"Test""#);
}

#[test]
fn field_is_written_behind_a_comma_when_another_is_in_front() {
    let mut buf = [0u8; 32];
    let length = true.serialize_field("safe", &mut buf, 0, true).unwrap();
    assert_eq!(&buf[..length], br#","safe":true"#);
}

#[test]
fn present_optional_field_is_written_like_a_plain_field() {
    let mut buf = [0u8; 32];
    let length = Some(12i64).serialize_field("minimum", &mut buf, 3, true).unwrap();
    assert_eq!(&buf[3..length], br#","minimum":12"#);
}

#[test]
fn absent_optional_field_writes_nothing() {
    let mut buf = [b'.'; 8];
    let absent: Option<&str> = None;
    assert_eq!(absent.serialize_field("title", &mut buf, 5, true), Ok(5));
    assert_eq!(absent.serialize_field("title", &mut buf, 8, false), Ok(8));
    assert_eq!(&buf, b"........");
}

#[test]
fn absent_optional_field_writes_nothing_wherever_the_cursor_stands() {
    let mut buf = [b'.'; 2];
    let absent: Option<bool> = None;
    assert_eq!(absent.serialize_field("safe", &mut buf, 3, true), Ok(3));
    assert_eq!(absent.serialize_field("safe", &mut buf, usize::MAX, false), Ok(usize::MAX));
    assert_eq!(&buf, b"..");
}

#[test]
fn values_fail_at_a_cursor_behind_the_end() {
    let mut buf = [b'.'; 4];
    assert_eq!("".to_json_value(&mut buf, 5), Err(SerializationError));
    assert_eq!(true.to_json_value(&mut buf, 5), Err(SerializationError));
    assert_eq!(7i64.to_json_value(&mut buf, usize::MAX), Err(SerializationError));
    assert_eq!(Vec::<bool>::new().to_json_value(&mut buf, 9), Err(SerializationError));
    assert_eq!(Some("x").serialize_field("k", &mut buf, 5, false), Err(SerializationError));
    assert_eq!(&buf, b"....");
}

#[test]
fn field_fails_when_it_does_not_fit() {
    let mut buf = [0u8; 13];
    assert_eq!("Test".serialize_field("title", &mut buf, 0, false), Err(SerializationError));
    let mut buf = [0u8; 14];
    assert_eq!("Test".serialize_field("title", &mut buf, 0, false), Ok(14));
    assert_eq!("Test".serialize_field("title", &mut buf, 0, true), Err(SerializationError));
}

#[test]
fn vector_is_written_as_an_array() {
    assert_eq!(text_of(&Vec::<&str>::new()), "[]");
    assert_eq!(text_of(&vec!["de"]), r#"["de"]"#);
    assert_eq!(text_of(&vec![1i64, -2, 30]), "[1,-2,30]");
    assert_eq!(text_of(&vec![vec![true], vec![], vec![false, true]]), "[[true],[],[false,true]]");
}

#[test]
fn vector_fails_when_the_closing_bracket_does_not_fit() {
    let list = vec!["a", "b"];
    let mut buf = [0u8; 9];
    assert_eq!(list.to_json(&mut buf), Ok(9));
    assert_eq!(&buf, br#"["a","b"]"#);
    let mut buf = [0u8; 8];
    assert_eq!(list.to_json(&mut buf), Err(SerializationError));
}

#[test]
fn document_fits_into_a_buffer_of_its_length_and_not_into_a_shorter_one() {
    let link = Link::builder("coap://example.org").rel("test").hreflang(vec!["de", "en"]).build();
    let expected = r#"{"href":"coap://example.org","rel":"test","hreflang":["de","en"]}"#;

    let mut exact = vec![0u8; expected.len()];
    assert_eq!(link.to_json(&mut exact), Ok(expected.len()));
    assert_eq!(exact, expected.as_bytes());

    let mut short = vec![0u8; expected.len() - 1];
    assert_eq!(link.to_json(&mut short), Err(SerializationError));

    let mut empty = [0u8; 0];
    assert_eq!(link.to_json(&mut empty), Err(SerializationError));
}

#[test]
fn document_fails_at_every_length_below_its_own() {
    let link = Link::builder("x").anchor("y").build();
    let expected = r#"{"href":"x","anchor":"y"}"#;
    for size in 0..expected.len() {
        let mut buf = vec![0u8; size];
        assert_eq!(link.to_json(&mut buf), Err(SerializationError));
    }
    let mut buf = vec![0u8; expected.len() + 3];
    assert_eq!(link.to_json(&mut buf), Ok(expected.len()));
    assert_eq!(&buf[..expected.len()], expected.as_bytes());
    assert_eq!(&buf[expected.len()..], &[0u8, 0, 0]);
}

#[test]
fn rendering_the_same_record_twice_gives_the_same_bytes() {
    let link = Link::builder("coap://example.org").link_type("test:testLink").build();
    let mut first = [0u8; 80];
    let mut second = [0xffu8; 80];
    let first_length = link.to_json(&mut first).unwrap();
    let second_length = link.to_json(&mut second).unwrap();
    assert_eq!(first_length, second_length);
    assert_eq!(&first[..first_length], &second[..second_length]);

    let again = link.to_json(&mut first).unwrap();
    assert_eq!(again, first_length);
    assert_eq!(&first[..again], &second[..second_length]);
}

#[test]
fn rendering_at_a_cursor_leaves_the_bytes_in_front_of_it() {
    let mut buf = [b'#'; 12];
    let end = "ab".to_json_value(&mut buf, 4).unwrap();
    assert_eq!(end, 8);
    assert_eq!(&buf, b"####\"ab\"####");
}

#[test]
fn failed_rendering_leaves_the_bytes_in_front_of_the_cursor() {
    let mut buf = [b'#'; 6];
    assert_eq!("abc".to_json_value(&mut buf, 3), Err(SerializationError));
    assert_eq!(&buf[..3], b"###");
}
