use wot_td_embedded::data_structures::array::{Array, ArrayEntry};
use wot_td_embedded::data_structures::map::{LinkedMap, MapEntry};
use wot_td_embedded::data_structures::{same_text, VecMap};
use wot_td_embedded::serialization::{JsonValue, SerializationError, ToJson};

fn text_of<T: JsonValue>(value: &T) -> String {
    let mut buf = [0u8; 256];
    let length = value.to_json_value(&mut buf, 0).unwrap();
    String::from_utf8(buf[..length].to_vec()).unwrap()
}

fn values_of<'a>(list: &'a Array<'a, i64>) -> Vec<i64> {
    let mut values = Vec::new();
    let mut iter = list.iter();
    while let Some(value) = iter.next() {
        values.push(*value);
    }
    values
}

fn entries_of<'a>(map: &'a LinkedMap<'a, i64>) -> Vec<(&'a str, i64)> {
    let mut entries = Vec::new();
    let mut iter = map.iter();
    while let Some(item) = iter.next() {
        entries.push((item.key, *item.value));
    }
    entries
}

#[test]
fn empty_array_yields_nothing() {
    let list: Array<i64> = Array::new();
    assert!(list.iter().next().is_none());
    assert_eq!(text_of(&list), "[]");
}

#[test]
fn array_of_one_entry() {
    let mut entry = Array::new_entry(5i64);
    let list = Array::new().add(&mut entry);
    assert_eq!(values_of(&list), vec![5]);
    assert_eq!(text_of(&list), "[5]");
}

#[test]
fn array_yields_the_value_added_last_first() {
    let mut first = ArrayEntry::new(1i64);
    let mut second = ArrayEntry::new(2);
    let mut third = ArrayEntry::new(3);
    let list = Array::new().add(&mut first).add(&mut second).add(&mut third);
    assert_eq!(values_of(&list), vec![3, 2, 1]);
    assert_eq!(text_of(&list), "[3,2,1]");
}

#[test]
fn array_yields_the_same_order_on_every_traversal() {
    let mut first = ArrayEntry::new(10i64);
    let mut second = ArrayEntry::new(20);
    let list = Array::new().add(&mut first).add(&mut second);
    assert_eq!(values_of(&list), vec![20, 10]);
    assert_eq!(values_of(&list), vec![20, 10]);

    let mut one = list.iter();
    let mut other = list.iter();
    assert_eq!(one.next(), Some(&20));
    assert_eq!(other.next(), Some(&20));
    assert_eq!(one.next(), Some(&10));
    assert_eq!(one.next(), None);
    assert_eq!(one.next(), None);
    assert_eq!(other.next(), Some(&10));
    assert_eq!(other.next(), None);
}

#[test]
fn array_entries_chain_in_front_of_earlier_ones() {
    let last = ArrayEntry::new("c");
    let middle = ArrayEntry::add("b", &last);
    let first = ArrayEntry::add("a", &middle);

    let mut iter = first.iter();
    assert_eq!(iter.next(), Some(&"a"));
    assert_eq!(iter.next(), Some(&"b"));
    assert_eq!(iter.next(), Some(&"c"));
    assert_eq!(iter.next(), None);

    assert_eq!(text_of(&first), r#"["a","b","c"]"#);
    assert_eq!(text_of(&middle), r#"["b","c"]"#);
    assert_eq!(text_of(&last), r#"["c"]"#);
}

#[test]
fn array_add_lets_go_of_what_hung_on_the_entry() {
    let tail = ArrayEntry::new(9i64);
    let mut entry = ArrayEntry::add(1, &tail);
    let list = Array::new().add(&mut entry);
    assert_eq!(values_of(&list), vec![1]);
}

#[test]
fn array_fails_when_it_does_not_fit() {
    let mut first = ArrayEntry::new(1i64);
    let mut second = ArrayEntry::new(2);
    let list = Array::new().add(&mut first).add(&mut second);
    let mut buf = [0u8; 5];
    assert_eq!(list.to_json(&mut buf), Ok(5));
    assert_eq!(&buf, b"[2,1]");
    let mut buf = [0u8; 4];
    assert_eq!(list.to_json(&mut buf), Err(SerializationError));
}

#[test]
fn empty_linked_map_yields_nothing() {
    let map: LinkedMap<i64> = LinkedMap::new();
    assert!(map.iter().next().is_none());
    assert_eq!(text_of(&map), "{}");
}

#[test]
fn linked_map_yields_the_entry_added_last_first() {
    let mut first = LinkedMap::new_entry("a", 1i64);
    let mut second = MapEntry::new("b", 2);
    let map = LinkedMap::new().add(&mut first).add(&mut second);
    assert_eq!(entries_of(&map), vec![("b", 2), ("a", 1)]);
    assert_eq!(entries_of(&map), vec![("b", 2), ("a", 1)]);
    assert_eq!(text_of(&map), r#"{"b":2,"a":1}"#);
}

#[test]
fn linked_map_keeps_entries_that_share_a_key() {
    let mut first = MapEntry::new("en", "one");
    let mut second = MapEntry::new("en", "two");
    let map = LinkedMap::new().add(&mut first).add(&mut second);
    assert_eq!(text_of(&map), r#"{"en":"two","en":"one"}"#);
}

#[test]
fn map_entries_chain_in_front_of_earlier_ones() {
    let last = MapEntry::new("de", "Lampe");
    let first = MapEntry::add("en", "lamp", &last);

    let mut iter = first.iter();
    let item = iter.next().unwrap();
    assert_eq!((item.key, *item.value), ("en", "lamp"));
    let item = iter.next().unwrap();
    assert_eq!((item.key, *item.value), ("de", "Lampe"));
    assert!(iter.next().is_none());

    assert_eq!(text_of(&first), r#"{"en":"lamp","de":"Lampe"}"#);
}

#[test]
fn linked_map_fails_when_it_does_not_fit() {
    let mut entry = MapEntry::new("a", true);
    let map = LinkedMap::new().add(&mut entry);
    let mut buf = [0u8; 10];
    assert_eq!(map.to_json(&mut buf), Ok(10));
    assert_eq!(&buf, br#"{"a":true}"#);
    let mut buf = [0u8; 9];
    assert_eq!(map.to_json(&mut buf), Err(SerializationError));
}

#[test]
fn same_text_compares_byte_by_byte() {
    assert!(same_text("", ""));
    assert!(same_text("title", "title"));
    assert!(!same_text("title", "titles"));
    assert!(!same_text("title", "titlE"));
    assert!(same_text("grün", "grün"));
    assert!(!same_text("grün", "grun"));
}

#[test]
fn vec_map_keeps_the_order_of_its_entries() {
    let map: VecMap<i64> = VecMap::new(vec![("b", 2), ("a", 1), ("c", 3)]);
    assert_eq!(map.len(), 3);
    let entries: Vec<(&str, i64)> = map.iter().map(|entry| (entry.0, entry.1)).collect();
    assert_eq!(entries, vec![("b", 2), ("a", 1), ("c", 3)]);
    let again: Vec<(&str, i64)> = map.iter().map(|entry| (entry.0, entry.1)).collect();
    assert_eq!(again, entries);
    assert_eq!(text_of(&map), r#"{"b":2,"a":1,"c":3}"#);
}

#[test]
fn vec_map_without_entries() {
    let mut map: VecMap<i64> = VecMap::new(Vec::new());
    assert_eq!(map.len(), 0);
    assert_eq!(map.find_index("a"), None);
    assert_eq!(map.find_value("a"), None);
    assert_eq!(text_of(&map), "{}");
}

#[test]
fn vec_map_finds_the_first_entry_with_a_key() {
    let mut map: VecMap<i64> = VecMap::new(vec![("a", 1), ("b", 2), ("a", 3)]);
    assert_eq!(map.find_index("a"), Some(0));
    assert_eq!(map.find_index("b"), Some(1));
    assert_eq!(map.find_index("c"), None);
    assert_eq!(map.find_value("a"), Some(&1));
    assert_eq!(map.find_value("b"), Some(&2));
    assert_eq!(map.find_value("c"), None);
}

#[test]
fn vec_map_insert_of_a_new_key_adds_an_entry() {
    let mut map: VecMap<i64> = VecMap::new(vec![("a", 1)]);
    assert_eq!(map.insert("b", 2), None);
    assert_eq!(map.len(), 2);
    assert_eq!(map.find_value("b"), Some(&2));
    assert_eq!(map.find_index("b"), Some(1));
    assert_eq!(text_of(&map), r#"{"a":1,"b":2}"#);
}

#[test]
fn vec_map_insert_of_a_present_key_replaces_its_entry() {
    let mut map: VecMap<i64> = VecMap::new(vec![("a", 1), ("b", 2), ("c", 3)]);
    assert_eq!(map.insert("b", 20), Some(2));
    assert_eq!(map.len(), 3);
    assert_eq!(map.find_value("b"), Some(&20));
    let with_key = map.iter().filter(|entry| entry.0 == "b").count();
    assert_eq!(with_key, 1);
    assert_eq!(text_of(&map), r#"{"a":1,"c":3,"b":20}"#);
}

#[test]
fn vec_map_insert_into_an_empty_map() {
    let mut map: VecMap<&str> = VecMap::new(Vec::new());
    assert_eq!(map.insert("en", "lamp"), None);
    assert_eq!(map.insert("en", "light"), Some("lamp"));
    assert_eq!(map.len(), 1);
    assert_eq!(text_of(&map), r#"{"en":"light"}"#);
}

#[test]
fn vec_map_insert_takes_out_only_the_first_of_several_entries() {
    let mut map: VecMap<i64> = VecMap::new(vec![("a", 1), ("a", 2)]);
    assert_eq!(map.insert("a", 3), Some(1));
    assert_eq!(map.len(), 2);
    assert_eq!(text_of(&map), r#"{"a":2,"a":3}"#);
}

#[test]
fn vec_map_fails_when_it_does_not_fit() {
    let map: VecMap<i64> = VecMap::new(vec![("a", 1), ("b", 2)]);
    let mut buf = [0u8; 13];
    assert_eq!(map.to_json(&mut buf), Ok(13));
    assert_eq!(&buf, br#"{"a":1,"b":2}"#);
    let mut buf = [0u8; 12];
    assert_eq!(map.to_json(&mut buf), Err(SerializationError));
}
