use llm_sdk::decode::{read_count, read_optional_text, read_text};
use llm_sdk::encode::{
    put_optional, put_optional_count, put_optional_flag, put_optional_signed, put_optional_text,
};
use llm_sdk::text::{copy_optional_text, same_text};
use llm_sdk::DecodeError;
use serde_json::Value;

fn entries(text: &str) -> serde_json::Map<String, Value> {
    match serde_json::from_str(text).unwrap() {
        Value::Object(map) => map,
        _ => unreachable!(),
    }
}

#[test]
fn same_text_compares_every_character() {
    assert!(same_text("", ""));
    assert!(same_text("stop", "stop"));
    assert!(same_text("什么是生活?", "什么是生活?"));
    assert!(!same_text("stop", "stoq"));
    assert!(!same_text("stop", "sto"));
    assert!(!same_text("", "x"));
    assert!(!same_text("é", "e"));
}

#[test]
fn an_optional_text_is_copied_as_it_is() {
    assert_eq!(copy_optional_text(&None), None);
    assert_eq!(copy_optional_text(&Some(String::new())), Some(String::new()));
    assert_eq!(copy_optional_text(&Some("zheng".to_string())), Some("zheng".to_string()));
}

#[test]
fn a_required_text_is_there_and_is_a_string() {
    let map = entries(r#"{"id": "x", "n": 1, "none": null}"#);
    assert_eq!(read_text(&map, "id"), Ok("x".to_string()));
    assert_eq!(read_text(&map, "other"), Err(DecodeError::MissingField));
    assert_eq!(read_text(&map, "n"), Err(DecodeError::TypeMismatch));
    assert_eq!(read_text(&map, "none"), Err(DecodeError::TypeMismatch));
}

#[test]
fn an_optional_text_may_be_absent_or_null() {
    let map = entries(r#"{"name": "x", "n": 1, "none": null}"#);
    assert_eq!(read_optional_text(&map, "name"), Ok(Some("x".to_string())));
    assert_eq!(read_optional_text(&map, "other"), Ok(None));
    assert_eq!(read_optional_text(&map, "none"), Ok(None));
    assert_eq!(read_optional_text(&map, "n"), Err(DecodeError::TypeMismatch));
}

#[test]
fn a_count_is_a_whole_number_that_is_not_negative() {
    let map = entries(
        r#"{"zero": 0, "big": 18446744073709551615, "neg": -1, "half": 0.5, "whole": 2.0,
            "text": "3", "none": null}"#,
    );
    assert_eq!(read_count(&map, "zero"), Ok(0));
    assert_eq!(read_count(&map, "big"), Ok(usize::MAX));
    assert_eq!(read_count(&map, "other"), Err(DecodeError::MissingField));
    for key in ["neg", "half", "whole", "text", "none"] {
        assert_eq!(read_count(&map, key), Err(DecodeError::TypeMismatch), "{}", key);
    }
}

#[test]
fn a_field_without_a_value_is_not_written() {
    let mut map = serde_json::Map::new();
    put_optional_text(&mut map, "stop", &None);
    put_optional_count(&mut map, "n", None);
    put_optional_signed(&mut map, "top_p", None);
    put_optional_flag(&mut map, "stream", None);
    put_optional(&mut map, "tools", None);
    assert!(map.is_empty());
}

#[test]
fn a_field_with_a_value_is_written_under_its_key() {
    let mut map = serde_json::Map::new();
    put_optional_text(&mut map, "stop", &Some("END".to_string()));
    put_optional_count(&mut map, "n", Some(7));
    put_optional_signed(&mut map, "top_p", Some(-3));
    put_optional_signed(&mut map, "temperature", Some(3));
    put_optional_flag(&mut map, "stream", Some(true));
    put_optional(&mut map, "tools", Some(Value::Array(vec![Value::Null])));
    assert_eq!(
        Value::Object(map),
        serde_json::from_str::<Value>(
            r#"{"stop": "END", "n": 7, "top_p": -3, "temperature": 3, "stream": true,
                "tools": [null]}"#
        )
        .unwrap()
    );
}

#[test]
fn a_later_value_replaces_an_earlier_one_under_the_same_key() {
    let mut map = serde_json::Map::new();
    put_optional_count(&mut map, "n", Some(1));
    put_optional_count(&mut map, "n", Some(2));
    put_optional_count(&mut map, "n", None);
    assert_eq!(map.len(), 1);
    assert_eq!(map.get("n"), Some(&Value::from(2u64)));
}
