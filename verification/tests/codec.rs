use todo_api::attribute::{Attribute, AttributeMap, AttributeValue};
use todo_api::codec::{decode, encode, DecodeError, Field};
use todo_api::todo::Todo;

fn text(s: &str) -> AttributeValue {
    AttributeValue::Text(s.to_string())
}

fn record(entries: Vec<(&str, AttributeValue)>) -> AttributeMap {
    let mut r = AttributeMap::new();
    for (name, value) in entries {
        r.insert(name.to_string(), value);
    }
    r
}

#[test]
fn encode_makes_two_string_attributes() {
    let todo = Todo::new("abc".to_string(), "buy milk".to_string());
    let r = encode(&todo);
    assert_eq!(r.get(&"id".to_string()), Some(&text("abc")));
    assert_eq!(r.get(&"task".to_string()), Some(&text("buy milk")));
    assert_eq!(r.get(&"other".to_string()), None);
    assert_eq!(
        r.into_entries(),
        vec![
            Attribute { name: "id".to_string(), value: text("abc") },
            Attribute { name: "task".to_string(), value: text("buy milk") },
        ]
    );
}

#[test]
fn decode_reads_back_what_encode_wrote() {
    let todo = Todo::new("7c1f".to_string(), "water the plants".to_string());
    assert_eq!(decode(&encode(&todo)), Ok(todo));
}

#[test]
fn decode_keeps_an_empty_task() {
    let todo = Todo::new("id-1".to_string(), String::new());
    let back = decode(&encode(&todo)).unwrap();
    assert_eq!(back.id(), "id-1");
    assert_eq!(back.task(), "");
}

#[test]
fn decode_fails_without_id() {
    let r = record(vec![("task", text("buy milk"))]);
    assert_eq!(decode(&r), Err(DecodeError::Missing(Field::Id)));
}

#[test]
fn decode_fails_without_task() {
    let r = record(vec![("id", text("abc"))]);
    assert_eq!(decode(&r), Err(DecodeError::Missing(Field::Task)));
}

#[test]
fn decode_fails_on_empty_record() {
    assert_eq!(decode(&AttributeMap::new()), Err(DecodeError::Missing(Field::Id)));
}

#[test]
fn decode_fails_when_id_is_not_a_string() {
    let r = record(vec![("id", AttributeValue::Number("12".to_string())), ("task", text("x"))]);
    assert_eq!(decode(&r), Err(DecodeError::NotText(Field::Id)));
}

#[test]
fn decode_fails_when_task_is_not_a_string() {
    for value in [
        AttributeValue::Number("1".to_string()),
        AttributeValue::Flag(true),
        AttributeValue::Null,
        AttributeValue::Binary(vec![1, 2]),
        AttributeValue::Composite,
    ] {
        let r = record(vec![("id", text("abc")), ("task", value)]);
        assert_eq!(decode(&r), Err(DecodeError::NotText(Field::Task)));
    }
}

#[test]
fn decode_ignores_other_attributes() {
    let r = record(vec![
        ("done", AttributeValue::Flag(false)),
        ("id", text("abc")),
        ("task", text("x")),
    ]);
    assert_eq!(decode(&r), Ok(Todo::new("abc".to_string(), "x".to_string())));
}

#[test]
fn a_later_attribute_of_the_same_name_counts() {
    let r = record(vec![("id", text("old")), ("task", text("x")), ("id", text("new"))]);
    assert_eq!(r.get(&"id".to_string()), Some(&text("new")));
    assert_eq!(decode(&r), Ok(Todo::new("new".to_string(), "x".to_string())));
}
