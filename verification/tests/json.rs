use todo_api::json::{array, object, stored, todo_json, todo_stored_json, todos_json};
use todo_api::todo::Todo;

#[test]
fn object_frames_the_two_literals() {
    assert_eq!(object("\"a\"", "\"b\""), "{\"id\":\"a\",\"task\":\"b\"}");
}

#[test]
fn stored_tags_each_field_as_string() {
    assert_eq!(stored("\"a\"", "\"b\""), "{\"id\":{\"S\":\"a\"},\"task\":{\"S\":\"b\"}}");
}

#[test]
fn array_of_nothing_is_empty_brackets() {
    assert_eq!(array(&vec![]), "[]");
}

#[test]
fn array_of_one_has_no_comma() {
    assert_eq!(array(&vec!["{}".to_string()]), "[{}]");
}

#[test]
fn array_puts_commas_between_neighbours() {
    assert_eq!(array(&vec!["1".to_string(), "2".to_string(), "3".to_string()]), "[1,2,3]");
}

#[test]
fn todo_json_quotes_its_fields() {
    let todo = Todo::new("abc".to_string(), "buy milk".to_string());
    assert_eq!(todo_json(&todo), Some("{\"id\":\"abc\",\"task\":\"buy milk\"}".to_string()));
}

#[test]
fn todo_json_escapes_quotes_and_line_breaks() {
    let todo = Todo::new("abc".to_string(), "say \"hi\"\nthen leave\\".to_string());
    assert_eq!(
        todo_json(&todo),
        Some("{\"id\":\"abc\",\"task\":\"say \\\"hi\\\"\\nthen leave\\\\\"}".to_string())
    );
}

#[test]
fn todo_stored_json_shows_the_record() {
    let todo = Todo::new("abc".to_string(), "buy milk".to_string());
    assert_eq!(
        todo_stored_json(&todo),
        Some("{\"id\":{\"S\":\"abc\"},\"task\":{\"S\":\"buy milk\"}}".to_string())
    );
}

#[test]
fn todos_json_lists_in_order() {
    let todos = vec![
        Todo::new("1".to_string(), "a".to_string()),
        Todo::new("2".to_string(), "b".to_string()),
    ];
    assert_eq!(
        todos_json(&todos),
        Some("[{\"id\":\"1\",\"task\":\"a\"},{\"id\":\"2\",\"task\":\"b\"}]".to_string())
    );
    assert_eq!(todos_json(&vec![]), Some("[]".to_string()));
}
