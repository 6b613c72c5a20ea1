use std::collections::HashMap;

use todo_api::attribute::{AttributeMap, AttributeValue};
use todo_api::codec::decode;
use todo_api::handlers::{
    create_request, create_response, decode_all, delete_request, delete_response, get_request,
    get_response, list_request, list_response, new_todo,
};
use todo_api::http::{
    Response, BAD_REQUEST, CREATED, INTERNAL_SERVER_ERROR, NOT_IMPLEMENTED, OK,
};
use todo_api::store::{table_definition, Database, StoreError, StoreRequest};
use todo_api::todo::Todo;

const CONTENT_TYPE: &str = "application/x-www-form-urlencoded; charset=UTF-8";

fn key_text(record: &AttributeMap) -> String {
    match record.get(&"id".to_string()) {
        Some(AttributeValue::Text(s)) => s.clone(),
        _ => panic!("no string key"),
    }
}

fn failure() -> StoreError {
    StoreError { detail: "throttled".to_string() }
}

/// A table in memory that carries requests out as the store does.
struct Table {
    items: HashMap<String, AttributeMap>,
}

impl Table {
    fn new() -> Table {
        Table { items: HashMap::new() }
    }

    fn put(&mut self, request: StoreRequest) -> Result<(), StoreError> {
        match request {
            StoreRequest::Put { table, item } => {
                assert_eq!(table, "todos");
                self.items.insert(key_text(&item), item);
                Ok(())
            }
            _ => panic!("not a put"),
        }
    }

    fn get(&self, request: StoreRequest) -> Result<Option<AttributeMap>, StoreError> {
        match request {
            StoreRequest::Get { table, key, projection } => {
                assert_eq!(table, "todos");
                assert_eq!(projection, "id, task");
                Ok(self.items.get(&key_text(&key)).cloned())
            }
            _ => panic!("not a get"),
        }
    }

    fn delete(&mut self, request: StoreRequest) -> Result<(), StoreError> {
        match request {
            StoreRequest::Delete { table, key } => {
                assert_eq!(table, "todos");
                self.items.remove(&key_text(&key));
                Ok(())
            }
            _ => panic!("not a delete"),
        }
    }

    fn scan(&self, request: StoreRequest) -> Result<Option<Vec<AttributeMap>>, StoreError> {
        match request {
            StoreRequest::Scan { table } => {
                assert_eq!(table, "todos");
                Ok(Some(self.items.values().cloned().collect()))
            }
            _ => panic!("not a scan"),
        }
    }

    fn create(&mut self, text: &str) -> (Todo, Response) {
        let todo = new_todo(text.to_string());
        let outcome = self.put(create_request(&todo));
        let response = create_response(&todo, &outcome);
        (todo, response)
    }
}

fn is_generated_id(id: &str) -> bool {
    let chars: Vec<char> = id.chars().collect();
    chars.len() == 36
        && chars.iter().enumerate().all(|(i, c)| {
            if i == 8 || i == 13 || i == 18 || i == 23 {
                *c == '-'
            } else {
                c.is_ascii_digit() || ('a'..='f').contains(c)
            }
        })
        && chars[14] == '4'
}

#[test]
fn requests_name_the_table_and_the_key() {
    assert_eq!(list_request(), StoreRequest::Scan { table: "todos".to_string() });
    let mut key = AttributeMap::new();
    key.insert("id".to_string(), AttributeValue::Text("abc".to_string()));
    assert_eq!(
        get_request("abc"),
        StoreRequest::Get {
            table: "todos".to_string(),
            key: key.clone(),
            projection: "id, task".to_string(),
        }
    );
    assert_eq!(delete_request("abc"), StoreRequest::Delete { table: "todos".to_string(), key });
    let todo = Todo::new("abc".to_string(), "x".to_string());
    let mut item = AttributeMap::new();
    item.insert("id".to_string(), AttributeValue::Text("abc".to_string()));
    item.insert("task".to_string(), AttributeValue::Text("x".to_string()));
    assert_eq!(create_request(&todo), StoreRequest::Put { table: "todos".to_string(), item });
}

#[test]
fn new_todo_keeps_the_text_and_draws_an_id() {
    let todo = new_todo("buy milk".to_string());
    assert_eq!(todo.task(), "buy milk");
    assert!(is_generated_id(todo.id()));
}

#[test]
fn new_todos_get_distinct_ids() {
    let a = new_todo("same".to_string());
    let b = new_todo("same".to_string());
    assert_ne!(a.id(), b.id());
}

#[test]
fn create_then_get_finds_the_task() {
    let mut table = Table::new();
    let (todo, _) = table.create("call home");
    let stored = table.get(get_request(todo.id())).unwrap().unwrap();
    let back = decode(&stored).unwrap();
    assert_eq!(back.task(), "call home");
    assert_eq!(back.id(), todo.id());
}

#[test]
fn delete_then_get_finds_nothing() {
    let mut table = Table::new();
    let (todo, _) = table.create("call home");
    let outcome = table.delete(delete_request(todo.id()));
    assert_eq!(delete_response(&outcome).status, OK);
    let outcome = table.get(get_request(todo.id()));
    assert_eq!(outcome, Ok(None));
    assert_eq!(get_response(&outcome).status, NOT_IMPLEMENTED);
}

#[test]
fn list_after_creates_and_deletes_holds_the_rest() {
    let mut table = Table::new();
    let (a, _) = table.create("a");
    let (b, _) = table.create("b");
    let (c, _) = table.create("c");
    table.delete(delete_request(b.id())).unwrap();
    let listed = decode_all(&table.scan(list_request()).unwrap().unwrap()).unwrap();
    assert_eq!(listed.len(), 2);
    assert!(listed.contains(&a));
    assert!(listed.contains(&c));
    assert!(!listed.contains(&b));
}

#[test]
fn many_creates_leave_one_entry_each() {
    let mut table = Table::new();
    let mut made = Vec::new();
    for i in 0..50 {
        made.push(table.create(&format!("task {}", i)).0);
    }
    let listed = decode_all(&table.scan(list_request()).unwrap().unwrap()).unwrap();
    assert_eq!(listed.len(), 50);
    for todo in &made {
        assert!(listed.contains(todo));
    }
}

#[test]
fn post_get_delete_get() {
    let mut table = Table::new();
    let (todo, created) = table.create("buy milk");
    assert_eq!(created.status, CREATED);
    assert_eq!(created.content_type.as_deref(), Some(CONTENT_TYPE));
    assert_eq!(created.body, format!("{{\"id\":\"{}\",\"task\":\"buy milk\"}}", todo.id()));
    assert!(is_generated_id(todo.id()));

    let got = get_response(&table.get(get_request(todo.id())));
    assert_eq!(got.status, OK);
    assert_eq!(got.content_type.as_deref(), Some(CONTENT_TYPE));
    assert_eq!(
        got.body,
        format!("{{\"id\":{{\"S\":\"{}\"}},\"task\":{{\"S\":\"buy milk\"}}}}", todo.id())
    );

    let deleted = delete_response(&table.delete(delete_request(todo.id())));
    assert_eq!(deleted, Response { status: OK, content_type: None, body: String::new() });

    let gone = get_response(&table.get(get_request(todo.id())));
    assert_eq!(
        gone,
        Response {
            status: NOT_IMPLEMENTED,
            content_type: Some(CONTENT_TYPE.to_string()),
            body: String::new(),
        }
    );
}

#[test]
fn list_of_empty_table_is_empty_array() {
    let table = Table::new();
    let response = list_response(&table.scan(list_request()));
    assert_eq!(
        response,
        Response {
            status: OK,
            content_type: Some(CONTENT_TYPE.to_string()),
            body: "[]".to_string(),
        }
    );
}

#[test]
fn list_of_a_scan_without_items_is_empty_array() {
    let response = list_response(&Ok(None));
    assert_eq!(response.status, OK);
    assert_eq!(response.body, "[]");
}

#[test]
fn list_response_holds_every_item() {
    let mut table = Table::new();
    let (a, _) = table.create("a");
    let response = list_response(&table.scan(list_request()));
    assert_eq!(response.status, OK);
    assert_eq!(response.body, format!("[{{\"id\":\"{}\",\"task\":\"a\"}}]", a.id()));
}

#[test]
fn list_fails_closed_on_one_bad_record() {
    let mut good = AttributeMap::new();
    good.insert("id".to_string(), AttributeValue::Text("1".to_string()));
    good.insert("task".to_string(), AttributeValue::Text("a".to_string()));
    let mut bad = AttributeMap::new();
    bad.insert("id".to_string(), AttributeValue::Text("2".to_string()));
    let items = vec![good, bad];
    assert!(decode_all(&items).is_err());
    let response = list_response(&Ok(Some(items)));
    assert_eq!(response, Response { status: BAD_REQUEST, content_type: None, body: String::new() });
}

#[test]
fn store_failures_are_bare_400() {
    let bare = Response { status: BAD_REQUEST, content_type: None, body: String::new() };
    let todo = Todo::new("abc".to_string(), "x".to_string());
    assert_eq!(list_response(&Err(failure())), bare);
    assert_eq!(create_response(&todo, &Err(failure())), bare);
    assert_eq!(get_response(&Err(failure())), bare);
    assert_eq!(delete_response(&Err(failure())), bare);
}

#[test]
fn get_of_a_record_that_is_no_item_is_400() {
    let mut bad = AttributeMap::new();
    bad.insert("id".to_string(), AttributeValue::Text("2".to_string()));
    bad.insert("task".to_string(), AttributeValue::Null);
    assert_eq!(get_response(&Ok(Some(bad))).status, BAD_REQUEST);
}

#[test]
fn delete_of_a_missing_key_is_ok() {
    let mut table = Table::new();
    let outcome = table.delete(delete_request("nothing-here"));
    assert_eq!(delete_response(&outcome).status, OK);
}

#[test]
fn rendered_without_body_is_bare_500() {
    assert_eq!(
        Response::rendered(CREATED, None),
        Response { status: INTERNAL_SERVER_ERROR, content_type: None, body: String::new() }
    );
    assert_eq!(
        Response::rendered(CREATED, Some("x".to_string())),
        Response {
            status: 201,
            content_type: Some(CONTENT_TYPE.to_string()),
            body: "x".to_string(),
        }
    );
}

#[test]
fn status_codes() {
    assert_eq!((OK, CREATED, BAD_REQUEST, INTERNAL_SERVER_ERROR, NOT_IMPLEMENTED), (200, 201, 400, 500, 501));
}

#[test]
fn table_is_hash_keyed_by_string_id() {
    let d = table_definition();
    assert_eq!(d.table_name, "todos");
    assert_eq!(d.key_attribute, "id");
    assert_eq!(d.key_attribute_type, "S");
    assert_eq!(d.key_type, "HASH");
    assert_eq!(d.read_capacity_units, 5);
    assert_eq!(d.write_capacity_units, 5);
}

#[test]
fn database_names_the_items_table() {
    let db = Database::new("local".to_string(), "http://localhost:8000".to_string());
    assert_eq!(db.region_name, "local");
    assert_eq!(db.endpoint, "http://localhost:8000");
    assert_eq!(db.table_name, "todos");
}
