//! The four operations on todo items. Each is two steps around one round
//! trip to the table store: the request to send, and the response that the
//! outcome of the round trip earns.

use vstd::prelude::*;
use vstd::string::StringExecFns;
use crate::attribute::{AttributeMap, AttributeValue, Record};
use crate::codec::{decode, decoded, encode, encoded, DecodeError};
use crate::http::{
    bare, rendered_view, with_body, Response, BAD_REQUEST, CREATED, NOT_IMPLEMENTED, OK,
};
use crate::ident::{is_id_text, random_id};
use crate::json::{
    array_text, lemma_no_items_text, todo_json, todo_stored_json, todo_stored_text, todo_text,
    todos_json, todos_text,
};
use crate::store::{key_record, projection, table_name, RequestView, StoreError, StoreRequest};
use crate::todo::{views_of, Todo, TodoView};

verus! {

/// The listing request, mathematically.
pub open spec fn list_request_view() -> RequestView {
    RequestView::Scan { table: table_name() }
}

/// The request that stores an item, mathematically.
pub open spec fn create_request_view(todo: TodoView) -> RequestView {
    RequestView::Put { table: table_name(), item: encoded(todo) }
}

/// The request that fetches the item with an identifier, mathematically.
pub open spec fn get_request_view(id: Seq<char>) -> RequestView {
    RequestView::Get { table: table_name(), key: key_record(id), projection: projection() }
}

/// The request that removes the item with an identifier, mathematically.
pub open spec fn delete_request_view(id: Seq<char>) -> RequestView {
    RequestView::Delete { table: table_name(), key: key_record(id) }
}

/// The request that lists all items: one scan of the whole table.
pub fn list_request() -> (r: StoreRequest)
    ensures
        r@ == list_request_view(),
{
    StoreRequest::Scan { table: String::from_str("todos") }
}

/// A new item for a task text, under a freshly drawn identifier. The text is
/// taken as it is.
pub fn new_todo(text: String) -> (r: Todo)
    ensures
        r@.task == text@,
        is_id_text(r@.id),
{
    Todo::new(random_id(), text)
}

/// The request that stores an item: an unconditional put of its record.
pub fn create_request(todo: &Todo) -> (r: StoreRequest)
    ensures
        r@ == create_request_view(todo@),
{
    StoreRequest::Put { table: String::from_str("todos"), item: encode(todo) }
}

fn key_for(id: &str) -> (r: AttributeMap)
    ensures
        r@ == key_record(id@),
{
    let mut key = AttributeMap::new();
    key.insert(String::from_str("id"), AttributeValue::Text(String::from_str(id)));
    key
}

/// The request that fetches the item with an identifier.
pub fn get_request(id: &str) -> (r: StoreRequest)
    ensures
        r@ == get_request_view(id@),
{
    StoreRequest::Get {
        table: String::from_str("todos"),
        key: key_for(id),
        projection: String::from_str("id, task"),
    }
}

/// The request that removes the item with an identifier.
pub fn delete_request(id: &str) -> (r: StoreRequest)
    ensures
        r@ == delete_request_view(id@),
{
    StoreRequest::Delete { table: String::from_str("todos"), key: key_for(id) }
}

/// The records of a sequence of attribute maps.
pub open spec fn records_of(items: Seq<AttributeMap>) -> Seq<Record> {
    Seq::new(items.len(), |i: int| items[i]@)
}

/// What reading a whole listing gives: the items in order, or the fault of
/// the first record that is not an item.
pub open spec fn decoded_all(records: Seq<Record>) -> Result<Seq<TodoView>, DecodeError>
    decreases records.len(),
{
    if records.len() == 0 {
        Ok(Seq::empty())
    } else {
        match decoded_all(records.drop_last()) {
            Err(e) => Err(e),
            Ok(todos) => match decoded(records.last()) {
                Err(e) => Err(e),
                Ok(todo) => Ok(todos.push(todo)),
            },
        }
    }
}

/// A listing reads as items exactly when each of its records does, and then
/// record by record, in the same order.
pub proof fn lemma_decoded_all(records: Seq<Record>)
    ensures
        decoded_all(records) is Ok <==> forall|i: int|
            0 <= i < records.len() ==> decoded(#[trigger] records[i]) is Ok,
        decoded_all(records) matches Ok(todos) ==> todos.len() == records.len() && forall|i: int|
            0 <= i < records.len() ==> decoded(#[trigger] records[i]) == Ok::<
                TodoView,
                DecodeError,
            >(todos[i]),
    decreases records.len(),
{
    if records.len() > 0 {
        let rest = records.drop_last();
        lemma_decoded_all(rest);
        if decoded_all(records) is Ok {
            assert forall|i: int| 0 <= i < records.len() implies decoded(
                #[trigger] records[i],
            ) is Ok by {
                if i < rest.len() {
                    assert(rest[i] == records[i]);
                }
            }
        }
        if forall|i: int| 0 <= i < records.len() ==> decoded(#[trigger] records[i]) is Ok {
            assert forall|i: int| 0 <= i < rest.len() implies decoded(#[trigger] rest[i]) is Ok by {
                assert(rest[i] == records[i]);
            }
            assert(decoded(records[records.len() - 1]) is Ok);
        }
        if let Ok(todos) = decoded_all(records) {
            assert forall|i: int| 0 <= i < records.len() implies decoded(#[trigger] records[i])
                == Ok::<TodoView, DecodeError>(todos[i]) by {
                if i < rest.len() {
                    assert(rest[i] == records[i]);
                }
            }
        }
    }
}

/// Reads every record of a listing. One record that is not an item fails the
/// whole listing.
pub fn decode_all(items: &Vec<AttributeMap>) -> (r: Result<Vec<Todo>, DecodeError>)
    ensures
        r matches Ok(todos) ==> decoded_all(records_of(items@)) == Ok::<
            Seq<TodoView>,
            DecodeError,
        >(views_of(todos@)),
        r matches Err(e) ==> decoded_all(records_of(items@)) == Err::<
            Seq<TodoView>,
            DecodeError,
        >(e),
{
    let ghost records = records_of(items@);
    let mut todos: Vec<Todo> = Vec::new();
    let mut i: usize = 0;
    proof {
        assert(views_of(todos@) =~= Seq::<TodoView>::empty());
    }
    while i < items.len()
        invariant
            i <= items@.len(),
            records == records_of(items@),
            decoded_all(records.take(i as int)) == Ok::<Seq<TodoView>, DecodeError>(
                views_of(todos@),
            ),
        decreases items@.len() - i,
    {
        proof {
            let next = records.take(i + 1);
            assert(next.drop_last() =~= records.take(i as int));
            assert(next.last() == items@[i as int]@);
        }
        match decode(&items[i]) {
            Err(e) => {
                proof {
                    lemma_failure_stays(records, i + 1, e);
                }
                return Err(e);
            },
            Ok(todo) => {
                let ghost before = views_of(todos@);
                todos.push(todo);
                proof {
                    assert(views_of(todos@) =~= before.push(todo@));
                }
            },
        }
        i += 1;
    }
    proof {
        assert(records.take(i as int) =~= records);
    }
    Ok(todos)
}

/// A listing whose beginning fails to decode fails with the same fault.
proof fn lemma_failure_stays(records: Seq<Record>, n: int, e: DecodeError)
    requires
        0 <= n <= records.len(),
        decoded_all(records.take(n)) == Err::<Seq<TodoView>, DecodeError>(e),
    ensures
        decoded_all(records) == Err::<Seq<TodoView>, DecodeError>(e),
    decreases records.len() - n,
{
    if n < records.len() {
        let next = records.take(n + 1);
        assert(next.drop_last() =~= records.take(n));
        lemma_failure_stays(records, n + 1, e);
    } else {
        assert(records.take(n) =~= records);
    }
}

/// The records that a scan returned; a scan that names no items returned none.
pub open spec fn scanned(items: Option<Vec<AttributeMap>>) -> Seq<Record> {
    match items {
        Some(items) => records_of(items@),
        None => Seq::empty(),
    }
}

/// The response to a listing, given what the scan returned.
///
/// A failure of the store, or a record that is not an item, is answered with
/// a bare 400. Else the answer is 200 with the JSON array of the items, in the
/// order in which the store returned them, or a bare 500 where a field of one
/// of them cannot be written as a JSON string. An empty table is always answered with 200 and the
/// empty array.
pub fn list_response(outcome: &Result<Option<Vec<AttributeMap>>, StoreError>) -> (r: Response)
    ensures
        match outcome {
            Err(_) => r@ == bare(BAD_REQUEST),
            Ok(items) => match decoded_all(scanned(*items)) {
                Err(_) => r@ == bare(BAD_REQUEST),
                Ok(todos) => {
                    &&& r@ == rendered_view(OK, todos_text(todos))
                    &&& todos.len() == 0 ==> r@ == with_body(OK, array_text(Seq::empty()))
                },
            },
        },
{
    match outcome {
        Err(_) => Response::bare(BAD_REQUEST),
        Ok(None) => {
            let none: Vec<Todo> = Vec::new();
            proof {
                assert(views_of(none@) =~= Seq::<TodoView>::empty());
                lemma_no_items_text(views_of(none@));
            }
            Response::rendered(OK, todos_json(&none))
        },
        Ok(Some(items)) => match decode_all(items) {
            Err(_) => Response::bare(BAD_REQUEST),
            Ok(todos) => {
                proof {
                    lemma_no_items_text(views_of(todos@));
                }
                Response::rendered(OK, todos_json(&todos))
            },
        },
    }
}

/// The response to a creation, given the item and what the put returned.
///
/// A failure of the store is answered with a bare 400. Else the answer is 201
/// with the item as a JSON object, or a bare 500 where one of its fields
/// cannot be written as a JSON string.
pub fn create_response(todo: &Todo, outcome: &Result<(), StoreError>) -> (r: Response)
    ensures
        match outcome {
            Err(_) => r@ == bare(BAD_REQUEST),
            Ok(_) => r@ == rendered_view(CREATED, todo_text(todo@)),
        },
{
    match outcome {
        Err(_) => Response::bare(BAD_REQUEST),
        Ok(_) => Response::rendered(CREATED, todo_json(todo)),
    }
}

/// The response to a fetch of one item, given what the store returned.
///
/// A failure of the store, or a record that is not an item, is answered with
/// a bare 400, and a key under which nothing is stored with 501 and an empty
/// body. Else the answer is 200 with the stored record as JSON, each field
/// tagged as a string, or a bare 500 where one of its fields cannot be
/// written as a JSON string.
pub fn get_response(outcome: &Result<Option<AttributeMap>, StoreError>) -> (r: Response)
    ensures
        match outcome {
            Err(_) => r@ == bare(BAD_REQUEST),
            Ok(None) => r@ == with_body(NOT_IMPLEMENTED, Seq::empty()),
            Ok(Some(item)) => match decoded(item@) {
                Err(_) => r@ == bare(BAD_REQUEST),
                Ok(todo) => r@ == rendered_view(OK, todo_stored_text(todo)),
            },
        },
{
    match outcome {
        Err(_) => Response::bare(BAD_REQUEST),
        Ok(None) => Response::with_body(NOT_IMPLEMENTED, String::new()),
        Ok(Some(item)) => match decode(item) {
            Err(_) => Response::bare(BAD_REQUEST),
            Ok(todo) => Response::rendered(OK, todo_stored_json(&todo)),
        },
    }
}

/// The response to a removal, given what the store returned: a bare 200, or
/// a bare 400 where the store failed. Whether anything was stored under the
/// key makes no difference.
pub fn delete_response(outcome: &Result<(), StoreError>) -> (r: Response)
    ensures
        r@ == bare(
            if outcome is Ok {
                OK
            } else {
                BAD_REQUEST
            },
        ),
{
    match outcome {
        Err(_) => Response::bare(BAD_REQUEST),
        Ok(_) => Response::bare(OK),
    }
}

} // verus!
