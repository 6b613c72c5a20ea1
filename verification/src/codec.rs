//! The mapping between todo items and flat attribute records.

use vstd::prelude::*;
use crate::attribute::{AttributeMap, AttributeValue, Record, Value};
use crate::todo::{Todo, TodoView};

verus! {

/// A field of a todo item.
#[derive(Debug, Clone, Copy, PartialEq, Eq, Structural)]
pub enum Field {
    Id,
    Task,
}

/// Why a record is not a todo item.
#[derive(Debug, Clone, Copy, PartialEq, Eq, Structural)]
pub enum DecodeError {
    /// The record has no attribute for the field.
    Missing(Field),
    /// The record's attribute for the field is not a string.
    NotText(Field),
}

/// The attribute name under which a field is stored.
pub open spec fn name_of(field: Field) -> Seq<char> {
    match field {
        Field::Id => "id"@,
        Field::Task => "task"@,
    }
}

/// The record of a todo item: one string attribute for each field.
pub open spec fn encoded(todo: TodoView) -> Record {
    Map::empty().insert(name_of(Field::Id), Value::Text(todo.id)).insert(
        name_of(Field::Task),
        Value::Text(todo.task),
    )
}

/// What reading one field out of a record gives.
pub open spec fn field_text(record: Record, field: Field) -> Result<Seq<char>, DecodeError> {
    if !record.contains_key(name_of(field)) {
        Err(DecodeError::Missing(field))
    } else {
        match record[name_of(field)] {
            Value::Text(s) => Ok(s),
            _ => Err(DecodeError::NotText(field)),
        }
    }
}

/// The todo item that a record holds, or the first fault found in it, the
/// identifier being looked at before the task. Attributes other than the two
/// fields are ignored.
pub open spec fn decoded(record: Record) -> Result<TodoView, DecodeError> {
    match field_text(record, Field::Id) {
        Err(e) => Err(e),
        Ok(id) => match field_text(record, Field::Task) {
            Err(e) => Err(e),
            Ok(task) => Ok(TodoView { id, task }),
        },
    }
}

/// The two attribute names differ.
pub proof fn lemma_names_differ()
    ensures
        name_of(Field::Id) != name_of(Field::Task),
{
    reveal_strlit("id");
    reveal_strlit("task");
    assert("id"@.len() != "task"@.len());
}

/// Lays a todo item out as a record. Every field becomes a string attribute.
pub fn encode(todo: &Todo) -> (r: AttributeMap)
    ensures
        r@ == encoded(todo@),
{
    let mut record = AttributeMap::new();
    record.insert(String::from_str("id"), AttributeValue::Text(todo.id().clone()));
    record.insert(String::from_str("task"), AttributeValue::Text(todo.task().clone()));
    record
}

fn read_text(record: &AttributeMap, field: Field) -> (r: Result<String, DecodeError>)
    ensures
        r is Ok <==> field_text(record@, field) is Ok,
        r matches Ok(s) ==> field_text(record@, field) == Ok::<Seq<char>, DecodeError>(s@),
        r matches Err(e) ==> field_text(record@, field) == Err::<Seq<char>, DecodeError>(e),
{
    let name = match field {
        Field::Id => String::from_str("id"),
        Field::Task => String::from_str("task"),
    };
    match record.get(&name) {
        None => Err(DecodeError::Missing(field)),
        Some(AttributeValue::Text(s)) => Ok(s.clone()),
        Some(_) => Err(DecodeError::NotText(field)),
    }
}

/// Reads a todo item out of a record. It fails exactly when a field is
/// missing or is not a string, and then names the first such field.
pub fn decode(record: &AttributeMap) -> (r: Result<Todo, DecodeError>)
    ensures
        r is Ok <==> decoded(record@) is Ok,
        r matches Ok(todo) ==> decoded(record@) == Ok::<TodoView, DecodeError>(todo@),
        r matches Err(e) ==> decoded(record@) == Err::<TodoView, DecodeError>(e),
{
    match read_text(record, Field::Id) {
        Err(e) => Err(e),
        Ok(id) => match read_text(record, Field::Task) {
            Err(e) => Err(e),
            Ok(task) => Ok(Todo::new(id, task)),
        },
    }
}

/// A record fails to read as a todo item exactly when one of the two fields
/// is missing or is not a string.
pub proof fn law_decode_fails_iff_field_missing_or_not_text(record: Record)
    ensures
        decoded(record) is Err <==> exists|f: Field|
            !record.contains_key(#[trigger] name_of(f)) || !(record[name_of(f)] is Text),
{
    if decoded(record) is Err {
        if field_text(record, Field::Id) is Err {
            assert(!record.contains_key(name_of(Field::Id)) || !(record[name_of(Field::Id)] is Text));
        } else {
            assert(!record.contains_key(name_of(Field::Task)) || !(record[name_of(
                Field::Task,
            )] is Text));
        }
    }
    if exists|f: Field|
        !record.contains_key(#[trigger] name_of(f)) || !(record[name_of(f)] is Text) {
        let f = choose|f: Field|
            !record.contains_key(#[trigger] name_of(f)) || !(record[name_of(f)] is Text);
        match f {
            Field::Id => {
                assert(field_text(record, Field::Id) is Err);
            },
            Field::Task => {
                assert(field_text(record, Field::Task) is Err);
            },
        }
    }
}

/// Reading back what was laid out gives the item again.
pub proof fn law_decode_encode(todo: TodoView)
    ensures
        decoded(encoded(todo)) == Ok::<TodoView, DecodeError>(todo),
{
    lemma_names_differ();
}

} // verus!
