//! The JSON texts that the service sends.

use vstd::prelude::*;
use vstd::string::StringExecFns;
use crate::todo::{views_of, Todo, TodoView};

verus! {

/// What writing a text as a JSON string gives: the literal, quotes and
/// escapes included, or nothing where the text cannot be written.
pub uninterp spec fn json_text(s: Seq<char>) -> Option<Seq<char>>;

/// Writes a text as a JSON string literal with `serde_json::to_string`.
/// Trusted: whether the call succeeds, and the literal it then gives, depend
/// on the text alone. Nothing is claimed of which texts succeed.
#[verifier::external_body]
pub(crate) fn quote(s: &str) -> (r: Option<String>)
    ensures
        match r {
            Some(t) => json_text(s@) == Some(t@),
            None => json_text(s@) is None,
        },
{
    serde_json::to_string(s).ok()
}

/// The JSON object of an item, given the literals of its two fields.
pub open spec fn object_text(id: Seq<char>, task: Seq<char>) -> Seq<char> {
    "{\"id\":"@ + id + ",\"task\":"@ + task + "}"@
}

/// The JSON text of a stored record of an item, each field tagged as a
/// string, given the literals of its two fields.
pub open spec fn stored_text(id: Seq<char>, task: Seq<char>) -> Seq<char> {
    "{\"id\":{\"S\":"@ + id + "},\"task\":{\"S\":"@ + task + "}}"@
}

/// The texts, in order, with a comma between neighbours.
pub open spec fn joined(parts: Seq<Seq<char>>) -> Seq<char>
    decreases parts.len(),
{
    if parts.len() == 0 {
        Seq::empty()
    } else if parts.len() == 1 {
        parts[0]
    } else {
        joined(parts.drop_last()) + ","@ + parts.last()
    }
}

/// The JSON array of the given element texts.
pub open spec fn array_text(parts: Seq<Seq<char>>) -> Seq<char> {
    "["@ + joined(parts) + "]"@
}

/// The JSON object of an item: there exactly when both of its fields can be
/// written as JSON strings.
pub open spec fn todo_text(todo: TodoView) -> Option<Seq<char>> {
    match (json_text(todo.id), json_text(todo.task)) {
        (Some(id), Some(task)) => Some(object_text(id, task)),
        _ => None,
    }
}

/// The JSON text of the stored record of an item: there exactly when both of
/// its fields can be written as JSON strings.
pub open spec fn todo_stored_text(todo: TodoView) -> Option<Seq<char>> {
    match (json_text(todo.id), json_text(todo.task)) {
        (Some(id), Some(task)) => Some(stored_text(id, task)),
        _ => None,
    }
}

/// The JSON array of the items, in order: there exactly when the JSON object
/// of each item is.
pub open spec fn todos_text(todos: Seq<TodoView>) -> Option<Seq<char>> {
    if forall|i: int| 0 <= i < todos.len() ==> (#[trigger] todo_text(todos[i])) is Some {
        Some(array_text(Seq::new(todos.len(), |i: int| todo_text(todos[i])->Some_0)))
    } else {
        None
    }
}

/// The JSON array of no items is the empty array.
pub proof fn lemma_no_items_text(todos: Seq<TodoView>)
    ensures
        todos.len() == 0 ==> todos_text(todos) == Some(array_text(Seq::empty())),
{
    if todos.len() == 0 {
        assert(Seq::new(todos.len(), |i: int| todo_text(todos[i])->Some_0) =~= Seq::<
            Seq<char>,
        >::empty());
    }
}

/// Puts the two field literals into the JSON object of an item.
pub fn object(id: &str, task: &str) -> (r: String)
    ensures
        r@ == object_text(id@, task@),
{
    let mut out = String::from_str("{\"id\":");
    out.append(id);
    out.append(",\"task\":");
    out.append(task);
    out.append("}");
    out
}

/// Puts the two field literals into the JSON text of a stored record.
pub fn stored(id: &str, task: &str) -> (r: String)
    ensures
        r@ == stored_text(id@, task@),
{
    let mut out = String::from_str("{\"id\":{\"S\":");
    out.append(id);
    out.append("},\"task\":{\"S\":");
    out.append(task);
    out.append("}}");
    out
}

/// Puts element texts into a JSON array.
pub fn array(parts: &Vec<String>) -> (r: String)
    ensures
        r@ == array_text(Seq::new(parts@.len(), |i: int| parts@[i]@)),
{
    let ghost texts = Seq::new(parts@.len(), |i: int| parts@[i]@);
    let mut out = String::from_str("[");
    let mut i: usize = 0;
    while i < parts.len()
        invariant
            i <= parts@.len(),
            texts == Seq::new(parts@.len(), |i: int| parts@[i]@),
            out@ == "["@ + joined(texts.take(i as int)),
        decreases parts@.len() - i,
    {
        proof {
            let next = texts.take(i + 1);
            assert(next.drop_last() =~= texts.take(i as int));
            assert(next.last() == parts@[i as int]@);
            if i == 0 {
                assert(joined(texts.take(0)) =~= Seq::<char>::empty());
                assert(joined(next) == parts@[0]@);
            } else {
                assert(joined(next) == joined(next.drop_last()) + ","@ + next.last());
            }
        }
        if i > 0 {
            out.append(",");
        }
        out.append(parts[i].as_str());
        proof {
            assert(out@ =~= "["@ + joined(texts.take(i + 1)));
        }
        i += 1;
    }
    proof {
        assert(texts.take(i as int) =~= texts);
    }
    out.append("]");
    out
}

/// The JSON object of an item, or nothing where one of its fields cannot be
/// written as a JSON string.
pub fn todo_json(todo: &Todo) -> (r: Option<String>)
    ensures
        match r {
            Some(t) => todo_text(todo@) == Some(t@),
            None => todo_text(todo@) is None,
        },
{
    match quote(todo.id().as_str()) {
        None => None,
        Some(id) => match quote(todo.task().as_str()) {
            None => None,
            Some(task) => Some(object(id.as_str(), task.as_str())),
        },
    }
}

/// The JSON text of the stored record of an item, or nothing where one of
/// its fields cannot be written as a JSON string.
pub fn todo_stored_json(todo: &Todo) -> (r: Option<String>)
    ensures
        match r {
            Some(t) => todo_stored_text(todo@) == Some(t@),
            None => todo_stored_text(todo@) is None,
        },
{
    match quote(todo.id().as_str()) {
        None => None,
        Some(id) => match quote(todo.task().as_str()) {
            None => None,
            Some(task) => Some(stored(id.as_str(), task.as_str())),
        },
    }
}

/// The JSON array of the items, in order, or nothing where a field of one of
/// them cannot be written as a JSON string. Of no items it is always there.
pub fn todos_json(todos: &Vec<Todo>) -> (r: Option<String>)
    ensures
        match r {
            Some(t) => todos_text(views_of(todos@)) == Some(t@),
            None => todos_text(views_of(todos@)) is None,
        },
        todos@.len() == 0 ==> r is Some,
{
    let ghost items = views_of(todos@);
    let mut parts: Vec<String> = Vec::new();
    let mut i: usize = 0;
    while i < todos.len()
        invariant
            i <= todos@.len(),
            parts@.len() == i,
            items == views_of(todos@),
            forall|j: int|
                0 <= j < i ==> (#[trigger] todo_text(items[j])) == Some((parts@[j])@),
        decreases todos@.len() - i,
    {
        match todo_json(&todos[i]) {
            None => {
                proof {
                    assert(todo_text(items[i as int]) is None);
                }
                return None;
            },
            Some(text) => {
                parts.push(text);
            },
        }
        i += 1;
    }
    proof {
        assert(Seq::new(parts@.len(), |i: int| parts@[i]@) =~= Seq::new(
            items.len(),
            |i: int| todo_text(items[i])->Some_0,
        ));
    }
    Some(array(&parts))
}

} // verus!
