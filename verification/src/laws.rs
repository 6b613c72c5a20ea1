//! What holds of the operations taken together, over the model of the table
//! store.

use vstd::prelude::*;
use crate::attribute::Record;
use crate::codec::{decoded, encoded, law_decode_encode, lemma_names_differ, DecodeError};
use crate::handlers::{
    create_request_view, decoded_all, delete_request_view, get_request_view, lemma_decoded_all,
};
use crate::store::{after, found, is_scan_of, key_of, key_record, keys_of, Table};
use crate::todo::TodoView;

verus! {

/// The key of an item's record is the item's identifier.
pub proof fn lemma_key_of_encoded(todo: TodoView)
    ensures
        key_of(encoded(todo)) == Some(todo.id),
{
    lemma_names_differ();
    reveal_strlit("id");
    reveal_strlit("task");
}

/// The key of an identifier's key record is the identifier.
pub proof fn lemma_key_of_key_record(id: Seq<char>)
    ensures
        key_of(key_record(id)) == Some(id),
{
}

/// Once an item is created, fetching its identifier finds the record that
/// reads back as the item itself, task text and all, whatever the table held
/// before.
pub proof fn law_create_then_get(table: Table, todo: TodoView)
    ensures
        found(after(table, create_request_view(todo)), get_request_view(todo.id)) matches Some(
            record,
        ) && decoded(record) == Ok::<TodoView, DecodeError>(todo),
{
    lemma_key_of_encoded(todo);
    lemma_key_of_key_record(todo.id);
    law_decode_encode(todo);
}

/// Once an identifier is deleted, fetching it finds nothing, whatever the
/// table held before.
pub proof fn law_delete_then_get(table: Table, id: Seq<char>)
    ensures
        found(after(table, delete_request_view(id)), get_request_view(id)) is None,
{
    lemma_key_of_key_record(id);
}

/// The identifiers of a sequence of items.
pub open spec fn ids_of(todos: Seq<TodoView>) -> Seq<Seq<char>> {
    Seq::new(todos.len(), |i: int| todos[i].id)
}

/// The table after the items were created one after the other.
pub open spec fn after_creates(table: Table, todos: Seq<TodoView>) -> Table
    decreases todos.len(),
{
    if todos.len() == 0 {
        table
    } else {
        after(after_creates(table, todos.drop_last()), create_request_view(todos.last()))
    }
}

/// The table after the identifiers were deleted one after the other.
pub open spec fn after_deletes(table: Table, ids: Seq<Seq<char>>) -> Table
    decreases ids.len(),
{
    if ids.len() == 0 {
        table
    } else {
        after(after_deletes(table, ids.drop_last()), delete_request_view(ids.last()))
    }
}

/// Creating items with distinct identifiers in an empty table leaves exactly
/// their identifiers as keys, each with the record of its item.
pub proof fn lemma_after_creates(todos: Seq<TodoView>)
    requires
        ids_of(todos).no_duplicates(),
    ensures
        after_creates(Map::empty(), todos).dom() =~= ids_of(todos).to_set(),
        forall|j: int|
            0 <= j < todos.len() ==> after_creates(Map::empty(), todos)[(#[trigger] todos[j]).id]
                == encoded(todos[j]),
    decreases todos.len(),
{
    broadcast use vstd::seq_lib::group_seq_properties;

    let ids = ids_of(todos);
    if todos.len() == 0 {
        assert(ids.to_set() =~= Set::<Seq<char>>::empty());
    } else {
        let rest = todos.drop_last();
        let last = todos.last();
        assert(ids_of(rest) =~= ids.drop_last());
        lemma_after_creates(rest);
        lemma_key_of_encoded(last);
        let before = after_creates(Map::empty(), rest);
        let now = after_creates(Map::empty(), todos);
        assert(now == before.insert(last.id, encoded(last)));
        assert(ids.last() == last.id);
        assert(ids.to_set() =~= ids.drop_last().to_set().insert(ids.last()));
        assert forall|j: int| 0 <= j < todos.len() implies now[(#[trigger] todos[j]).id]
            == encoded(todos[j]) by {
            if j < todos.len() - 1 {
                assert(ids[j] != ids[todos.len() - 1]);
                assert(rest[j] == todos[j]);
            }
        }
    }
}

/// Deleting identifiers takes exactly their keys out of a table and leaves
/// the other records as they were.
pub proof fn lemma_after_deletes(table: Table, ids: Seq<Seq<char>>)
    ensures
        after_deletes(table, ids).dom() =~= table.dom().difference(ids.to_set()),
        forall|k: Seq<char>| #[trigger]
            after_deletes(table, ids).contains_key(k) ==> after_deletes(table, ids)[k] == table[k],
    decreases ids.len(),
{
    broadcast use vstd::seq_lib::group_seq_properties;

    if ids.len() == 0 {
        assert(ids.to_set() =~= Set::<Seq<char>>::empty());
    } else {
        lemma_after_deletes(table, ids.drop_last());
        lemma_key_of_key_record(ids.last());
        let before = after_deletes(table, ids.drop_last());
        assert(after_deletes(table, ids) == before.remove(ids.last()));
        assert(ids.to_set() =~= ids.drop_last().to_set().insert(ids.last()));
    }
}

/// After creating N items with distinct identifiers in an empty table and
/// deleting M of them, every scan returns exactly N - M records, each of
/// which reads back as one of the created items that was not deleted, with
/// its own identifier and task text, and each such item is among them.
pub proof fn law_list_after_creates_and_deletes(
    created: Seq<TodoView>,
    deleted: Seq<Seq<char>>,
    listing: Seq<Record>,
)
    requires
        ids_of(created).no_duplicates(),
        deleted.no_duplicates(),
        forall|i: int| 0 <= i < deleted.len() ==> ids_of(created).contains(#[trigger] deleted[i]),
        is_scan_of(after_deletes(after_creates(Map::empty(), created), deleted), listing),
    ensures
        listing.len() == created.len() - deleted.len(),
        decoded_all(listing) is Ok,
        forall|i: int|
            0 <= i < listing.len() ==> exists|j: int|
                0 <= j < created.len() && !deleted.contains((#[trigger] created[j]).id) && decoded(
                    #[trigger] listing[i],
                ) == Ok::<TodoView, DecodeError>(created[j]),
        forall|j: int|
            0 <= j < created.len() && !deleted.contains((#[trigger] created[j]).id)
                ==> listing.contains(encoded(created[j])),
{
    broadcast use vstd::seq_lib::seq_to_set_is_finite;

    let ids = ids_of(created);
    let filled = after_creates(Map::empty(), created);
    let table = after_deletes(filled, deleted);
    let keys = keys_of(listing);
    lemma_after_creates(created);
    lemma_after_deletes(filled, deleted);
    ids.unique_seq_to_set();
    deleted.unique_seq_to_set();
    keys.unique_seq_to_set();
    assert(ids.to_set().intersect(deleted.to_set()) =~= deleted.to_set()) by {
        assert forall|k: Seq<char>| deleted.to_set().contains(k) implies ids.to_set().contains(
            k,
        ) by {
            let i = choose|i: int| 0 <= i < deleted.len() && deleted[i] == k;
            assert(ids.contains(deleted[i]));
        }
    }
    vstd::set_lib::lemma_set_difference_len(ids.to_set(), deleted.to_set());
    assert(table.dom() == ids.to_set().difference(deleted.to_set()));
    assert(keys.len() == listing.len());
    assert forall|i: int| 0 <= i < listing.len() implies exists|j: int|
        0 <= j < created.len() && !deleted.contains((#[trigger] created[j]).id) && decoded(
            #[trigger] listing[i],
        ) == Ok::<TodoView, DecodeError>(created[j]) by {
        let k = keys[i];
        assert(keys.contains(k));
        assert(keys.to_set().contains(k));
        assert(table.contains_key(k));
        assert(ids.contains(k));
        let j = choose|j: int| 0 <= j < ids.len() && ids[j] == k;
        assert(created[j].id == k);
        assert(table[keys[i]] == listing[i]);
        assert(filled[created[j].id] == encoded(created[j]));
        law_decode_encode(created[j]);
    }
    lemma_decoded_all(listing);
    assert forall|j: int|
        0 <= j < created.len() && !deleted.contains(
            (#[trigger] created[j]).id,
        ) implies listing.contains(encoded(created[j])) by {
        let k = created[j].id;
        assert(ids[j] == k);
        assert(ids.contains(k));
        assert(table.dom().contains(k));
        assert(keys.to_set().contains(k));
        let i = choose|i: int| 0 <= i < keys.len() && keys[i] == k;
        assert(table[keys[i]] == listing[i]);
        assert(filled[created[j].id] == encoded(created[j]));
    }
}

/// Two creates with distinct identifiers leave the same table in whichever
/// order the store carries them out.
pub proof fn law_distinct_creates_commute(table: Table, first: TodoView, second: TodoView)
    requires
        first.id != second.id,
    ensures
        after(after(table, create_request_view(first)), create_request_view(second)) == after(
            after(table, create_request_view(second)),
            create_request_view(first),
        ),
{
    lemma_key_of_encoded(first);
    lemma_key_of_encoded(second);
    assert(table.insert(first.id, encoded(first)).insert(second.id, encoded(second))
        =~= table.insert(second.id, encoded(second)).insert(first.id, encoded(first)));
}

/// Creates with distinct identifiers never collide: a scan afterwards holds
/// one record for each of them.
pub proof fn law_distinct_creates_all_listed(created: Seq<TodoView>, listing: Seq<Record>)
    requires
        ids_of(created).no_duplicates(),
        is_scan_of(after_creates(Map::empty(), created), listing),
    ensures
        listing.len() == created.len(),
        forall|j: int|
            0 <= j < created.len() ==> listing.contains(encoded(#[trigger] created[j])),
{
    let none = Seq::<Seq<char>>::empty();
    assert(after_deletes(after_creates(Map::empty(), created), none) == after_creates(
        Map::empty(),
        created,
    ));
    law_list_after_creates_and_deletes(created, none, listing);
    assert forall|j: int| 0 <= j < created.len() implies listing.contains(
        encoded(#[trigger] created[j]),
    ) by {
        assert(!none.contains(created[j].id));
    }
}

} // verus!
