//! The table store as the service sees it: the requests it is sent, and a
//! mathematical model of what they do.

use vstd::prelude::*;
use vstd::string::StringExecFns;
use crate::attribute::{AttributeMap, Record, Value};

verus! {

/// The name of the table that holds the items.
pub open spec fn table_name() -> Seq<char> {
    "todos"@
}

/// The attributes that a fetch of one item asks for.
pub open spec fn projection() -> Seq<char> {
    "id, task"@
}

/// The key record of an identifier: the one string attribute `id`.
pub open spec fn key_record(id: Seq<char>) -> Record {
    Map::empty().insert("id"@, Value::Text(id))
}

/// A request to the table store, mathematically.
pub enum RequestView {
    Scan { table: Seq<char> },
    Put { table: Seq<char>, item: Record },
    Get { table: Seq<char>, key: Record, projection: Seq<char> },
    Delete { table: Seq<char>, key: Record },
}

/// A request to the table store.
#[derive(Debug, Clone, PartialEq, Eq)]
pub enum StoreRequest {
    /// Every item of the table, unfiltered.
    Scan { table: String },
    /// Store the item under its key, over whatever is there.
    Put { table: String, item: AttributeMap },
    /// The item under the key, reduced to the projected attributes.
    Get { table: String, key: AttributeMap, projection: String },
    /// Remove the item under the key, if there is one.
    Delete { table: String, key: AttributeMap },
}

impl View for StoreRequest {
    type V = RequestView;

    open spec fn view(&self) -> RequestView {
        match self {
            StoreRequest::Scan { table } => RequestView::Scan { table: table@ },
            StoreRequest::Put { table, item } => RequestView::Put { table: table@, item: item@ },
            StoreRequest::Get { table, key, projection } => RequestView::Get {
                table: table@,
                key: key@,
                projection: projection@,
            },
            StoreRequest::Delete { table, key } => RequestView::Delete {
                table: table@,
                key: key@,
            },
        }
    }
}

/// A failure of the table store: no connection, throttling, a request it
/// refused. The detail is for the log and never reaches a client.
#[derive(Debug, Clone, PartialEq, Eq)]
pub struct StoreError {
    pub detail: String,
}

/// Where the table store is, and which table holds the items.
#[derive(Debug, Clone, PartialEq, Eq)]
pub struct Database {
    pub region_name: String,
    pub endpoint: String,
    pub table_name: String,
}

impl Database {
    /// The items' table in the store of that name at that endpoint.
    pub fn new(region_name: String, endpoint: String) -> (r: Database)
        ensures
            r.region_name@ == region_name@,
            r.endpoint@ == endpoint@,
            r.table_name@ == table_name(),
    {
        Database { region_name, endpoint, table_name: String::from_str("todos") }
    }
}

/// How the items' table is laid out when it is first made.
#[derive(Debug, Clone, PartialEq, Eq)]
pub struct TableDefinition {
    pub table_name: String,
    pub key_attribute: String,
    pub key_attribute_type: String,
    pub key_type: String,
    pub read_capacity_units: i64,
    pub write_capacity_units: i64,
}

/// The layout of the items' table: hash-keyed by the string attribute `id`,
/// with a fixed throughput of five units each way.
pub fn table_definition() -> (r: TableDefinition)
    ensures
        r.table_name@ == table_name(),
        r.key_attribute@ == "id"@,
        r.key_attribute_type@ == "S"@,
        r.key_type@ == "HASH"@,
        r.read_capacity_units == 5,
        r.write_capacity_units == 5,
{
    TableDefinition {
        table_name: String::from_str("todos"),
        key_attribute: String::from_str("id"),
        key_attribute_type: String::from_str("S"),
        key_type: String::from_str("HASH"),
        read_capacity_units: 5,
        write_capacity_units: 5,
    }
}

/// A table, mathematically: key text to the record stored under it.
pub type Table = Map<Seq<char>, Record>;

/// The key under which the store files a record: its string attribute `id`.
pub open spec fn key_of(record: Record) -> Option<Seq<char>> {
    if record.contains_key("id"@) {
        match record["id"@] {
            Value::Text(s) => Some(s),
            _ => None,
        }
    } else {
        None
    }
}

/// The table after a request that the store carried out. A put files the
/// item under its key over whatever was there, a delete removes what is under
/// the key and is content to find nothing, and reading changes nothing. A
/// request without a string key is refused by the store and changes nothing.
pub open spec fn after(table: Table, request: RequestView) -> Table {
    match request {
        RequestView::Scan { .. } => table,
        RequestView::Get { .. } => table,
        RequestView::Put { item, .. } => match key_of(item) {
            Some(k) => table.insert(k, item),
            None => table,
        },
        RequestView::Delete { key, .. } => match key_of(key) {
            Some(k) => table.remove(k),
            None => table,
        },
    }
}

/// What a fetch under a key record finds in a table. The store hands the
/// record out reduced to the projected attributes; the model leaves it whole,
/// which reads back as the same item, since reading ignores other attributes.
pub open spec fn fetched(table: Table, key: Record) -> Option<Record> {
    match key_of(key) {
        Some(k) => if table.contains_key(k) {
            Some(table[k])
        } else {
            None
        },
        None => None,
    }
}

/// What the store returns for a request that fetches one item.
pub open spec fn found(table: Table, request: RequestView) -> Option<Record> {
    match request {
        RequestView::Get { key, .. } => fetched(table, key),
        _ => None,
    }
}

/// The keys of a sequence of records; a record without a key counts as the
/// empty text.
pub open spec fn keys_of(items: Seq<Record>) -> Seq<Seq<char>> {
    Seq::new(
        items.len(),
        |i: int|
            match key_of(items[i]) {
                Some(k) => k,
                None => Seq::empty(),
            },
    )
}

/// Whether `items` is what a scan of `table` may return: every stored record
/// once, in any order.
pub open spec fn is_scan_of(table: Table, items: Seq<Record>) -> bool {
    &&& keys_of(items).no_duplicates()
    &&& keys_of(items).to_set() == table.dom()
    &&& forall|i: int| 0 <= i < items.len() ==> #[trigger] table[keys_of(items)[i]] == items[i]
}

} // verus!
