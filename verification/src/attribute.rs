//! Flat attribute records, as the table store holds them.

use vstd::prelude::*;

verus! {

/// What an attribute value is, mathematically.
pub enum Value {
    Text(Seq<char>),
    Number(Seq<char>),
    Flag(bool),
    Null,
    Binary(Seq<u8>),
    Composite,
}

/// A record, mathematically: attribute name to value.
pub type Record = Map<Seq<char>, Value>;

/// A tagged value of one attribute.
#[derive(Debug, Clone, PartialEq, Eq)]
pub enum AttributeValue {
    /// A string.
    Text(String),
    /// A number, kept in its decimal text.
    Number(String),
    /// A boolean.
    Flag(bool),
    /// The null value.
    Null,
    /// Raw bytes.
    Binary(Vec<u8>),
    /// A set, a list or a nested record; this service never looks inside one.
    Composite,
}

impl View for AttributeValue {
    type V = Value;

    open spec fn view(&self) -> Value {
        match self {
            AttributeValue::Text(s) => Value::Text(s@),
            AttributeValue::Number(s) => Value::Number(s@),
            AttributeValue::Flag(b) => Value::Flag(*b),
            AttributeValue::Null => Value::Null,
            AttributeValue::Binary(b) => Value::Binary(b@),
            AttributeValue::Composite => Value::Composite,
        }
    }
}

/// One named attribute of a record.
#[derive(Debug, Clone, PartialEq, Eq)]
pub struct Attribute {
    pub name: String,
    pub value: AttributeValue,
}

/// The record that a sequence of named attributes stands for. Where a name
/// occurs more than once, the last occurrence counts.
pub open spec fn record_of(entries: Seq<Attribute>) -> Record
    decreases entries.len(),
{
    if entries.len() == 0 {
        Map::empty()
    } else {
        record_of(entries.drop_last()).insert(entries.last().name@, entries.last().value@)
    }
}

/// A flat record: attribute names with their tagged values.
#[derive(Debug, Clone, PartialEq, Eq)]
pub struct AttributeMap {
    entries: Vec<Attribute>,
}

impl View for AttributeMap {
    type V = Record;

    closed spec fn view(&self) -> Record {
        record_of(self.entries@)
    }
}

impl AttributeMap {
    /// The record without attributes.
    pub fn new() -> (r: AttributeMap)
        ensures
            r@ == Map::<Seq<char>, Value>::empty(),
    {
        AttributeMap { entries: Vec::new() }
    }

    /// Sets the attribute `name` to `value`, whether or not it was there.
    pub fn insert(&mut self, name: String, value: AttributeValue)
        ensures
            final(self)@ == old(self)@.insert(name@, value@),
    {
        let ghost before = self.entries@;
        self.entries.push(Attribute { name, value });
        proof {
            assert(self.entries@.drop_last() =~= before);
        }
    }

    /// The named attributes that make up the record, in the order in which
    /// they were set.
    pub fn into_entries(self) -> (r: Vec<Attribute>)
        ensures
            record_of(r@) == self@,
    {
        self.entries
    }

    /// The value of the attribute `name`, if the record has one.
    pub fn get(&self, name: &String) -> (r: Option<&AttributeValue>)
        ensures
            r is Some <==> self@.contains_key(name@),
            r matches Some(v) ==> v@ == self@[name@],
    {
        let mut found: Option<&AttributeValue> = None;
        let mut i: usize = 0;
        while i < self.entries.len()
            invariant
                i <= self.entries@.len(),
                found is Some <==> record_of(self.entries@.take(i as int)).contains_key(name@),
                found matches Some(v) ==> v@ == record_of(self.entries@.take(i as int))[name@],
            decreases self.entries@.len() - i,
        {
            proof {
                let next = self.entries@.take(i + 1);
                assert(next.drop_last() =~= self.entries@.take(i as int));
                assert(next.last() == self.entries@[i as int]);
                assert(record_of(next) == record_of(next.drop_last()).insert(
                    next.last().name@,
                    next.last().value@,
                ));
            }
            if self.entries[i].name == *name {
                found = Some(&self.entries[i].value);
            }
            i += 1;
        }
        proof {
            assert(self.entries@.take(i as int) =~= self.entries@);
        }
        found
    }
}

} // verus!
