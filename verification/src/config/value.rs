//! The values of a configuration, as a tree.

use crate::text::same;
use vstd::prelude::*;

verus! {

/// A value of the configuration. A number with a fraction and a date are
/// known by their kind alone: nothing in a configuration reads them.
#[derive(Debug, PartialEq)]
pub enum Value {
    String(String),
    Integer(i64),
    Float,
    Boolean(bool),
    Datetime,
    Array(Vec<Value>),
    /// The keys with their values, in the order in which the table is walked.
    Table(Vec<(String, Value)>),
}

/// A value as contracts see it.
pub enum Tree {
    String(Seq<char>),
    Integer(i64),
    Float,
    Boolean(bool),
    Datetime,
    Array(Seq<Tree>),
    Table(Seq<(Seq<char>, Tree)>),
}

/// The tree of a value.
pub open spec fn tree(value: Value) -> Tree
    decreases value,
{
    match value {
        Value::String(text) => Tree::String(text@),
        Value::Integer(number) => Tree::Integer(number),
        Value::Float => Tree::Float,
        Value::Boolean(flag) => Tree::Boolean(flag),
        Value::Datetime => Tree::Datetime,
        Value::Array(items) => Tree::Array(
            Seq::new(
                items@.len(),
                |i: int|
                    if 0 <= i < items@.len() {
                        tree(items@[i])
                    } else {
                        Tree::Float
                    },
            ),
        ),
        Value::Table(entries) => Tree::Table(
            Seq::new(
                entries@.len(),
                |i: int|
                    if 0 <= i < entries@.len() {
                        (entries@[i].0@, tree(entries@[i].1))
                    } else {
                        (Seq::empty(), Tree::Float)
                    },
            ),
        ),
    }
}

impl View for Value {
    type V = Tree;

    open spec fn view(&self) -> Tree {
        tree(*self)
    }
}

/// The entries of a table as contracts see them.
pub open spec fn pairs(entries: Seq<(String, Value)>) -> Seq<(Seq<char>, Tree)> {
    Seq::new(entries.len(), |i: int| (entries[i].0@, entries[i].1@))
}

/// The items of an array as contracts see them.
pub open spec fn trees(items: Seq<Value>) -> Seq<Tree> {
    Seq::new(items.len(), |i: int| items[i]@)
}

/// The view of a table is made of the views of its entries, that of an array
/// of the views of its items.
pub proof fn view_of_parts(value: Value)
    ensures
        value matches Value::Table(entries) ==> value@ == Tree::Table(pairs(entries@)),
        value matches Value::Array(items) ==> value@ == Tree::Array(trees(items@)),
{
    match value {
        Value::Table(entries) => {
            assert(value@->Table_0 =~= pairs(entries@));
        },
        Value::Array(items) => {
            assert(value@->Array_0 =~= trees(items@));
        },
        _ => {},
    }
}

impl Tree {
    /// The name of the value's kind.
    pub open spec fn type_str(self) -> Seq<char> {
        match self {
            Tree::String(_) => "string"@,
            Tree::Integer(_) => "integer"@,
            Tree::Float => "float"@,
            Tree::Boolean(_) => "boolean"@,
            Tree::Datetime => "datetime"@,
            Tree::Array(_) => "array"@,
            Tree::Table(_) => "table"@,
        }
    }
}

/// The first place at which a key stands among the entries of a table.
pub open spec fn position(entries: Seq<(Seq<char>, Tree)>, key: Seq<char>) -> Option<int>
    decreases entries.len(),
{
    if entries.len() == 0 {
        None
    } else if entries[0].0 == key {
        Some(0)
    } else {
        match position(entries.drop_first(), key) {
            Some(i) => Some(i + 1),
            None => None,
        }
    }
}

/// What `position` finds is a place of the key, and the first.
pub proof fn position_is_first(entries: Seq<(Seq<char>, Tree)>, key: Seq<char>)
    ensures
        match position(entries, key) {
            Some(i) => {
                &&& 0 <= i < entries.len()
                &&& entries[i].0 == key
                &&& forall|j: int| 0 <= j < i ==> entries[j].0 != key
            },
            None => forall|j: int| 0 <= j < entries.len() ==> entries[j].0 != key,
        },
    decreases entries.len(),
{
    if entries.len() != 0 && entries[0].0 != key {
        let rest = entries.drop_first();
        position_is_first(rest, key);
        match position(rest, key) {
            Some(i) => {
                assert forall|j: int| 0 <= j < i + 1 implies entries[j].0 != key by {
                    if j > 0 {
                        assert(rest[j - 1] == entries[j]);
                    }
                }
            },
            None => {
                assert forall|j: int| 0 <= j < entries.len() implies entries[j].0 != key by {
                    if j > 0 {
                        assert(rest[j - 1] == entries[j]);
                    }
                }
            },
        }
    }
}

impl Value {
    /// The name of the value's kind.
    pub fn type_str(&self) -> (name: &'static str)
        ensures
            name@ == self@.type_str(),
    {
        match self {
            Value::String(_) => "string",
            Value::Integer(_) => "integer",
            Value::Float => "float",
            Value::Boolean(_) => "boolean",
            Value::Datetime => "datetime",
            Value::Array(_) => "array",
            Value::Table(_) => "table",
        }
    }

    /// A copy of the value with all beneath it.
    pub fn copy(&self) -> (out: Value)
        ensures
            out@ == self@,
        decreases self,
    {
        match self {
            Value::String(text) => Value::String(text.clone()),
            Value::Integer(number) => Value::Integer(*number),
            Value::Float => Value::Float,
            Value::Boolean(flag) => Value::Boolean(*flag),
            Value::Datetime => Value::Datetime,
            Value::Array(items) => {
                let mut copies: Vec<Value> = Vec::new();
                let mut i: usize = 0;
                while i < items.len()
                    invariant
                        i <= items.len(),
                        copies@.len() == i,
                        self matches Value::Array(all) && all == items,
                        forall|j: int| 0 <= j < i ==> copies@[j]@ == items@[j]@,
                    decreases items.len() - i,
                {
                    copies.push(items[i].copy());
                    i += 1;
                }
                let out = Value::Array(copies);
                proof {
                    view_of_parts(out);
                    view_of_parts(*self);
                    assert(trees(copies@) =~= trees(items@));
                }
                out
            },
            Value::Table(entries) => {
                let mut copies: Vec<(String, Value)> = Vec::new();
                let mut i: usize = 0;
                while i < entries.len()
                    invariant
                        i <= entries.len(),
                        copies@.len() == i,
                        self matches Value::Table(all) && all == entries,
                        forall|j: int|
                            0 <= j < i ==> copies@[j].0@ == entries@[j].0@ && copies@[j].1@
                                == entries@[j].1@,
                    decreases entries.len() - i,
                {
                    copies.push((entries[i].0.clone(), entries[i].1.copy()));
                    i += 1;
                }
                let out = Value::Table(copies);
                proof {
                    view_of_parts(out);
                    view_of_parts(*self);
                    assert(pairs(copies@) =~= pairs(entries@));
                }
                out
            },
        }
    }

    /// The place of a key among the entries of a table.
    pub fn find(entries: &Vec<(String, Value)>, key: &str) -> (place: Option<usize>)
        ensures
            match place {
                Some(i) => position(pairs(entries@), key@) == Some(i as int) && i < entries.len(),
                None => position(pairs(entries@), key@) is None,
            },
    {
        let mut i: usize = 0;
        while i < entries.len()
            invariant
                i <= entries.len(),
                forall|j: int| 0 <= j < i ==> pairs(entries@)[j].0 != key@,
            decreases entries.len() - i,
        {
            if same(entries[i].0.as_str(), key) {
                proof {
                    position_is_first(pairs(entries@), key@);
                    assert(pairs(entries@)[i as int].0 == key@);
                }
                return Some(i);
            }
            i += 1;
        }
        proof {
            position_is_first(pairs(entries@), key@);
        }
        None
    }
}

} // verus!
