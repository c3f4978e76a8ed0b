//! The structured configuration document: a tree of scalars, lists and
//! key/value maps, as a YAML-like parser produces it.
use vstd::prelude::*;
use crate::text::same_text;

verus! {

#[derive(Debug)]
pub enum Value {
    Null,
    Bool(bool),
    Int(i64),
    Str(String),
    List(Vec<Value>),
    /// Entries in document order.
    Hash(Vec<(Value, Value)>),
    /// A scalar of another kind (a real number, an alias, an invalid node).
    Other,
}

/// The text of a string node.
pub open spec fn as_text(v: Value) -> Option<Seq<char>> {
    match v {
        Value::Str(s) => Some(s@),
        _ => None,
    }
}

/// The value of an integer node that fits in 32 bits.
pub open spec fn as_i32(v: Value) -> Option<i32> {
    match v {
        Value::Int(n) => if i32::MIN <= n <= i32::MAX {
            Some(n as i32)
        } else {
            None
        },
        _ => None,
    }
}

pub open spec fn as_bool(v: Value) -> Option<bool> {
    match v {
        Value::Bool(b) => Some(b),
        _ => None,
    }
}

/// The value of the first entry whose key is the string `name`.
pub open spec fn lookup(entries: Seq<(Value, Value)>, name: Seq<char>) -> Option<Value>
    decreases entries.len(),
{
    if entries.len() == 0 {
        None
    } else if as_text(entries[0].0) == Some(name) {
        Some(entries[0].1)
    } else {
        lookup(entries.drop_first(), name)
    }
}

/// The value under key `name` of a map node; nothing for any other node.
pub open spec fn field(v: Value, name: Seq<char>) -> Option<Value> {
    match v {
        Value::Hash(entries) => lookup(entries@, name),
        _ => None,
    }
}

impl Value {
    pub fn text(&self) -> (r: Option<&String>)
        ensures
            match r {
                Some(s) => as_text(*self) == Some(s@),
                None => as_text(*self) is None,
            },
    {
        match self {
            Value::Str(s) => Some(s),
            _ => None,
        }
    }

    pub fn to_i32(&self) -> (r: Option<i32>)
        ensures
            r == as_i32(*self),
    {
        match self {
            Value::Int(n) => if i32::MIN as i64 <= *n && *n <= i32::MAX as i64 {
                Some(*n as i32)
            } else {
                None
            },
            _ => None,
        }
    }

    pub fn to_bool(&self) -> (r: Option<bool>)
        ensures
            r == as_bool(*self),
    {
        match self {
            Value::Bool(b) => Some(*b),
            _ => None,
        }
    }

    /// The value under key `name`, when this is a map that has one.
    pub fn get(&self, name: &str) -> (r: Option<&Value>)
        ensures
            match r {
                Some(v) => field(*self, name@) == Some(*v),
                None => field(*self, name@) is None,
            },
    {
        match self {
            Value::Hash(entries) => {
                let mut i: usize = 0;
                proof {
                    assert(entries@.skip(0) =~= entries@);
                    assert(field(*self, name@) == lookup(entries@, name@));
                }
                while i < entries.len()
                    invariant
                        i <= entries@.len(),
                        field(*self, name@) == lookup(entries@, name@),
                        lookup(entries@, name@) == lookup(entries@.skip(i as int), name@),
                    decreases entries@.len() - i,
                {
                    proof {
                        assert(entries@.skip(i as int).drop_first() =~= entries@.skip(i + 1));
                        assert(entries@.skip(i as int)[0] == entries@[i as int]);
                    }
                    if let Some(k) = entries[i].0.text() {
                        if same_text(k.as_str(), name) {
                            return Some(&entries[i].1);
                        }
                    }
                    i = i + 1;
                }
                proof {
                    assert(entries@.skip(i as int).len() == 0);
                }
                None
            },
            _ => None,
        }
    }
}

} // verus!
