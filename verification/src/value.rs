//! A self-contained model of JSON-like values.
//!
//! Option expressions, provider pass-through fields and outbound request
//! bodies are all trees of these values.  Keeping the model inside the
//! library lets every function that reads or builds such a tree carry a
//! full contract.

use vstd::prelude::*;

verus! {

/// A JSON-like value.  Objects are ordered association lists; when a key
/// occurs more than once the last occurrence is the one a lookup sees,
/// mirroring repeated insertion into a map.
#[derive(Debug, PartialEq, Eq)]
pub enum Value {
    Null,
    Bool(bool),
    Int(i64),
    /// A non-integral JSON number, kept as its literal decimal text: the
    /// library only ever passes such values through verbatim.
    Num(String),
    Text(String),
    Arr(Vec<Value>),
    Obj(Vec<(String, Value)>),
}

/// Structural equality of two values: same shape, and every string equal
/// character for character.  This is the notion of "the same value" that
/// the library's contracts use.
pub open spec fn value_eq(a: Value, b: Value) -> bool
    decreases a,
{
    match (a, b) {
        (Value::Null, Value::Null) => true,
        (Value::Bool(x), Value::Bool(y)) => x == y,
        (Value::Int(x), Value::Int(y)) => x == y,
        (Value::Num(x), Value::Num(y)) => x@ == y@,
        (Value::Text(x), Value::Text(y)) => x@ == y@,
        (Value::Arr(x), Value::Arr(y)) => {
            &&& x@.len() == y@.len()
            &&& forall|i: int| 0 <= i < x@.len() ==> value_eq(#[trigger] x@[i], y@[i])
        },
        (Value::Obj(x), Value::Obj(y)) => {
            &&& x@.len() == y@.len()
            &&& forall|i: int|
                0 <= i < x@.len() ==> (#[trigger] x@[i]).0@ == y@[i].0@ && value_eq(
                    x@[i].1,
                    y@[i].1,
                )
        },
        _ => false,
    }
}

impl Value {
    /// The string payload, for `Text` values only.
    pub open spec fn spec_as_text(self) -> Option<Seq<char>> {
        match self {
            Value::Text(s) => Some(s@),
            _ => None,
        }
    }
}

/// The value under `key` in an object's field list: the last binding wins,
/// as with repeated map insertion.
pub open spec fn lookup_field(fields: Seq<(String, Value)>, key: Seq<char>) -> Option<Value>
    decreases fields.len(),
{
    if fields.len() == 0 {
        None
    } else if fields.last().0@ == key {
        Some(fields.last().1)
    } else {
        lookup_field(fields.drop_last(), key)
    }
}

/// Deep copy of a value, proved structurally equal to the original.
#[verifier::loop_isolation(false)]
pub fn clone_value(v: &Value) -> (r: Value)
    ensures
        value_eq(r, *v),
    decreases v,
{
    match v {
        Value::Null => Value::Null,
        Value::Bool(b) => Value::Bool(*b),
        Value::Int(i) => Value::Int(*i),
        Value::Num(s) => Value::Num(s.clone()),
        Value::Text(s) => Value::Text(s.clone()),
        Value::Arr(items) => {
            let mut out: Vec<Value> = Vec::new();
            let mut i: usize = 0;
            while i < items.len()
                invariant
                    i <= items.len(),
                    out@.len() == i,
                    forall|j: int| 0 <= j < i ==> value_eq(#[trigger] out@[j], items@[j]),
                decreases items.len() - i,
            {
                proof {
                    assert(decreases_to!(*v => (*v)->Arr_0));
                    assert(decreases_to!(*items => items@));
                    assert(decreases_to!(items@ => items@[i as int]));
                }
                out.push(clone_value(&items[i]));
                i = i + 1;
            }
            Value::Arr(out)
        },
        Value::Obj(fields) => {
            let mut out: Vec<(String, Value)> = Vec::new();
            let mut i: usize = 0;
            while i < fields.len()
                invariant
                    i <= fields.len(),
                    out@.len() == i,
                    forall|j: int|
                        0 <= j < i ==> (#[trigger] out@[j]).0@ == fields@[j].0@ && value_eq(
                            out@[j].1,
                            fields@[j].1,
                        ),
                decreases fields.len() - i,
            {
                proof {
                    assert(decreases_to!(*v => (*v)->Obj_0));
                    assert(decreases_to!(*fields => fields@));
                    assert(decreases_to!(fields@ => fields@[i as int]));
                    assert(decreases_to!(fields@[i as int] => fields@[i as int].1));
                }
                let key = fields[i].0.clone();
                let val = clone_value(&fields[i].1);
                out.push((key, val));
                i = i + 1;
            }
            Value::Obj(out)
        },
    }
}

impl Clone for Value {
    /// Deep copy; the clone is structurally equal to the original.
    fn clone(&self) -> (r: Self)
        ensures
            value_eq(r, *self),
    {
        clone_value(self)
    }
}

} // verus!
