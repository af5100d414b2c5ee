//! Free-form extension values that a style may attach to its options:
//! JSON values keyed by name.

use vstd::prelude::*;

verus! {

/// A JSON value. A number is kept as its text.
#[derive(Debug, PartialEq)]
pub enum JsonValue {
    Null,
    Bool(bool),
    Number(String),
    String(String),
    Array(Vec<JsonValue>),
    Object(Vec<(String, JsonValue)>),
}

/// A JSON value by its contents.
pub enum JsonV {
    Null,
    Bool(bool),
    Number(Seq<char>),
    Str(Seq<char>),
    Array(Seq<JsonV>),
    Object(Seq<(Seq<char>, JsonV)>),
}

/// The contents of a JSON value.
pub open spec fn json_view(v: JsonValue) -> JsonV
    decreases v, 2nat,
{
    match v {
        JsonValue::Null => JsonV::Null,
        JsonValue::Bool(b) => JsonV::Bool(b),
        JsonValue::Number(n) => JsonV::Number(n@),
        JsonValue::String(s) => JsonV::Str(s@),
        JsonValue::Array(a) => JsonV::Array(jsons_view(v->Array_0@)),
        JsonValue::Object(o) => JsonV::Object(members_view(v->Object_0@)),
    }
}

/// The contents of JSON values, in order.
pub open spec fn jsons_view(s: Seq<JsonValue>) -> Seq<JsonV>
    decreases s, 1nat,
{
    if s.len() == 0 {
        Seq::empty()
    } else {
        jsons_view(s.drop_last()).push(json_view(s.last()))
    }
}

/// The contents of named JSON values, in order.
pub open spec fn members_view(s: Seq<(String, JsonValue)>) -> Seq<(Seq<char>, JsonV)>
    decreases s, 1nat,
{
    if s.len() == 0 {
        Seq::empty()
    } else {
        members_view(s.drop_last()).push((s.last().0@, json_view(s.last().1)))
    }
}

/// Extension values keyed by name, by their contents.
pub open spec fn custom_view(c: Option<Vec<(String, JsonValue)>>) -> Option<Seq<(Seq<char>, JsonV)>> {
    match c {
        Some(v) => Some(members_view(v@)),
        None => None,
    }
}

impl JsonValue {
    /// A copy with the same contents.
    pub fn copy(&self) -> (r: Self)
        ensures
            json_view(r) == json_view(*self),
        decreases self, 2nat,
    {
        match self {
            JsonValue::Null => JsonValue::Null,
            JsonValue::Bool(b) => JsonValue::Bool(*b),
            JsonValue::Number(n) => JsonValue::Number(n.clone()),
            JsonValue::String(s) => JsonValue::String(s.clone()),
            JsonValue::Array(a) => {
                proof {
                    assert(decreases_to!(self => a));
                }
                JsonValue::Array(copy_values(a))
            },
            JsonValue::Object(o) => {
                proof {
                    assert(decreases_to!(self => o));
                }
                JsonValue::Object(copy_members(o))
            },
        }
    }
}

fn copy_values(v: &Vec<JsonValue>) -> (r: Vec<JsonValue>)
    ensures
        jsons_view(r@) == jsons_view(v@),
    decreases v, 1nat,
{
    let mut out: Vec<JsonValue> = Vec::new();
    let mut i: usize = 0;
    while i < v.len()
        invariant
            i <= v@.len(),
            jsons_view(out@) == jsons_view(v@.subrange(0, i as int)),
        decreases v@.len() - i,
    {
        proof {
            assert(decreases_to!(v => v@));
            assert(decreases_to!(v@ => v@[i as int]));
        }
        let c = v[i].copy();
        let ghost before = out@;
        out.push(c);
        proof {
            assert(out@.drop_last() =~= before);
            assert(v@.subrange(0, i + 1).drop_last() =~= v@.subrange(0, i as int));
        }
        i = i + 1;
    }
    proof {
        assert(v@.subrange(0, v@.len() as int) =~= v@);
    }
    out
}

fn copy_members(v: &Vec<(String, JsonValue)>) -> (r: Vec<(String, JsonValue)>)
    ensures
        members_view(r@) == members_view(v@),
    decreases v, 1nat,
{
    let mut out: Vec<(String, JsonValue)> = Vec::new();
    let mut i: usize = 0;
    while i < v.len()
        invariant
            i <= v@.len(),
            members_view(out@) == members_view(v@.subrange(0, i as int)),
        decreases v@.len() - i,
    {
        proof {
            assert(decreases_to!(v => v@));
            assert(decreases_to!(v@ => v@[i as int]));
            assert(decreases_to!(v@[i as int] => v@[i as int].1));
        }
        let c = (v[i].0.clone(), v[i].1.copy());
        let ghost before = out@;
        out.push(c);
        proof {
            assert(out@.drop_last() =~= before);
            assert(v@.subrange(0, i + 1).drop_last() =~= v@.subrange(0, i as int));
        }
        i = i + 1;
    }
    proof {
        assert(v@.subrange(0, v@.len() as int) =~= v@);
    }
    out
}

/// A copy of extension values with the same contents.
pub fn copy_custom(c: &Option<Vec<(String, JsonValue)>>) -> (r: Option<Vec<(String, JsonValue)>>)
    ensures
        custom_view(r) == custom_view(*c),
{
    match c {
        Some(v) => Some(copy_members(v)),
        None => None,
    }
}

impl Clone for JsonValue {
    fn clone(&self) -> (r: Self)
        ensures
            json_view(r) == json_view(*self),
    {
        self.copy()
    }
}

} // verus!
