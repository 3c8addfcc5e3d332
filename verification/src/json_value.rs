//! A JSON document as the library reads it.
use vstd::prelude::*;

use crate::text::str_eq;

verus! {

/// A JSON value. Numbers are kept as their text; object members keep the
/// order in which they were read.
#[derive(Debug)]
pub enum JsonValue {
    Null,
    Bool(bool),
    Number(String),
    Str(String),
    Array(Vec<JsonValue>),
    Object(Vec<(String, JsonValue)>),
}

/// A JSON value, with its texts as characters and its arrays and objects as
/// sequences.
pub enum JsonView {
    Null,
    Bool(bool),
    Number(Seq<char>),
    Str(Seq<char>),
    Array(Seq<JsonView>),
    Object(Seq<(Seq<char>, JsonView)>),
}

/// The view of a JSON value.
pub open spec fn json_view(v: JsonValue) -> JsonView
    decreases v, 0int,
{
    match v {
        JsonValue::Null => JsonView::Null,
        JsonValue::Bool(b) => JsonView::Bool(b),
        JsonValue::Number(n) => JsonView::Number(n@),
        JsonValue::Str(s) => JsonView::Str(s@),
        JsonValue::Array(items) => JsonView::Array(json_views(items@)),
        JsonValue::Object(members) => JsonView::Object(member_json_views(members@)),
    }
}

/// The views of a sequence of JSON values.
pub open spec fn json_views(items: Seq<JsonValue>) -> Seq<JsonView>
    decreases items, 1int,
{
    if items.len() == 0 {
        Seq::empty()
    } else {
        json_views(items.drop_last()).push(json_view(items.last()))
    }
}

/// The views of a sequence of object members.
pub open spec fn member_json_views(members: Seq<(String, JsonValue)>) -> Seq<(Seq<char>, JsonView)>
    decreases members, 1int,
{
    if members.len() == 0 {
        Seq::empty()
    } else {
        member_json_views(members.drop_last()).push(
            (members.last().0@, json_view(members.last().1)),
        )
    }
}

/// Appending a member appends its view.
pub proof fn lemma_member_json_views_push(ms: Seq<(String, JsonValue)>, m: (String, JsonValue))
    ensures
        member_json_views(ms.push(m)) == member_json_views(ms).push((m.0@, json_view(m.1))),
{
    assert(ms.push(m).drop_last() =~= ms);
}

/// Appending a value appends its view.
pub proof fn lemma_json_views_push(items: Seq<JsonValue>, v: JsonValue)
    ensures
        json_views(items.push(v)) == json_views(items).push(json_view(v)),
{
    assert(items.push(v).drop_last() =~= items);
}

/// A copy of a JSON value.
pub fn clone_json(v: &JsonValue) -> (r: JsonValue)
    ensures
        json_view(r) == json_view(*v),
    decreases v,
{
    match v {
        JsonValue::Null => JsonValue::Null,
        JsonValue::Bool(b) => JsonValue::Bool(*b),
        JsonValue::Number(n) => JsonValue::Number(n.clone()),
        JsonValue::Str(t) => JsonValue::Str(t.clone()),
        JsonValue::Array(items) => {
            let mut out: Vec<JsonValue> = Vec::new();
            let mut i: usize = 0;
            while i < items.len()
                invariant
                    i <= items@.len(),
                    *v == JsonValue::Array(*items),
                    json_views(out@) == json_views(items@.take(i as int)),
                decreases items@.len() - i,
            {
                proof {
                    assert(decreases_to!(*v => (*v)->Array_0));
                    assert(decreases_to!(*items => items@));
                    assert(decreases_to!(items@ => items@[i as int]));
                }
                let c = clone_json(&items[i]);
                let ghost before = out@;
                out.push(c);
                proof {
                    assert(out@.drop_last() =~= before);
                    assert(items@.take(i + 1).drop_last() =~= items@.take(i as int));
                }
                i = i + 1;
            }
            proof {
                assert(items@.take(i as int) =~= items@);
            }
            JsonValue::Array(out)
        },
        JsonValue::Object(members) => {
            let mut out: Vec<(String, JsonValue)> = Vec::new();
            let mut i: usize = 0;
            while i < members.len()
                invariant
                    i <= members@.len(),
                    *v == JsonValue::Object(*members),
                    member_json_views(out@) == member_json_views(members@.take(i as int)),
                decreases members@.len() - i,
            {
                proof {
                    assert(decreases_to!(*v => (*v)->Object_0));
                    assert(decreases_to!(*members => members@));
                    assert(decreases_to!(members@ => members@[i as int]));
                    assert(decreases_to!(members@[i as int] => members@[i as int].1));
                }
                let c = clone_json(&members[i].1);
                let ghost before = out@;
                out.push((members[i].0.clone(), c));
                proof {
                    assert(out@.drop_last() =~= before);
                    assert(members@.take(i + 1).drop_last() =~= members@.take(i as int));
                }
                i = i + 1;
            }
            proof {
                assert(members@.take(i as int) =~= members@);
            }
            JsonValue::Object(out)
        },
    }
}

impl Clone for JsonValue {
    fn clone(&self) -> (r: Self)
        ensures
            json_view(r) == json_view(*self),
    {
        clone_json(self)
    }
}

/// The value of the first member of `members` named `key`.
pub open spec fn member(members: Seq<(String, JsonValue)>, key: Seq<char>) -> Option<JsonValue>
    decreases members.len(),
{
    if members.len() == 0 {
        None
    } else if members[0].0@ == key {
        Some(members[0].1)
    } else {
        member(members.drop_first(), key)
    }
}

/// The member `key` of `v`, when `v` is an object that has one.
pub open spec fn json_get(v: JsonValue, key: Seq<char>) -> Option<JsonValue> {
    match v {
        JsonValue::Object(members) => member(members@, key),
        _ => None,
    }
}

/// The text of the member `key` of `v`, when that member is a string.
pub open spec fn string_member(v: JsonValue, key: Seq<char>) -> Option<String> {
    match json_get(v, key) {
        Some(JsonValue::Str(s)) => Some(s),
        _ => None,
    }
}

/// The member `key` of `v`, when `v` is an object that has one.
pub fn get<'a>(v: &'a JsonValue, key: &str) -> (r: Option<&'a JsonValue>)
    ensures
        match r {
            Some(x) => json_get(*v, key@) == Some(*x),
            None => json_get(*v, key@) is None,
        },
{
    match v {
        JsonValue::Object(members) => {
            let mut i: usize = 0;
            assert(members@.skip(0) =~= members@);
            while i < members.len()
                invariant
                    i <= members@.len(),
                    json_get(*v, key@) == member(members@, key@),
                    member(members@, key@) == member(members@.skip(i as int), key@),
                decreases members@.len() - i,
            {
                proof {
                    let t = members@.skip(i as int);
                    assert(t[0] == members@[i as int]);
                    assert(t.drop_first() =~= members@.skip(i + 1));
                }
                if str_eq(members[i].0.as_str(), key) {
                    proof {
                        let t = members@.skip(i as int);
                        assert(t.len() > 0 && t[0].0@ == key@);
                        assert(member(t, key@) == Some(t[0].1));
                    }
                    return Some(&members[i].1);
                }
                i = i + 1;
            }
            None
        },
        _ => None,
    }
}

/// The text of the member `key` of `v`, when that member is a string.
pub fn get_string(v: &JsonValue, key: &str) -> (r: Option<String>)
    ensures
        r == string_member(*v, key@),
{
    match get(v, key) {
        Some(JsonValue::Str(s)) => Some(s.clone()),
        _ => None,
    }
}

} // verus!
