//! JSON values as the helper protocol carries them, with their view and
//! the lookups the client makes in them.
use vstd::prelude::*;
use crate::text::owned;
use crate::yaml::str_eq;

verus! {

/// A JSON value. Numbers are held as the text JSON writes them.
pub enum JsonValue {
    Null,
    Bool(bool),
    Number(String),
    Str(String),
    Array(Vec<JsonValue>),
    Object(Vec<(String, JsonValue)>),
}

/// The mathematical value of a `JsonValue`.
pub enum JsonView {
    Null,
    Bool(bool),
    Number(Seq<char>),
    Str(Seq<char>),
    Array(Seq<JsonView>),
    Object(Seq<(Seq<char>, JsonView)>),
}

pub open spec fn json_view(j: JsonValue) -> JsonView
    decreases j,
{
    match j {
        JsonValue::Null => JsonView::Null,
        JsonValue::Bool(b) => JsonView::Bool(b),
        JsonValue::Number(n) => JsonView::Number(n@),
        JsonValue::Str(s) => JsonView::Str(s@),
        JsonValue::Array(v) => {
            proof {
                assert forall|i: int| 0 <= i < v@.len() implies decreases_to!(j => v@[i]) by {
                    assert(decreases_to!(j => v));
                    assert(decreases_to!(v => v@));
                    assert(decreases_to!(v@ => v@[i]));
                }
            }
            JsonView::Array(
                Seq::new(
                    v@.len(),
                    |i: int|
                        if 0 <= i < v@.len() {
                            json_view(v@[i])
                        } else {
                            JsonView::Null
                        },
                ),
            )
        },
        JsonValue::Object(v) => {
            proof {
                assert forall|i: int| 0 <= i < v@.len() implies decreases_to!(j => v@[i].1) by {
                    assert(decreases_to!(j => v));
                    assert(decreases_to!(v => v@));
                    assert(decreases_to!(v@ => v@[i]));
                    assert(decreases_to!(v@[i] => v@[i].1));
                }
            }
            JsonView::Object(
                Seq::new(
                    v@.len(),
                    |i: int|
                        if 0 <= i < v@.len() {
                            (v@[i].0@, json_view(v@[i].1))
                        } else {
                            (Seq::empty(), JsonView::Null)
                        },
                ),
            )
        },
    }
}

impl View for JsonValue {
    type V = JsonView;

    open spec fn view(&self) -> JsonView {
        json_view(*self)
    }
}

/// The views of the members of an object.
pub open spec fn members_view(e: Seq<(String, JsonValue)>) -> Seq<(Seq<char>, JsonView)> {
    Seq::new(e.len(), |i: int| (e[i].0@, e[i].1@))
}

/// An object of the given members.
pub fn jobject(e: Vec<(String, JsonValue)>) -> (r: JsonValue)
    ensures
        r@ == JsonView::Object(members_view(e@)),
{
    assert(JsonValue::Object(e)@->Object_0 =~= members_view(e@));
    JsonValue::Object(e)
}

/// The object with the single member `key: value`.
pub fn jobject1(key: &str, value: JsonValue) -> (r: JsonValue)
    ensures
        r@ == JsonView::Object(seq![(key@, value@)]),
{
    let mut e: Vec<(String, JsonValue)> = Vec::new();
    e.push((owned(key), value));
    assert(members_view(e@) =~= seq![(key@, value@)]);
    jobject(e)
}

/// No two members of an object have the same name (as in JSON objects that
/// serde_json parses into its maps).
pub open spec fn names_unique(e: Seq<(Seq<char>, JsonView)>) -> bool {
    forall|i: int, j: int| 0 <= i < j < e.len() ==> #[trigger] e[i].0 != #[trigger] e[j].0
}

/// The index of the first member named `k`, or -1 when there is none.
pub open spec fn member_index(e: Seq<(Seq<char>, JsonView)>, k: Seq<char>) -> int
    decreases e.len(),
{
    if e.len() == 0 {
        -1
    } else if e[0].0 == k {
        0
    } else {
        let r = member_index(e.drop_first(), k);
        if r < 0 {
            -1
        } else {
            r + 1
        }
    }
}

pub proof fn lemma_member_index(e: Seq<(Seq<char>, JsonView)>, k: Seq<char>)
    ensures
        -1 <= member_index(e, k) < e.len(),
        member_index(e, k) >= 0 ==> e[member_index(e, k)].0 == k,
        forall|j: int| 0 <= j < member_index(e, k) ==> #[trigger] e[j].0 != k,
        member_index(e, k) < 0 ==> forall|j: int| 0 <= j < e.len() ==> #[trigger] e[j].0 != k,
    decreases e.len(),
{
    if e.len() > 0 && e[0].0 != k {
        let t = e.drop_first();
        lemma_member_index(t, k);
        assert forall|j: int| 1 <= j < e.len() implies #[trigger] e[j] == t[j - 1] by {}
    }
}

/// What `Value::get(key)` gives: the member `key` of an object, `None` for
/// anything else.
pub open spec fn json_get(v: JsonView, key: Seq<char>) -> Option<JsonView> {
    match v {
        JsonView::Object(e) => {
            let i = member_index(e, key);
            if i >= 0 {
                Some(e[i].1)
            } else {
                None
            }
        },
        _ => None,
    }
}

/// The member `key` of an object, `None` for anything else.
pub fn get<'a>(v: &'a JsonValue, key: &str) -> (r: Option<&'a JsonValue>)
    ensures
        match r {
            Some(x) => json_get(v@, key@) == Some(x@),
            None => json_get(v@, key@) is None,
        },
{
    match v {
        JsonValue::Object(e) => {
            let ghost ev = members_view(e@);
            assert(v@ == JsonView::Object(ev)) by {
                assert(v@->Object_0 =~= ev);
            }
            let n = e.len();
            let mut i: usize = 0;
            while i < n
                invariant
                    n == e@.len(),
                    ev == members_view(e@),
                    v@ == JsonView::Object(ev),
                    i <= n,
                    forall|j: int| 0 <= j < i ==> #[trigger] ev[j].0 != key@,
                decreases n - i,
            {
                if str_eq(e[i].0.as_str(), key) {
                    proof {
                        assert(ev[i as int] == (e@[i as int].0@, e@[i as int].1@));
                        lemma_member_index(ev, key@);
                        if member_index(ev, key@) != i {
                            assert(ev[i as int].0 == key@);
                        }
                    }
                    return Some(&e[i].1);
                }
                i = i + 1;
            }
            proof {
                lemma_member_index(ev, key@);
                if member_index(ev, key@) >= 0 {
                    assert(ev[member_index(ev, key@)].0 == key@);
                }
            }
            None
        },
        _ => None,
    }
}

} // verus!
